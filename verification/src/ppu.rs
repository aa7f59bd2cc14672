//! CPU-visible PPU register surface.
//!
//! The bus routes the eight register addresses 0x2000-0x2007 (and their
//! mirrors) here by register index, plus the OAM DMA port. The surface
//! stores what is written; the two behaviours the CPU core must reproduce
//! faithfully are the 16-bit address latch behind register 6 and the data
//! port behind register 7, which reads CHR ROM through a one-byte buffer and
//! nametable VRAM through the cartridge's mirroring rule.

use vstd::prelude::*;

use crate::cartridge::Mirroring;
use crate::errors::EmuError;

verus! {

/// The 14-bit VRAM address latch behind register 6. The first write sets the
/// high byte, the second the low byte; the toggle flips on each write and the
/// value is always masked to 14 bits.
pub struct MemoryAddressRegister {
    pub value: u16,
    pub top_byte_set: bool,
}

/// A fresh latch: address zero, next write sets the high byte.
pub open spec fn spec_mar_new() -> MemoryAddressRegister {
    MemoryAddressRegister { value: 0, top_byte_set: false }
}

/// The latch stays within its 14-bit range.
pub open spec fn spec_mar_wf(m: MemoryAddressRegister) -> bool {
    m.value < 0x4000
}

/// One byte written to the latch: high byte first, then low byte, masked to
/// 14 bits, flipping the toggle.
pub open spec fn spec_mar_write(m: MemoryAddressRegister, byte: u8) -> MemoryAddressRegister {
    let combined = if !m.top_byte_set {
        (byte as u16) * 0x100 + m.value % 0x100
    } else {
        m.value - m.value % 0x100 + byte as u16
    };
    MemoryAddressRegister { value: ((combined % 0x4000) as u16), top_byte_set: !m.top_byte_set }
}

/// The latch advanced by `step`, wrapping within its 14-bit range.
pub open spec fn spec_mar_increment(m: MemoryAddressRegister, step: u8) -> MemoryAddressRegister {
    MemoryAddressRegister {
        value: (((m.value + step) % 0x4000) as u16),
        top_byte_set: m.top_byte_set,
    }
}

impl MemoryAddressRegister {
    /// Writes one byte into the latch: high byte on the first write, low
    /// byte on the second, address masked to 14 bits.
    pub fn write(&mut self, byte: u8)
        ensures
            *final(self) == spec_mar_write(*old(self), byte),
            spec_mar_wf(*final(self)),
    {
        let combined: u16 = if !self.top_byte_set {
            (byte as u16) * 0x100 + self.value % 0x100
        } else {
            self.value - self.value % 0x100 + byte as u16
        };
        self.value = combined % 0x4000;
        self.top_byte_set = !self.top_byte_set;
    }

    /// Advances the latched address by `step`, wrapping within 14 bits.
    pub fn increment(&mut self, step: u8)
        requires
            spec_mar_wf(*old(self)),
        ensures
            *final(self) == spec_mar_increment(*old(self), step),
            spec_mar_wf(*final(self)),
    {
        self.value = (self.value + step as u16) % 0x4000;
    }
}

/// The PPU register surface as the CPU sees it.
pub struct PPU {
    pub chr_rom: Vec<u8>,
    pub palette_table: Vec<u8>,
    pub vram: Vec<u8>,
    pub oam_data: Vec<u8>,
    pub mirroring: Mirroring,
    pub regs: Vec<u8>,
    pub byte_buffer: u8,
    pub mem_addr_reg: MemoryAddressRegister,
    pub oam_dma_page: u8,
}

/// Mathematical view of the register surface.
#[verifier::ext_equal]
pub struct PpuView {
    pub chr_rom: Seq<u8>,
    pub palette_table: Seq<u8>,
    pub vram: Seq<u8>,
    pub oam_data: Seq<u8>,
    pub mirroring: Mirroring,
    pub regs: Seq<u8>,
    pub byte_buffer: u8,
    pub mem_addr_reg: MemoryAddressRegister,
    pub oam_dma_page: u8,
}

impl View for PPU {
    type V = PpuView;

    open spec fn view(&self) -> PpuView {
        PpuView {
            chr_rom: self.chr_rom@,
            palette_table: self.palette_table@,
            vram: self.vram@,
            oam_data: self.oam_data@,
            mirroring: self.mirroring,
            regs: self.regs@,
            byte_buffer: self.byte_buffer,
            mem_addr_reg: self.mem_addr_reg,
            oam_dma_page: self.oam_dma_page,
        }
    }
}

impl PpuView {
    /// Well-formedness: the backing stores have their hardware sizes and the
    /// address latch is within 14 bits.
    pub open spec fn wf(self) -> bool {
        &&& self.palette_table.len() == 32
        &&& self.vram.len() == 2048
        &&& self.oam_data.len() == 256
        &&& self.regs.len() == 8
        &&& spec_mar_wf(self.mem_addr_reg)
    }
}

/// A fresh register surface over the given CHR ROM and mirroring: zeroed
/// VRAM, palette, OAM and registers, cleared buffer and latch.
pub open spec fn spec_ppu_new(chr_rom: Seq<u8>, mirroring: Mirroring) -> PpuView {
    PpuView {
        chr_rom: chr_rom,
        palette_table: Seq::new(32, |i: int| 0u8),
        vram: Seq::new(2048, |i: int| 0u8),
        oam_data: Seq::new(256, |i: int| 0u8),
        mirroring: mirroring,
        regs: Seq::new(8, |i: int| 0u8),
        byte_buffer: 0,
        mem_addr_reg: spec_mar_new(),
        oam_dma_page: 0,
    }
}

/// Nametable mirroring: the address is masked to 0x0EFF, split into a
/// 4-table index and an offset, and the table is folded onto the two
/// physical nametables. Horizontal maps tables 0 and 1 to the first bank and
/// 2 and 3 to the second; vertical maps 0 and 2 to the first and 1 and 3 to
/// the second. Four-screen mirroring is unsupported and fails.
pub open spec fn spec_mirror_vram(mirroring: Mirroring, addr: u16) -> Result<u16, EmuError> {
    let vram_index = addr & 0x0EFF;
    let table = vram_index / 0x400;
    let offset = vram_index % 0x400;
    match mirroring {
        Mirroring::Horizontal => Ok(
            if table >= 2 {
                ((0x400 + offset) as u16)
            } else {
                offset
            },
        ),
        Mirroring::Vertical => Ok(
            if table == 1 || table == 3 {
                ((0x400 + offset) as u16)
            } else {
                offset
            },
        ),
        Mirroring::FourScreen => Err(EmuError::FourScreenUnsupported),
    }
}

/// How far the data port advances the latch per access: 1 when bit 2 of the
/// control register is set, else 32.
pub open spec fn spec_vram_step(control: u8) -> u8 {
    if control & 0x04 != 0 {
        1
    } else {
        32
    }
}

/// One read of the data port (register 7): the latch advances, and the
/// returned byte is the old buffer contents for CHR ROM addresses (the
/// buffer refilling from CHR ROM, or 0 past its end), the mirrored VRAM byte
/// for nametable addresses, the palette byte for palette addresses, and 0
/// for the unmapped gap in between.
pub open spec fn spec_ppu_data_read(p: PpuView) -> (PpuView, Result<u8, EmuError>) {
    let addr = p.mem_addr_reg.value;
    let p1 = PpuView {
        mem_addr_reg: spec_mar_increment(p.mem_addr_reg, spec_vram_step(p.regs[0])),
        ..p
    };
    if addr < 0x2000 {
        let refill = if addr < p.chr_rom.len() {
            p.chr_rom[addr as int]
        } else {
            0u8
        };
        (PpuView { byte_buffer: refill, ..p1 }, Ok(p.byte_buffer))
    } else if addr < 0x3000 {
        match spec_mirror_vram(p.mirroring, addr) {
            Ok(m) => (p1, Ok(p.vram[m as int])),
            Err(e) => (p1, Err(e)),
        }
    } else if addr >= 0x3F00 {
        (p1, Ok(p.palette_table[(addr % 0x20) as int]))
    } else {
        (p1, Ok(0))
    }
}

/// One write of the data port (register 7): the latch advances; nametable
/// addresses update mirrored VRAM, palette addresses update the palette,
/// CHR ROM and the unmapped gap ignore the write.
pub open spec fn spec_ppu_data_write(p: PpuView, value: u8) -> (PpuView, Result<
    (),
    EmuError,
>) {
    let addr = p.mem_addr_reg.value;
    let p1 = PpuView {
        mem_addr_reg: spec_mar_increment(p.mem_addr_reg, spec_vram_step(p.regs[0])),
        ..p
    };
    if addr < 0x2000 {
        (p1, Ok(()))
    } else if addr < 0x3000 {
        match spec_mirror_vram(p.mirroring, addr) {
            Ok(m) => (PpuView { vram: p1.vram.update(m as int, value), ..p1 }, Ok(())),
            Err(e) => (p1, Err(e)),
        }
    } else if addr >= 0x3F00 {
        (PpuView { palette_table: p1.palette_table.update((addr % 0x20) as int, value), ..p1 }, Ok(
            (),
        ))
    } else {
        (p1, Ok(()))
    }
}

/// A CPU-side read of register `reg`: register 2 reads as 0, register 4
/// reads OAM at the stored OAM address (register 3), register 7 is the data
/// port; the remaining registers are never routed here by the bus and read
/// as 0.
pub open spec fn spec_ppu_read(p: PpuView, reg: u8) -> (PpuView, Result<u8, EmuError>) {
    if reg == 2 {
        (p, Ok(0))
    } else if reg == 4 {
        (p, Ok(p.oam_data[p.regs[3] as int]))
    } else if reg == 7 {
        spec_ppu_data_read(p)
    } else {
        (p, Ok(0))
    }
}

/// A CPU-side write of register `reg`: register 6 feeds the address latch,
/// register 7 is the data port, every other register stores the byte.
pub open spec fn spec_ppu_write(p: PpuView, reg: u8, value: u8) -> (PpuView, Result<
    (),
    EmuError,
>) {
    if reg == 6 {
        (PpuView { mem_addr_reg: spec_mar_write(p.mem_addr_reg, value), ..p }, Ok(()))
    } else if reg == 7 {
        spec_ppu_data_write(p, value)
    } else {
        (PpuView { regs: p.regs.update(reg as int, value), ..p }, Ok(()))
    }
}

/// Builds a zero-filled byte vector of the given length.
fn zero_vec(len: usize) -> (r: Vec<u8>)
    ensures
        r@ == Seq::new(len as nat, |i: int| 0u8),
{
    let mut out: Vec<u8> = Vec::new();
    let mut i: usize = 0;
    while i < len
        invariant
            i <= len,
            out@ == Seq::new(i as nat, |j: int| 0u8),
        decreases len - i,
    {
        out.push(0);
        proof {
            assert(Seq::new((i + 1) as nat, |j: int| 0u8) =~= Seq::new(i as nat, |j: int| 0u8).push(
                0u8,
            ));
        }
        i = i + 1;
    }
    out
}

impl PPU {
    /// Builds a fresh register surface over the given CHR ROM and mirroring.
    pub fn new(chr_rom: Vec<u8>, mirroring: Mirroring) -> (r: PPU)
        ensures
            r@ == spec_ppu_new(chr_rom@, mirroring),
            r@.wf(),
    {
        PPU {
            chr_rom,
            palette_table: zero_vec(32),
            vram: zero_vec(2048),
            oam_data: zero_vec(256),
            mirroring,
            regs: zero_vec(8),
            byte_buffer: 0,
            mem_addr_reg: MemoryAddressRegister { value: 0, top_byte_set: false },
            oam_dma_page: 0,
        }
    }

    /// Folds a nametable address onto the 2 KiB VRAM, or fails for
    /// four-screen mirroring.
    pub fn mirror_addr(&self, addr: u16) -> (r: Result<u16, EmuError>)
        ensures
            r == spec_mirror_vram(self.mirroring, addr),
            r matches Ok(m) ==> m < 0x800,
    {
        let vram_index: u16 = addr & 0x0EFF;
        let table: u16 = vram_index / 0x400;
        let offset: u16 = vram_index % 0x400;
        match self.mirroring {
            Mirroring::Horizontal => Ok(if table >= 2 { 0x400 + offset } else { offset }),
            Mirroring::Vertical => Ok(
                if table == 1 || table == 3 {
                    0x400 + offset
                } else {
                    offset
                },
            ),
            Mirroring::FourScreen => Err(EmuError::FourScreenUnsupported),
        }
    }

    /// Advances the address latch by the data-port step drawn from the
    /// control register.
    fn increment_addr(&mut self)
        requires
            old(self)@.wf(),
        ensures
            final(self)@ == (PpuView {
                mem_addr_reg: spec_mar_increment(
                    old(self)@.mem_addr_reg,
                    spec_vram_step(old(self)@.regs[0]),
                ),
                ..old(self)@
            }),
            final(self)@.wf(),
    {
        let step: u8 = if self.regs[0] & 0x04 != 0 {
            1
        } else {
            32
        };
        self.mem_addr_reg.increment(step);
    }

    /// CPU-side read of register `reg` (the low three bits of the bus
    /// address).
    pub fn read(&mut self, reg: u8) -> (r: Result<u8, EmuError>)
        requires
            old(self)@.wf(),
            reg < 8,
        ensures
            ({
                let (p, v) = spec_ppu_read(old(self)@, reg);
                final(self)@ == p && r == v
            }),
            final(self)@.wf(),
    {
        if reg == 2 {
            Ok(0)
        } else if reg == 4 {
            let oam_addr: u8 = self.regs[3];
            Ok(self.oam_data[oam_addr as usize])
        } else if reg == 7 {
            let addr: u16 = self.mem_addr_reg.value;
            self.increment_addr();
            if addr < 0x2000 {
                let data: u8 = self.byte_buffer;
                self.byte_buffer = if (addr as usize) < self.chr_rom.len() {
                    self.chr_rom[addr as usize]
                } else {
                    0
                };
                Ok(data)
            } else if addr < 0x3000 {
                match self.mirror_addr(addr) {
                    Ok(m) => Ok(self.vram[m as usize]),
                    Err(e) => Err(e),
                }
            } else if addr >= 0x3F00 {
                Ok(self.palette_table[(addr % 0x20) as usize])
            } else {
                Ok(0)
            }
        } else {
            Ok(0)
        }
    }

    /// CPU-side write of register `reg` (the low three bits of the bus
    /// address).
    pub fn write(&mut self, reg: u8, value: u8) -> (r: Result<(), EmuError>)
        requires
            old(self)@.wf(),
            reg < 8,
        ensures
            ({
                let (p, v) = spec_ppu_write(old(self)@, reg, value);
                final(self)@ == p && r == v
            }),
            final(self)@.wf(),
    {
        if reg == 6 {
            self.mem_addr_reg.write(value);
            Ok(())
        } else if reg == 7 {
            let addr: u16 = self.mem_addr_reg.value;
            self.increment_addr();
            if addr < 0x2000 {
                Ok(())
            } else if addr < 0x3000 {
                match self.mirror_addr(addr) {
                    Ok(m) => {
                        self.vram.set(m as usize, value);
                        Ok(())
                    },
                    Err(e) => Err(e),
                }
            } else if addr >= 0x3F00 {
                self.palette_table.set((addr % 0x20) as usize, value);
                Ok(())
            } else {
                Ok(())
            }
        } else {
            self.regs.set(reg as usize, value);
            Ok(())
        }
    }

    /// Stores the page byte written to the OAM DMA port; the transfer itself
    /// is outside the core's scope.
    pub fn oam_dma_start(&mut self, page: u8)
        ensures
            final(self)@ == (PpuView { oam_dma_page: page, ..old(self)@ }),
    {
        self.oam_dma_page = page;
    }
}

} // verus!
