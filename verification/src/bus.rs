//! The address bus: 2 KiB system RAM mirrored four times, the PPU register
//! window with its write-only/read-only address policy, the OAM DMA port,
//! and the cartridge PRG ROM window with its 16 KiB mirroring rule.
//!
//! The bus owns the RAM, the PPU register surface and the cartridge; the CPU
//! receives it by mutable reference on every call. [`spec_bus_read`] and
//! [`spec_bus_write`] are the decode table in mathematical form; the
//! executable `read` and `write` are proved equal to them.

use vstd::prelude::*;

use crate::cartridge::CartView;
use crate::cartridge::Cartridge;
use crate::errors::EmuError;
use crate::ppu::PPU;
use crate::ppu::PpuView;
use crate::ppu::spec_ppu_new;
use crate::ppu::spec_ppu_read;
use crate::ppu::spec_ppu_write;

verus! {

/// The bus: system RAM, the PPU register surface and the cartridge.
pub struct Bus {
    pub ram: Vec<u8>,
    pub ppu: PPU,
    pub cartridge: Cartridge,
}

/// Mathematical view of the bus.
#[verifier::ext_equal]
pub struct BusView {
    pub ram: Seq<u8>,
    pub ppu: PpuView,
    pub cartridge: CartView,
}

impl View for Bus {
    type V = BusView;

    open spec fn view(&self) -> BusView {
        BusView { ram: self.ram@, ppu: self.ppu@, cartridge: self.cartridge@ }
    }
}

impl BusView {
    /// Well-formedness: the RAM is exactly 2 KiB and the PPU surface is
    /// well-formed.
    pub open spec fn wf(self) -> bool {
        &&& self.ram.len() == 2048
        &&& self.ppu.wf()
    }
}

/// A fresh bus over a cartridge: zeroed RAM and a fresh PPU surface that
/// shares the cartridge's CHR ROM and mirroring.
pub open spec fn spec_bus_new(cartridge: CartView) -> BusView {
    BusView {
        ram: Seq::new(2048, |i: int| 0u8),
        ppu: spec_ppu_new(cartridge.chr_rom, cartridge.mirroring),
        cartridge: cartridge,
    }
}

/// Whether a CPU read of `addr` lands on a write-only port: the OAM DMA port
/// or PPU registers 0, 1, 3, 5 and 6 (through every mirror of the register
/// window).
pub open spec fn spec_is_write_only(addr: u16) -> bool {
    ||| addr == 0x4014
    ||| (0x2000 <= addr < 0x4000 && {
        let reg = addr % 8;
        reg == 0 || reg == 1 || reg == 3 || reg == 5 || reg == 6
    })
}

/// What the PRG ROM window yields: the ROM byte at `(addr - 0x8000)` modulo
/// the ROM length, so a 16 KiB image repeats across the 32 KiB window; an
/// absent image reads as 0.
pub open spec fn spec_prg_byte(cartridge: CartView, addr: u16) -> u8 {
    if cartridge.prg_rom.len() == 0 {
        0
    } else {
        cartridge.prg_rom[((addr - 0x8000) as int) % (cartridge.prg_rom.len() as int)]
    }
}

/// One CPU read through the bus. RAM and ROM reads leave the bus unchanged;
/// reads of the readable PPU registers may advance the PPU surface; reads of
/// write-only addresses fail with `ReadWriteOnly`; unmapped addresses read
/// as 0.
#[verifier::opaque]
pub open spec fn spec_bus_read(b: BusView, addr: u16) -> (BusView, Result<u8, EmuError>) {
    if addr < 0x2000 {
        (b, Ok(b.ram[(addr % 0x800) as int]))
    } else if addr < 0x4000 {
        let reg = (addr % 8) as u8;
        if spec_is_write_only(addr) {
            (b, Err(EmuError::ReadWriteOnly(addr)))
        } else {
            let (p, r) = spec_ppu_read(b.ppu, reg);
            (BusView { ppu: p, ..b }, r)
        }
    } else if addr == 0x4014 {
        (b, Err(EmuError::ReadWriteOnly(addr)))
    } else if addr >= 0x8000 {
        (b, Ok(spec_prg_byte(b.cartridge, addr)))
    } else {
        (b, Ok(0))
    }
}

/// One CPU write through the bus. RAM writes update the mirrored RAM cell;
/// writes in the PPU window delegate to the register surface; the OAM DMA
/// port stores its page byte; writes into the PRG ROM window fail with
/// `WriteToRom`; unmapped addresses drop the write.
#[verifier::opaque]
pub open spec fn spec_bus_write(b: BusView, addr: u16, value: u8) -> (BusView, Result<
    (),
    EmuError,
>) {
    if addr < 0x2000 {
        (BusView { ram: b.ram.update((addr % 0x800) as int, value), ..b }, Ok(()))
    } else if addr < 0x4000 {
        let (p, r) = spec_ppu_write(b.ppu, (addr % 8) as u8, value);
        (BusView { ppu: p, ..b }, r)
    } else if addr == 0x4014 {
        (BusView { ppu: PpuView { oam_dma_page: value, ..b.ppu }, ..b }, Ok(()))
    } else if addr >= 0x8000 {
        (b, Err(EmuError::WriteToRom(addr)))
    } else {
        (b, Ok(()))
    }
}

/// Copies a byte vector.
fn copy_bytes(data: &Vec<u8>) -> (r: Vec<u8>)
    ensures
        r@ == data@,
{
    let mut out: Vec<u8> = Vec::new();
    let mut i: usize = 0;
    while i < data.len()
        invariant
            i <= data@.len(),
            out@ == data@.subrange(0, i as int),
        decreases data@.len() - i,
    {
        out.push(data[i]);
        proof {
            assert(data@.subrange(0, i + 1 as int) =~= data@.subrange(0, i as int).push(
                data@[i as int],
            ));
        }
        i = i + 1;
    }
    proof {
        assert(data@.subrange(0, data@.len() as int) =~= data@);
    }
    out
}

impl Bus {
    /// Builds a bus over the given cartridge, with zeroed RAM and a fresh
    /// PPU surface seeded with the cartridge's CHR ROM and mirroring.
    pub fn new(cartridge: Cartridge) -> (r: Bus)
        ensures
            r@ == spec_bus_new(cartridge@),
            r@.wf(),
    {
        let chr_copy: Vec<u8> = copy_bytes(&cartridge.chr_rom);
        let ppu: PPU = PPU::new(chr_copy, cartridge.mirroring);
        let mut ram: Vec<u8> = Vec::new();
        let mut i: usize = 0;
        while i < 2048
            invariant
                i <= 2048,
                ram@ == Seq::new(i as nat, |j: int| 0u8),
            decreases 2048 - i,
        {
            ram.push(0);
            proof {
                assert(Seq::new((i + 1) as nat, |j: int| 0u8) =~= Seq::new(
                    i as nat,
                    |j: int| 0u8,
                ).push(0u8));
            }
            i = i + 1;
        }
        Bus { ram, ppu, cartridge }
    }

    /// One CPU read through the address decoder.
    pub fn read(&mut self, addr: u16) -> (r: Result<u8, EmuError>)
        requires
            old(self)@.wf(),
        ensures
            ({
                let (b, v) = spec_bus_read(old(self)@, addr);
                final(self)@ == b && r == v
            }),
            final(self)@.wf(),
    {
        proof {
            reveal(spec_bus_read);
        }
        if addr < 0x2000 {
            Ok(self.ram[(addr % 0x800) as usize])
        } else if addr < 0x4000 {
            let reg: u8 = (addr % 8) as u8;
            if reg == 0 || reg == 1 || reg == 3 || reg == 5 || reg == 6 {
                Err(EmuError::ReadWriteOnly(addr))
            } else {
                self.ppu.read(reg)
            }
        } else if addr == 0x4014 {
            Err(EmuError::ReadWriteOnly(addr))
        } else if addr >= 0x8000 {
            let len: usize = self.cartridge.prg_rom.len();
            if len == 0 {
                Ok(0)
            } else {
                Ok(self.cartridge.prg_rom[((addr - 0x8000) as usize) % len])
            }
        } else {
            Ok(0)
        }
    }

    /// One CPU write through the address decoder.
    pub fn write(&mut self, addr: u16, value: u8) -> (r: Result<(), EmuError>)
        requires
            old(self)@.wf(),
        ensures
            ({
                let (b, v) = spec_bus_write(old(self)@, addr, value);
                final(self)@ == b && r == v
            }),
            final(self)@.wf(),
    {
        proof {
            reveal(spec_bus_write);
        }
        if addr < 0x2000 {
            self.ram.set((addr % 0x800) as usize, value);
            Ok(())
        } else if addr < 0x4000 {
            let reg: u8 = (addr % 8) as u8;
            self.ppu.write(reg, value)
        } else if addr == 0x4014 {
            self.ppu.oam_dma_start(value);
            Ok(())
        } else if addr >= 0x8000 {
            Err(EmuError::WriteToRom(addr))
        } else {
            Ok(())
        }
    }
}

} // verus!
