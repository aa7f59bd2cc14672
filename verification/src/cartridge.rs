//! iNES cartridge images.
//!
//! A cartridge is immutable after load: a PRG ROM slice, a CHR ROM slice, a
//! nametable mirroring mode and a mapper id. Only mapper 0 (NROM) is
//! supported. [`spec_load`] is the mathematical description of the parse;
//! [`Cartridge::load`] is its executable form, fed by whoever read the image
//! bytes from disk.

use vstd::prelude::*;

use crate::errors::CartridgeError;

verus! {

/// Nametable mirroring arrangement declared by the cartridge.
#[derive(Clone, Copy, Debug, PartialEq, Eq, Structural)]
pub enum Mirroring {
    Horizontal,
    Vertical,
    FourScreen,
}

/// A loaded cartridge: PRG ROM, CHR ROM, mirroring mode and mapper id.
pub struct Cartridge {
    pub prg_rom: Vec<u8>,
    pub chr_rom: Vec<u8>,
    pub mirroring: Mirroring,
    pub mapper: u8,
}

/// Mathematical view of a cartridge.
#[verifier::ext_equal]
pub struct CartView {
    pub prg_rom: Seq<u8>,
    pub chr_rom: Seq<u8>,
    pub mirroring: Mirroring,
    pub mapper: u8,
}

impl View for Cartridge {
    type V = CartView;

    open spec fn view(&self) -> CartView {
        CartView {
            prg_rom: self.prg_rom@,
            chr_rom: self.chr_rom@,
            mirroring: self.mirroring,
            mapper: self.mapper,
        }
    }
}

/// Length of the iNES header.
pub const INES_HEADER_LEN: usize = 16;

/// Length of the optional trainer block between header and PRG ROM.
pub const TRAINER_LEN: usize = 512;

/// Size of one PRG ROM bank (16 KiB); header byte 4 counts these.
pub const PRG_BANK_LEN: usize = 16384;

/// Size of one CHR ROM bank (8 KiB); header byte 5 counts these.
pub const CHR_BANK_LEN: usize = 8192;

/// The image starts with the magic bytes `NES\x1A` and is long enough to
/// hold the 16-byte header.
pub open spec fn spec_magic_ok(data: Seq<u8>) -> bool {
    &&& data.len() >= INES_HEADER_LEN
    &&& data[0] == 0x4E
    &&& data[1] == 0x45
    &&& data[2] == 0x53
    &&& data[3] == 0x1A
}

/// Mapper id: high nibble of header byte 7 over the high nibble of byte 6.
pub open spec fn spec_mapper_id(data: Seq<u8>) -> u8 {
    (data[6] / 16 + (data[7] / 16) * 16) as u8
}

/// Mirroring from header byte 6: bit 3 selects four-screen; otherwise bit 0
/// selects vertical over horizontal.
pub open spec fn spec_mirroring_of(flags6: u8) -> Mirroring {
    if flags6 & 0x08 != 0 {
        Mirroring::FourScreen
    } else if flags6 & 0x01 != 0 {
        Mirroring::Vertical
    } else {
        Mirroring::Horizontal
    }
}

/// Header byte 6 bit 2 marks a 512-byte trainer before PRG ROM.
pub open spec fn spec_trainer_present(flags6: u8) -> bool {
    flags6 & 0x04 != 0
}

/// Offset of the PRG ROM slice within the image.
pub open spec fn spec_prg_start(data: Seq<u8>) -> int {
    INES_HEADER_LEN + if spec_trainer_present(data[6]) {
        TRAINER_LEN as int
    } else {
        0
    }
}

/// Declared PRG ROM length: header byte 4 times 16 KiB.
pub open spec fn spec_prg_len(data: Seq<u8>) -> int {
    data[4] * PRG_BANK_LEN
}

/// Declared CHR ROM length: header byte 5 times 8 KiB.
pub open spec fn spec_chr_len(data: Seq<u8>) -> int {
    data[5] * CHR_BANK_LEN
}

/// What loading an iNES image yields: the PRG then CHR slices with the
/// declared mirroring, or the first applicable error. A wrong magic is
/// `BadHeader`; a non-zero mapper id is `UnsupportedMapper`; a payload
/// shorter than the declared slices is `Truncated`.
pub open spec fn spec_load(data: Seq<u8>) -> Result<CartView, CartridgeError> {
    if !spec_magic_ok(data) {
        Err(CartridgeError::BadHeader)
    } else if spec_mapper_id(data) != 0 {
        Err(CartridgeError::UnsupportedMapper)
    } else {
        let prg_start = spec_prg_start(data);
        let chr_start = prg_start + spec_prg_len(data);
        let end = chr_start + spec_chr_len(data);
        if data.len() < end {
            Err(CartridgeError::Truncated)
        } else {
            Ok(
                CartView {
                    prg_rom: data.subrange(prg_start, chr_start),
                    chr_rom: data.subrange(chr_start, end),
                    mirroring: spec_mirroring_of(data[6]),
                    mapper: 0,
                },
            )
        }
    }
}

/// Copies `data[start..end]` into a fresh vector.
fn copy_range(data: &Vec<u8>, start: usize, end: usize) -> (r: Vec<u8>)
    requires
        start <= end <= data@.len(),
    ensures
        r@ == data@.subrange(start as int, end as int),
{
    let mut out: Vec<u8> = Vec::new();
    let mut i: usize = start;
    while i < end
        invariant
            start <= i <= end <= data@.len(),
            out@ == data@.subrange(start as int, i as int),
        decreases end - i,
    {
        out.push(data[i]);
        proof {
            assert(data@.subrange(start as int, i + 1 as int) =~= data@.subrange(
                start as int,
                i as int,
            ).push(data@[i as int]));
        }
        i = i + 1;
    }
    out
}

impl Cartridge {
    /// Parses an iNES image already read into memory. Validates the header
    /// magic, rejects non-zero mappers, skips the trainer when present, and
    /// slices PRG ROM then CHR ROM from the payload in that order.
    pub fn load(data: &Vec<u8>) -> (r: Result<Cartridge, CartridgeError>)
        ensures
            match r {
                Ok(c) => spec_load(data@) == Ok::<CartView, CartridgeError>(c@),
                Err(e) => spec_load(data@) == Err::<CartView, CartridgeError>(e),
            },
    {
        if data.len() < INES_HEADER_LEN {
            return Err(CartridgeError::BadHeader);
        }
        if !(data[0] == 0x4E && data[1] == 0x45 && data[2] == 0x53 && data[3] == 0x1A) {
            return Err(CartridgeError::BadHeader);
        }
        let mapper: u8 = data[6] / 16 + (data[7] / 16) * 16;
        if mapper != 0 {
            return Err(CartridgeError::UnsupportedMapper);
        }
        let flags6: u8 = data[6];
        let prg_start: usize = if flags6 & 0x04 != 0 {
            INES_HEADER_LEN + TRAINER_LEN
        } else {
            INES_HEADER_LEN
        };
        let prg_len: usize = (data[4] as usize) * PRG_BANK_LEN;
        let chr_len: usize = (data[5] as usize) * CHR_BANK_LEN;
        let chr_start: usize = prg_start + prg_len;
        let end: usize = chr_start + chr_len;
        if data.len() < end {
            return Err(CartridgeError::Truncated);
        }
        let prg_rom: Vec<u8> = copy_range(data, prg_start, chr_start);
        let chr_rom: Vec<u8> = copy_range(data, chr_start, end);
        let mirroring: Mirroring = if flags6 & 0x08 != 0 {
            Mirroring::FourScreen
        } else if flags6 & 0x01 != 0 {
            Mirroring::Vertical
        } else {
            Mirroring::Horizontal
        };
        Ok(Cartridge { prg_rom, chr_rom, mirroring, mapper: 0 })
    }
}

} // verus!
