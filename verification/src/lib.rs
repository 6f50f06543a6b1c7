//! An emulator of the 6502 processor of the Nintendo Entertainment System:
//! the opcode table, the meaning of every instruction, and the step that
//! fetches, decodes and executes one.
//!
//! The module `machine` says what the processor does, as functions on a
//! mathematical value that holds registers and memory. The module `cpu`
//! holds the processor that runs, every function of it verified against
//! `machine`. The module `laws` proves what holds of every step.

use vstd::prelude::*;

pub mod alu;
pub mod cpu;
pub mod instructions;
pub mod laws;
pub mod machine;
pub mod memory;
pub mod timing;

verus! {

/// Length of the header of a cartridge image.
pub const HEADER_SIZE: usize = 16;

/// Length of a trainer, where an image holds one.
pub const TRAINER_SIZE: usize = 512;

/// Length of a bank of program memory.
pub const PRG_BANK_SIZE: usize = 16384;

/// Length of a bank of character memory.
pub const CHR_BANK_SIZE: usize = 8192;

/// A cartridge image taken apart.
#[derive(Debug)]
pub struct NesRom {
    pub header: [u8; 16],
    pub trainer: Option<[u8; 512]>,
    pub prg_rom: Vec<[u8; 16384]>,
    pub chr_rom: Vec<[u8; 8192]>,
    pub flags6: u8,
    pub flags7: u8,
    pub flags8: u8,
    pub flags9: u8,
    pub flags10: u8,
}

/// Why a sequence of bytes is no cartridge image.
#[derive(Debug, Clone, Copy, PartialEq, Eq, Structural)]
pub enum RomError {
    /// The bytes do not begin with `N`, `E`, `S` and `0x1A`.
    BadMagic,
    /// The bytes end before the header, the trainer or a bank is complete.
    Truncated,
}

/// The 16-bit word with `high` as its upper and `low` as its lower byte.
pub open spec fn word_of(high: u8, low: u8) -> u16 {
    (high as int * 256 + low as int) as u16
}

pub fn combine_bytes_to_u16(high: u8, low: u8) -> (word: u16)
    ensures
        word == word_of(high, low),
{
    assert(((high as u16) << 8) | (low as u16) == (high as u16) * 256 + (low as u16))
        by (bit_vector);
    ((high as u16) << 8) | (low as u16)
}

/// Whether `image` begins with the four bytes that mark a cartridge image.
pub open spec fn has_magic(image: Seq<u8>) -> bool {
    image.len() >= 4 && image[0] == 0x4E && image[1] == 0x45 && image[2] == 0x53 && image[3]
        == 0x1A
}

/// Whether the header of `image` announces a trainer: bit 2 of byte 6.
pub open spec fn has_trainer(image: Seq<u8>) -> bool {
    (image[6] / 4) % 2 == 1
}

/// Where the program banks begin in `image`: after the header and the
/// trainer, if there is one.
pub open spec fn prg_start(image: Seq<u8>) -> int {
    if has_trainer(image) {
        HEADER_SIZE + TRAINER_SIZE
    } else {
        HEADER_SIZE as int
    }
}

/// Where the character banks begin in `image`: after the program banks,
/// whose number is byte 4 of the header.
pub open spec fn chr_start(image: Seq<u8>) -> int {
    prg_start(image) + image[4] * PRG_BANK_SIZE
}

/// Where the banks that the header of `image` announces end: byte 5 of the
/// header is the number of character banks.
pub open spec fn banks_end(image: Seq<u8>) -> int {
    chr_start(image) + image[5] * CHR_BANK_SIZE
}

/// What is wrong with `image`, if anything.
pub open spec fn image_error(image: Seq<u8>) -> Option<RomError> {
    if !has_magic(image) {
        Some(RomError::BadMagic)
    } else if image.len() < HEADER_SIZE || image.len() < banks_end(image) {
        Some(RomError::Truncated)
    } else {
        None
    }
}

impl NesRom {
    /// Whether this is `image` taken apart: header, flags, trainer and
    /// banks each hold their part of it.
    pub open spec fn is_parse_of(self, image: Seq<u8>) -> bool {
        &&& self.header@ == image.subrange(0, HEADER_SIZE as int)
        &&& self.flags6 == image[6]
        &&& self.flags7 == image[7]
        &&& self.flags8 == image[8]
        &&& self.flags9 == image[9]
        &&& self.flags10 == image[10]
        &&& match self.trainer {
            Some(trainer) => has_trainer(image) && trainer@ == image.subrange(
                HEADER_SIZE as int,
                HEADER_SIZE + TRAINER_SIZE,
            ),
            None => !has_trainer(image),
        }
        &&& self.prg_rom@.len() == image[4]
        &&& forall|bank: int|
            0 <= bank < self.prg_rom@.len() ==> (#[trigger] self.prg_rom@[bank])@
                == image.subrange(
                prg_start(image) + bank * PRG_BANK_SIZE,
                prg_start(image) + (bank + 1) * PRG_BANK_SIZE,
            )
        &&& self.chr_rom@.len() == image[5]
        &&& forall|bank: int|
            0 <= bank < self.chr_rom@.len() ==> (#[trigger] self.chr_rom@[bank])@
                == image.subrange(
                chr_start(image) + bank * CHR_BANK_SIZE,
                chr_start(image) + (bank + 1) * CHR_BANK_SIZE,
            )
    }
}

/// Copies the bytes of `image` from `start` on over all of `block`.
fn fill_from(block: &mut [u8], image: &[u8], start: usize)
    requires
        start + old(block)@.len() <= image@.len(),
    ensures
        final(block)@ == image@.subrange(start as int, start + old(block)@.len()),
{
    let length: usize = block.len();
    let mut at: usize = 0;
    while at < length
        invariant
            at <= length,
            length == block@.len(),
            block@.len() == old(block)@.len(),
            start + length <= image.len(),
            forall|before: int| 0 <= before < at ==> block@[before] == image@[start + before],
        decreases length - at,
    {
        block[at] = image[start + at];
        at = at + 1;
    }
}

/// Takes a cartridge image apart. Bytes after the last bank are ignored.
pub fn parse_rom(image: &[u8]) -> (result: Result<NesRom, RomError>)
    ensures
        match result {
            Ok(rom) => image_error(image@) is None && rom.is_parse_of(image@),
            Err(error) => image_error(image@) == Some(error),
        },
{
    if image.len() < 4 || image[0] != 0x4E || image[1] != 0x45 || image[2] != 0x53 || image[3]
        != 0x1A {
        return Err(RomError::BadMagic);
    }
    if image.len() < HEADER_SIZE {
        return Err(RomError::Truncated);
    }
    let flags6: u8 = image[6];
    assert((flags6 & 0b0000_0100 != 0) == ((flags6 / 4) % 2 == 1)) by (bit_vector);
    let with_trainer = flags6 & 0b0000_0100 != 0;
    let prg_banks: usize = image[4] as usize;
    let chr_banks: usize = image[5] as usize;
    let prg_at: usize = if with_trainer {
        HEADER_SIZE + TRAINER_SIZE
    } else {
        HEADER_SIZE
    };
    let chr_at: usize = prg_at + prg_banks * PRG_BANK_SIZE;
    let end: usize = chr_at + chr_banks * CHR_BANK_SIZE;
    if image.len() < end {
        return Err(RomError::Truncated);
    }
    let mut header = [0u8; 16];
    fill_from(&mut header, image, 0);
    let trainer = if with_trainer {
        let mut block = [0u8; 512];
        fill_from(&mut block, image, HEADER_SIZE);
        Some(block)
    } else {
        None
    };
    let mut prg_rom: Vec<[u8; 16384]> = Vec::new();
    let mut bank: usize = 0;
    while bank < prg_banks
        invariant
            bank <= prg_banks,
            prg_banks == image@[4],
            prg_at == prg_start(image@),
            prg_at + prg_banks * PRG_BANK_SIZE <= image@.len(),
            prg_rom@.len() == bank,
            forall|done: int|
                0 <= done < bank ==> (#[trigger] prg_rom@[done])@ == image@.subrange(
                    prg_at + done * PRG_BANK_SIZE,
                    prg_at + (done + 1) * PRG_BANK_SIZE,
                ),
        decreases prg_banks - bank,
    {
        let mut block = [0u8; 16384];
        fill_from(&mut block, image, prg_at + bank * PRG_BANK_SIZE);
        prg_rom.push(block);
        bank = bank + 1;
    }
    let mut chr_rom: Vec<[u8; 8192]> = Vec::new();
    let mut bank: usize = 0;
    while bank < chr_banks
        invariant
            bank <= chr_banks,
            chr_banks == image@[5],
            chr_at == chr_start(image@),
            chr_at + chr_banks * CHR_BANK_SIZE <= image@.len(),
            chr_rom@.len() == bank,
            forall|done: int|
                0 <= done < bank ==> (#[trigger] chr_rom@[done])@ == image@.subrange(
                    chr_at + done * CHR_BANK_SIZE,
                    chr_at + (done + 1) * CHR_BANK_SIZE,
                ),
        decreases chr_banks - bank,
    {
        let mut block = [0u8; 8192];
        fill_from(&mut block, image, chr_at + bank * CHR_BANK_SIZE);
        chr_rom.push(block);
        bank = bank + 1;
    }
    Ok(
        NesRom {
            header,
            trainer,
            prg_rom,
            chr_rom,
            flags6,
            flags7: image[7],
            flags8: image[8],
            flags9: image[9],
            flags10: image[10],
        },
    )
}

} // verus!
