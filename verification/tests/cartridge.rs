use nesemu::cpu::NesCpu;
use nesemu::memory::Bus;
use nesemu::{parse_rom, NesRom, RomError, CHR_BANK_SIZE, HEADER_SIZE, PRG_BANK_SIZE, TRAINER_SIZE};

fn image(prg_banks: u8, chr_banks: u8, flags6: u8) -> Vec<u8> {
    let mut bytes = vec![0x4E, 0x45, 0x53, 0x1A, prg_banks, chr_banks, flags6, 7, 8, 9, 10];
    bytes.resize(HEADER_SIZE, 0);
    if flags6 & 0x04 != 0 {
        for at in 0..TRAINER_SIZE {
            bytes.push(0xE0 ^ (at as u8));
        }
    }
    for bank in 0..prg_banks {
        for at in 0..PRG_BANK_SIZE {
            bytes.push((bank + 1).wrapping_mul(16).wrapping_add(at as u8));
        }
    }
    for bank in 0..chr_banks {
        for at in 0..CHR_BANK_SIZE {
            bytes.push((bank + 1).wrapping_mul(64).wrapping_add(at as u8));
        }
    }
    bytes
}

#[test]
fn sizes_of_the_parts_of_an_image() {
    assert_eq!(HEADER_SIZE, 16);
    assert_eq!(TRAINER_SIZE, 512);
    assert_eq!(PRG_BANK_SIZE, 16384);
    assert_eq!(CHR_BANK_SIZE, 8192);
}

#[test]
fn an_image_without_the_magic_bytes_is_refused() {
    assert_eq!(parse_rom(&[]).unwrap_err(), RomError::BadMagic);
    assert_eq!(parse_rom(&[0x4E, 0x45, 0x53]).unwrap_err(), RomError::BadMagic);
    let mut bytes = image(1, 1, 0);
    bytes[3] = 0x1B;
    assert_eq!(parse_rom(&bytes).unwrap_err(), RomError::BadMagic);
    let mut bytes = image(1, 1, 0);
    bytes[0] = 0x4F;
    assert_eq!(parse_rom(&bytes).unwrap_err(), RomError::BadMagic);
}

#[test]
fn a_short_header_is_truncated() {
    assert_eq!(
        parse_rom(&[0x4E, 0x45, 0x53, 0x1A]).unwrap_err(),
        RomError::Truncated
    );
    let bytes = image(0, 0, 0);
    assert_eq!(parse_rom(&bytes[..15]).unwrap_err(), RomError::Truncated);
}

#[test]
fn missing_bank_bytes_are_truncated() {
    let bytes = image(2, 1, 0);
    assert_eq!(
        parse_rom(&bytes[..bytes.len() - 1]).unwrap_err(),
        RomError::Truncated
    );
    assert_eq!(
        parse_rom(&bytes[..HEADER_SIZE + PRG_BANK_SIZE]).unwrap_err(),
        RomError::Truncated
    );
    let bytes = image(1, 0, 0x04);
    assert_eq!(
        parse_rom(&bytes[..bytes.len() - 1]).unwrap_err(),
        RomError::Truncated
    );
}

#[test]
fn a_header_alone_is_an_image_without_banks() {
    let rom = parse_rom(&image(0, 0, 0)).unwrap();
    assert!(rom.prg_rom.is_empty());
    assert!(rom.chr_rom.is_empty());
    assert!(rom.trainer.is_none());
}

#[test]
fn an_image_is_taken_apart() {
    let bytes = image(2, 1, 0x01);
    let rom: NesRom = parse_rom(&bytes).unwrap();
    assert_eq!(&rom.header[..], &bytes[..16]);
    assert_eq!(rom.flags6, 0x01);
    assert_eq!(rom.flags7, 7);
    assert_eq!(rom.flags8, 8);
    assert_eq!(rom.flags9, 9);
    assert_eq!(rom.flags10, 10);
    assert!(rom.trainer.is_none());
    assert_eq!(rom.prg_rom.len(), 2);
    assert_eq!(rom.chr_rom.len(), 1);
    assert_eq!(&rom.prg_rom[0][..], &bytes[16..16 + 16384]);
    assert_eq!(&rom.prg_rom[1][..], &bytes[16 + 16384..16 + 2 * 16384]);
    assert_eq!(&rom.chr_rom[0][..], &bytes[16 + 2 * 16384..]);
    assert_eq!(rom.prg_rom[0][0], 16);
    assert_eq!(rom.prg_rom[1][1], 33);
    assert_eq!(rom.chr_rom[0][2], 66);
}

#[test]
fn a_trainer_comes_before_the_banks() {
    let bytes = image(1, 1, 0x04);
    let rom = parse_rom(&bytes).unwrap();
    let trainer = rom.trainer.unwrap();
    assert_eq!(&trainer[..], &bytes[16..16 + 512]);
    assert_eq!(trainer[1], 0xE1);
    assert_eq!(&rom.prg_rom[0][..], &bytes[528..528 + 16384]);
    assert_eq!(&rom.chr_rom[0][..], &bytes[528 + 16384..]);
}

#[test]
fn bytes_after_the_last_bank_are_ignored() {
    let mut bytes = image(1, 0, 0);
    bytes.extend_from_slice(&[1, 2, 3]);
    let rom = parse_rom(&bytes).unwrap();
    assert_eq!(rom.prg_rom.len(), 1);
    assert_eq!(rom.prg_rom[0][16383], bytes[16 + 16383]);
}

#[test]
fn a_single_bank_is_mirrored() {
    let rom = parse_rom(&image(1, 0, 0)).unwrap();
    let mut cpu = NesCpu::new();
    cpu.load_rom(&rom);
    assert_eq!(cpu.reg.pc, 0xC000);
    assert_eq!(cpu.memory.read_byte(0x8000), rom.prg_rom[0][0]);
    assert_eq!(cpu.memory.read_byte(0x8005), rom.prg_rom[0][5]);
    assert_eq!(cpu.memory.read_byte(0xBFFF), rom.prg_rom[0][0x3FFF]);
    assert_eq!(cpu.memory.read_byte(0xC000), rom.prg_rom[0][0]);
    assert_eq!(cpu.memory.read_byte(0xC005), rom.prg_rom[0][5]);
    assert_eq!(cpu.memory.read_byte(0xFFFF), rom.prg_rom[0][0x3FFF]);
    assert_eq!(cpu.memory.read_byte(0x7FFF), 0);
}

#[test]
fn a_second_bank_is_mapped_at_c000() {
    let rom = parse_rom(&image(2, 0, 0)).unwrap();
    let mut cpu = NesCpu::new();
    cpu.load_rom(&rom);
    assert_eq!(cpu.reg.pc, 0xC000);
    assert_eq!(cpu.memory.read_byte(0x8000), 16);
    assert_eq!(cpu.memory.read_byte(0xBFFF), rom.prg_rom[0][0x3FFF]);
    assert_eq!(cpu.memory.read_byte(0xC000), 32);
    assert_eq!(cpu.memory.read_byte(0xC001), rom.prg_rom[1][1]);
    assert_eq!(cpu.memory.read_byte(0xFFFF), rom.prg_rom[1][0x3FFF]);
}

#[test]
fn a_loaded_cartridge_runs() {
    let mut bytes = image(1, 0, 0);
    // LDA #$50 at the start of the bank
    bytes[16] = 0xA9;
    bytes[17] = 0x50;
    let rom = parse_rom(&bytes).unwrap();
    let mut cpu = NesCpu::new();
    cpu.load_rom(&rom);
    cpu.fetch_decode_next();
    assert_eq!(cpu.reg.accumulator, 0x50);
    assert_eq!(cpu.reg.pc, 0xC002);
}
