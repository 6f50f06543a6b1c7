use nesemu::cpu::{NesCpu, Processor};
use nesemu::instructions::{AddressingMode, Instructions};
use nesemu::memory::Bus;

#[test]
fn inc_zero_page() {
    let mut cpu = NesCpu::new_from_bytes(&[
        NesCpu::encode_instructions(
            Instructions::IncrementMem,
            AddressingMode::ZeroPage,
        ),
        0x0,
    ]);
    assert_eq!(cpu.memory.read_byte(0x0), 0);
    cpu.fetch_decode_next();
    assert_eq!(cpu.memory.read_byte(0x0), 1);
}

#[test]
fn inc_zero_page_x() {
    let mut cpu = NesCpu::new_from_bytes(&[
        NesCpu::encode_instructions(
            Instructions::IncrementMem,
            AddressingMode::ZeroPageX,
        ),
        0x0,
    ]);
    cpu.reg.idx = 5;
    assert_eq!(cpu.memory.read_byte(0x5), 0);
    cpu.fetch_decode_next();
    assert_eq!(cpu.memory.read_byte(0x5), 1);
}

#[test]
fn inc_absolute() {
    let mut cpu = NesCpu::new_from_bytes(&[
        NesCpu::encode_instructions(
            Instructions::IncrementMem,
            AddressingMode::Absolute,
        ),
        0x00,
        0x10,
    ]);
    assert_eq!(cpu.memory.read_byte(0x1000), 0);
    cpu.fetch_decode_next();
    assert_eq!(cpu.memory.read_byte(0x1000), 1);
}

#[test]
fn inc_absolute_x() {
    let mut cpu = NesCpu::new_from_bytes(&[
        NesCpu::encode_instructions(
            Instructions::IncrementMem,
            AddressingMode::AbsoluteX,
        ),
        0x00,
        0x10,
    ]);
    cpu.reg.idx = 10;
    assert_eq!(cpu.memory.read_byte(0x100A), 0);
    cpu.fetch_decode_next();
    assert_eq!(cpu.memory.read_byte(0x100A), 1);
}

#[test]
fn inx_implied() {
    let mut cpu = NesCpu::new_from_bytes(&[NesCpu::encode_instructions(
        Instructions::IncrementX,
        AddressingMode::Implied,
    )]);
    assert_eq!(cpu.reg.idx, 0);
    cpu.fetch_decode_next();
    assert_eq!(cpu.reg.idx, 1);
}

#[test]
fn inx_implied_overflow() {
    let mut cpu = NesCpu::new_from_bytes(&[NesCpu::encode_instructions(
        Instructions::IncrementX,
        AddressingMode::Implied,
    )]);
    assert_eq!(cpu.reg.idx, 0);
    cpu.reg.idx = 0xFF;
    cpu.fetch_decode_next();
    assert_eq!(cpu.reg.idx, 0);
}

#[test]
fn iny_implied() {
    let mut cpu = NesCpu::new_from_bytes(&[NesCpu::encode_instructions(
        Instructions::IncrementY,
        AddressingMode::Implied,
    )]);
    assert_eq!(cpu.reg.idy, 0);
    cpu.fetch_decode_next();
    assert_eq!(cpu.reg.idy, 1);
}

#[test]
fn iny_implied_overflow() {
    let mut cpu = NesCpu::new_from_bytes(&[NesCpu::encode_instructions(
        Instructions::IncrementY,
        AddressingMode::Implied,
    )]);
    assert_eq!(cpu.reg.idy, 0);
    cpu.reg.idy = 0xFF;
    cpu.fetch_decode_next();
    assert_eq!(cpu.reg.idy, 0);
}

#[test]
fn dec_zero_page() {
    let mut cpu = NesCpu::new_from_bytes(&[
        NesCpu::encode_instructions(
            Instructions::DecrementMem,
            AddressingMode::ZeroPage,
        ),
        0x0,
    ]);
    assert_eq!(cpu.memory.read_byte(0x0), 0);
    cpu.fetch_decode_next();
    assert_eq!(cpu.memory.read_byte(0x0), 0xFF);
}

#[test]
fn dec_zero_page_x() {
    let mut cpu = NesCpu::new_from_bytes(&[
        NesCpu::encode_instructions(
            Instructions::DecrementMem,
            AddressingMode::ZeroPageX,
        ),
        0x0,
    ]);
    cpu.reg.idx = 5;
    assert_eq!(cpu.memory.read_byte(0x5), 0);
    cpu.fetch_decode_next();
    assert_eq!(cpu.memory.read_byte(0x5), 0xFF);
}

#[test]
fn dec_absolute() {
    let mut cpu = NesCpu::new_from_bytes(&[
        NesCpu::encode_instructions(
            Instructions::DecrementMem,
            AddressingMode::Absolute,
        ),
        0x00,
        0x10,
    ]);
    assert_eq!(cpu.memory.read_byte(0x1000), 0);
    cpu.fetch_decode_next();
    assert_eq!(cpu.memory.read_byte(0x1000), 0xFF);
}

#[test]
fn dec_absolute_x() {
    let mut cpu = NesCpu::new_from_bytes(&[
        NesCpu::encode_instructions(
            Instructions::DecrementMem,
            AddressingMode::AbsoluteX,
        ),
        0x00,
        0x10,
    ]);
    cpu.reg.idx = 10;
    assert_eq!(cpu.memory.read_byte(0x100A), 0);
    cpu.fetch_decode_next();
    assert_eq!(cpu.memory.read_byte(0x100A), 0xFF);
}

#[test]
fn dex_implied() {
    let mut cpu = NesCpu::new_from_bytes(&[NesCpu::encode_instructions(
        Instructions::DecrementX,
        AddressingMode::Implied,
    )]);
    assert_eq!(cpu.reg.idx, 0);
    cpu.fetch_decode_next();
    assert_eq!(cpu.reg.idx, 0xFF);
}

#[test]
fn dex_implied_overflow() {
    let mut cpu = NesCpu::new_from_bytes(&[NesCpu::encode_instructions(
        Instructions::DecrementX,
        AddressingMode::Implied,
    )]);
    assert_eq!(cpu.reg.idx, 0);
    cpu.reg.idx = 0xFF;
    cpu.fetch_decode_next();
    assert_eq!(cpu.reg.idx, 0xFE);
}

#[test]
fn cpu_inx_implied() {
    let mut cpu = NesCpu::new_from_bytes(&[NesCpu::encode_instructions(
        Instructions::DecrementY,
        AddressingMode::Implied,
    )]);
    assert_eq!(cpu.reg.idy, 0);
    cpu.fetch_decode_next();
    assert_eq!(cpu.reg.idy, 0xFF);
}

#[test]
fn cpu_inx_implied_overflow() {
    let mut cpu = NesCpu::new_from_bytes(&[NesCpu::encode_instructions(
        Instructions::DecrementY,
        AddressingMode::Implied,
    )]);
    assert_eq!(cpu.reg.idy, 0);
    cpu.reg.idy = 0xFF;
    cpu.fetch_decode_next();
    assert_eq!(cpu.reg.idy, 0xFE);
}
