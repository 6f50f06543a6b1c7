use nesemu::cpu::{NesCpu, Processor};
use nesemu::instructions::{AddressingMode, Instructions};
use nesemu::memory::Bus;

#[test]
fn lda_immediate() {
    let mut cpu = NesCpu::new_from_bytes(&[
        NesCpu::encode_instructions(
            Instructions::LoadAccumulator,
            AddressingMode::Immediate,
        ),
        0x50,
        NesCpu::encode_instructions(
            Instructions::LoadAccumulator,
            AddressingMode::Immediate,
        ),
        0x0,
        NesCpu::encode_instructions(
            Instructions::LoadAccumulator,
            AddressingMode::Immediate,
        ),
        0x85,
    ]);
    cpu.fetch_decode_next();
    assert_eq!(cpu.reg.accumulator, 0x50);
    assert!(!cpu.reg.flags.negative);
    assert!(!cpu.reg.flags.zero);

    cpu.fetch_decode_next();
    assert_eq!(cpu.reg.accumulator, 0x0);
    assert!(!cpu.reg.flags.negative);
    assert!(cpu.reg.flags.zero);

    cpu.fetch_decode_next();
    assert_eq!(cpu.reg.accumulator, 0x85);
    assert!(cpu.reg.flags.negative);
    assert!(!cpu.reg.flags.zero);
}

#[test]
fn lda_zero_page() {
    let mut cpu = NesCpu::new_from_bytes(&[
        NesCpu::encode_instructions(
            Instructions::LoadAccumulator,
            AddressingMode::ZeroPage,
        ),
        0x10,
    ]);
    cpu.memory.write_byte(0x10, 0x50);
    cpu.fetch_decode_next();
    assert_eq!(cpu.reg.accumulator, 0x50);
}

#[test]
fn lda_zero_page_x() {
    let mut cpu = NesCpu::new_from_bytes(&[
        NesCpu::encode_instructions(
            Instructions::LoadAccumulator,
            AddressingMode::ZeroPageX,
        ),
        0x10,
    ]);
    cpu.reg.idx = 1;
    cpu.memory.write_byte(0x11, 0x50);
    cpu.fetch_decode_next();
    assert_eq!(cpu.reg.accumulator, 0x50);
}

#[test]
fn lda_absolute() {
    let mut cpu = NesCpu::new_from_bytes(&[
        NesCpu::encode_instructions(
            Instructions::LoadAccumulator,
            AddressingMode::Absolute,
        ),
        0x10,
        0x10,
    ]);
    cpu.memory.write_byte(0x1010, 0x50);
    cpu.fetch_decode_next();
    assert_eq!(cpu.reg.accumulator, 0x50);
}

#[test]
fn lda_absolute_x() {
    let mut cpu = NesCpu::new_from_bytes(&[
        NesCpu::encode_instructions(
            Instructions::LoadAccumulator,
            AddressingMode::AbsoluteX,
        ),
        0x10,
        0x10,
    ]);
    cpu.reg.idx = 5;
    cpu.memory.write_byte(0x1015, 0x50);
    cpu.fetch_decode_next();
    assert_eq!(cpu.reg.accumulator, 0x50);
}

#[test]
fn lda_absolute_y() {
    let mut cpu = NesCpu::new_from_bytes(&[
        NesCpu::encode_instructions(
            Instructions::LoadAccumulator,
            AddressingMode::AbsoluteY,
        ),
        0x10,
        0x10,
    ]);
    cpu.reg.idy = 5;
    cpu.memory.write_byte(0x1015, 0x50);
    cpu.fetch_decode_next();
    assert_eq!(cpu.reg.accumulator, 0x50);
}

#[test]
fn lda_indirect_x() {
    let mut cpu = NesCpu::new_from_bytes(&[
        NesCpu::encode_instructions(
            Instructions::LoadAccumulator,
            AddressingMode::XIndirect,
        ),
        0x10,
    ]);
    cpu.reg.idx = 5;
    cpu.memory.write_byte(0x15, 0x10);
    cpu.memory.write_byte(0x16, 0x10);
    cpu.memory.write_byte(0x1010, 0x50);
    cpu.fetch_decode_next();
    assert_eq!(cpu.reg.accumulator, 0x50);
}

#[test]
fn lda_indirect_y() {
    let mut cpu = NesCpu::new_from_bytes(&[
        NesCpu::encode_instructions(
            Instructions::LoadAccumulator,
            AddressingMode::YIndirect,
        ),
        0x10,
    ]);
    cpu.reg.idy = 5;
    cpu.memory.write_byte(0x10, 0x0B);
    cpu.memory.write_byte(0x11, 0x10);
    cpu.memory.write_byte(0x15, 0x10);
    cpu.memory.write_byte(0x16, 0x10);
    cpu.memory.write_byte(0x1010, 0x50);
    cpu.fetch_decode_next();
    assert_eq!(cpu.reg.accumulator, 0x50);
}

#[test]
fn ldx_immediate() {
    let mut cpu = NesCpu::new_from_bytes(&[
        NesCpu::encode_instructions(Instructions::LoadX, AddressingMode::Immediate),
        0x50,
    ]);
    cpu.fetch_decode_next();
    assert_eq!(cpu.reg.idx, 0x50);
}

#[test]
fn ldx_zero_page() {
    let mut cpu = NesCpu::new_from_bytes(&[
        NesCpu::encode_instructions(Instructions::LoadX, AddressingMode::ZeroPage),
        0x10,
    ]);
    cpu.memory.write_byte(0x10, 0x50);
    cpu.fetch_decode_next();
    assert_eq!(cpu.reg.idx, 0x50);
}

#[test]
fn ldx_zero_page_y() {
    let mut cpu = NesCpu::new_from_bytes(&[
        NesCpu::encode_instructions(Instructions::LoadX, AddressingMode::ZeroPageY),
        0x10,
    ]);
    cpu.reg.idy = 5;
    cpu.memory.write_byte(0x15, 0x50);
    cpu.fetch_decode_next();
    assert_eq!(cpu.reg.idx, 0x50);
}

#[test]
fn ldx_absolute() {
    let mut cpu = NesCpu::new_from_bytes(&[
        NesCpu::encode_instructions(Instructions::LoadX, AddressingMode::Absolute),
        0x10,
        0x10,
    ]);
    cpu.memory.write_byte(0x1010, 0x50);
    cpu.fetch_decode_next();
    assert_eq!(cpu.reg.idx, 0x50);
}

#[test]
fn ldx_absolute_y() {
    let mut cpu = NesCpu::new_from_bytes(&[
        NesCpu::encode_instructions(Instructions::LoadX, AddressingMode::AbsoluteY),
        0x10,
        0x10,
    ]);
    cpu.reg.idy = 5;
    cpu.memory.write_byte(0x1015, 0x50);
    cpu.fetch_decode_next();
    assert_eq!(cpu.reg.idx, 0x50);
}

#[test]
fn ldy_immediate() {
    let mut cpu = NesCpu::new_from_bytes(&[
        NesCpu::encode_instructions(Instructions::LoadY, AddressingMode::Immediate),
        0x50,
    ]);
    cpu.fetch_decode_next();
    assert_eq!(cpu.reg.idy, 0x50);
}

#[test]
fn ldy_zero_page() {
    let mut cpu = NesCpu::new_from_bytes(&[
        NesCpu::encode_instructions(Instructions::LoadY, AddressingMode::ZeroPage),
        0x10,
    ]);
    cpu.memory.write_byte(0x10, 0x50);
    cpu.fetch_decode_next();
    assert_eq!(cpu.reg.idy, 0x50);
}

#[test]
fn ldy_zero_page_x() {
    let mut cpu = NesCpu::new_from_bytes(&[
        NesCpu::encode_instructions(Instructions::LoadY, AddressingMode::ZeroPageX),
        0x10,
    ]);
    cpu.reg.idx = 5;
    cpu.memory.write_byte(0x15, 0x50);
    cpu.fetch_decode_next();
    assert_eq!(cpu.reg.idy, 0x50);
}

#[test]
fn ldy_absolute() {
    let mut cpu = NesCpu::new_from_bytes(&[
        NesCpu::encode_instructions(Instructions::LoadY, AddressingMode::Absolute),
        0x10,
        0x10,
    ]);
    cpu.memory.write_byte(0x1010, 0x50);
    cpu.fetch_decode_next();
    assert_eq!(cpu.reg.idy, 0x50);
}

#[test]
fn ldy_absolute_x() {
    let mut cpu = NesCpu::new_from_bytes(&[
        NesCpu::encode_instructions(Instructions::LoadY, AddressingMode::AbsoluteX),
        0x10,
        0x10,
    ]);
    cpu.reg.idx = 5;
    cpu.memory.write_byte(0x1015, 0x50);
    cpu.fetch_decode_next();
    assert_eq!(cpu.reg.idy, 0x50);
}
