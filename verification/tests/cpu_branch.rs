use nesemu::cpu::{NesCpu, Processor};
use nesemu::instructions::{AddressingMode, Instructions};
use nesemu::memory::Bus;

#[test]
fn jmp_absolute() {
    let mut cpu = NesCpu::new_from_bytes(&[
        NesCpu::encode_instructions(Instructions::Jump, AddressingMode::Absolute),
        0x20,
        0x20,
    ]);
    cpu.fetch_decode_next();
    assert_eq!(cpu.reg.pc, 0x2020);
}

#[test]
fn jmp_indirect() {
    let mut cpu = NesCpu::new_from_bytes(&[
        NesCpu::encode_instructions(Instructions::Jump, AddressingMode::Indirect),
        0x20,
        0x20,
    ]);
    cpu.memory.write_byte(0x2020, 0x21);
    cpu.memory.write_byte(0x2021, 0x34);
    cpu.fetch_decode_next();
    assert_eq!(cpu.reg.pc, 0x3421);
}

#[test]
fn jsr() {
    let mut cpu = NesCpu::new_from_bytes(&[
        NesCpu::encode_instructions(
            Instructions::JumpSubroutine,
            AddressingMode::Absolute,
        ),
        0x20,
        0x20,
        NesCpu::encode_instructions(Instructions::Jump, AddressingMode::Absolute),
        0x80,
        0x00,
    ]);
    let sp = cpu.reg.sp;
    cpu.fetch_decode_next();
    assert_eq!(cpu.reg.pc, 0x2020);
    assert_eq!(cpu.reg.sp, sp - 2);
    let address = cpu.pop_stack_u16();
    assert_eq!(address, 0x8002);
    assert_eq!(cpu.reg.sp, sp);
}

#[test]
fn bcc() {
    let mut cpu = NesCpu::new_from_bytes(&[
        NesCpu::encode_instructions(
            Instructions::BranchOnCarryClear,
            AddressingMode::Relative,
        ),
        0x20,
        NesCpu::encode_instructions(
            Instructions::BranchOnCarryClear,
            AddressingMode::Relative,
        ),
        0x20,
    ]);
    cpu.reg.flags.carry = true;
    cpu.fetch_decode_next();
    assert_eq!(cpu.reg.pc, 0x8002);
    cpu.reg.flags.carry = false;
    cpu.fetch_decode_next();
    assert_eq!(cpu.reg.pc, 0x8024);
}

#[test]
fn bcs() {
    let mut cpu = NesCpu::new_from_bytes(&[
        NesCpu::encode_instructions(
            Instructions::BranchOnCarrySet,
            AddressingMode::Relative,
        ),
        0x20,
        NesCpu::encode_instructions(
            Instructions::BranchOnCarrySet,
            AddressingMode::Relative,
        ),
        0x20,
    ]);
    cpu.reg.flags.carry = false;
    cpu.fetch_decode_next();
    assert_eq!(cpu.reg.pc, 0x8002);
    cpu.reg.flags.carry = true;
    cpu.fetch_decode_next();
    assert_eq!(cpu.reg.pc, 0x8024);
}

#[test]
fn bvc() {
    let mut cpu = NesCpu::new_from_bytes(&[
        NesCpu::encode_instructions(
            Instructions::BranchOverflowClear,
            AddressingMode::Relative,
        ),
        0x20,
        NesCpu::encode_instructions(
            Instructions::BranchOverflowClear,
            AddressingMode::Relative,
        ),
        0x20,
    ]);
    cpu.reg.flags.overflow = true;
    cpu.fetch_decode_next();
    assert_eq!(cpu.reg.pc, 0x8002);
    cpu.reg.flags.overflow = false;
    cpu.fetch_decode_next();
    assert_eq!(cpu.reg.pc, 0x8024);
}

#[test]
fn bvs() {
    let mut cpu = NesCpu::new_from_bytes(&[
        NesCpu::encode_instructions(
            Instructions::BranchOnOverflowSet,
            AddressingMode::Relative,
        ),
        0x20,
        NesCpu::encode_instructions(
            Instructions::BranchOnOverflowSet,
            AddressingMode::Relative,
        ),
        0x20,
    ]);
    cpu.reg.flags.overflow = false;
    cpu.fetch_decode_next();
    assert_eq!(cpu.reg.pc, 0x8002);
    cpu.reg.flags.overflow = true;
    cpu.fetch_decode_next();
    assert_eq!(cpu.reg.pc, 0x8024);
}

#[test]
fn bne() {
    let mut cpu = NesCpu::new_from_bytes(&[
        NesCpu::encode_instructions(
            Instructions::BranchNotZero,
            AddressingMode::Relative,
        ),
        0x20,
        NesCpu::encode_instructions(
            Instructions::BranchNotZero,
            AddressingMode::Relative,
        ),
        0x20,
    ]);
    cpu.reg.flags.zero = true;
    cpu.fetch_decode_next();
    assert_eq!(cpu.reg.pc, 0x8002);
    cpu.reg.flags.zero = false;
    cpu.fetch_decode_next();
    assert_eq!(cpu.reg.pc, 0x8024);
}

#[test]
fn beq() {
    let mut cpu = NesCpu::new_from_bytes(&[
        NesCpu::encode_instructions(
            Instructions::BranchOnResultZero,
            AddressingMode::Relative,
        ),
        0x20,
        NesCpu::encode_instructions(
            Instructions::BranchOnResultZero,
            AddressingMode::Relative,
        ),
        0x20,
    ]);
    cpu.reg.flags.zero = false;
    cpu.fetch_decode_next();
    assert_eq!(cpu.reg.pc, 0x8002);
    cpu.reg.flags.zero = true;
    cpu.fetch_decode_next();
    assert_eq!(cpu.reg.pc, 0x8024);
}

#[test]
fn bmi() {
    let mut cpu = NesCpu::new_from_bytes(&[
        NesCpu::encode_instructions(
            Instructions::BranchOnResultMinus,
            AddressingMode::Relative,
        ),
        0x20,
        NesCpu::encode_instructions(
            Instructions::BranchOnResultMinus,
            AddressingMode::Relative,
        ),
        0x20,
    ]);
    cpu.reg.flags.negative = false;
    cpu.fetch_decode_next();
    assert_eq!(cpu.reg.pc, 0x8002);
    cpu.reg.flags.negative = true;
    cpu.fetch_decode_next();
    assert_eq!(cpu.reg.pc, 0x8024);
}

#[test]
fn bpl() {
    let mut cpu = NesCpu::new_from_bytes(&[
        NesCpu::encode_instructions(
            Instructions::BranchOnResultPlus,
            AddressingMode::Relative,
        ),
        0x20,
        NesCpu::encode_instructions(
            Instructions::BranchOnResultPlus,
            AddressingMode::Relative,
        ),
        0x20,
    ]);
    cpu.reg.flags.negative = true;
    cpu.fetch_decode_next();
    assert_eq!(cpu.reg.pc, 0x8002);
    cpu.reg.flags.negative = false;
    cpu.fetch_decode_next();
    assert_eq!(cpu.reg.pc, 0x8024);
}
