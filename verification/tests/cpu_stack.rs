use nesemu::cpu::{NesCpu, Processor};
use nesemu::instructions::{AddressingMode, Instructions};

#[test]
fn pha() {
    let mut cpu = NesCpu::new_from_bytes(&[NesCpu::encode_instructions(
        Instructions::PushAccOnStack,
        AddressingMode::Implied,
    )]);
    cpu.reg.accumulator = 0xAF;
    let sp = cpu.reg.sp;
    cpu.fetch_decode_next();
    assert_eq!(cpu.reg.sp, sp - 1);
    assert_eq!(cpu.pop_stack(), 0xAF);
}

#[test]
fn php() {
    let mut cpu = NesCpu::new_from_bytes(&[NesCpu::encode_instructions(
        Instructions::PushStatusOnStack,
        AddressingMode::Implied,
    )]);
    cpu.reg.flags.set_byte(0xBF);
    let sp = cpu.reg.sp;
    cpu.fetch_decode_next();
    assert_eq!(cpu.reg.sp, sp - 1);
    // the status byte goes onto the stack with bits 4 and 5 set
    assert_eq!(cpu.pop_stack(), 0xBF);
}

#[test]
fn pla() {
    let mut cpu = NesCpu::new_from_bytes(&[NesCpu::encode_instructions(
        Instructions::PopAccOffStack,
        AddressingMode::Implied,
    )]);
    let sp = cpu.reg.sp;
    cpu.push_stack(0x05);
    assert_eq!(cpu.reg.sp, sp - 1);
    cpu.fetch_decode_next();
    assert_eq!(cpu.reg.accumulator, 0x05);
    assert_eq!(cpu.reg.sp, sp);
}

#[test]
fn pla_zero() {
    let mut cpu = NesCpu::new_from_bytes(&[
        NesCpu::encode_instructions(
            Instructions::PopAccOffStack,
            AddressingMode::Implied,
        ),
        NesCpu::encode_instructions(
            Instructions::PopAccOffStack,
            AddressingMode::Implied,
        ),
    ]);
    let sp = cpu.reg.sp;
    cpu.push_stack(0x1);
    cpu.push_stack(0x0);
    assert_eq!(cpu.reg.sp, sp - 2);
    cpu.fetch_decode_next();
    assert_eq!(cpu.reg.accumulator, 0x0);
    assert!(cpu.reg.flags.zero);
    cpu.fetch_decode_next();
    assert_eq!(cpu.reg.accumulator, 0x1);
    assert!(!cpu.reg.flags.zero);
    assert_eq!(cpu.reg.sp, sp);
}

#[test]
fn pla_negative() {
    let mut cpu = NesCpu::new_from_bytes(&[
        NesCpu::encode_instructions(
            Instructions::PopAccOffStack,
            AddressingMode::Implied,
        ),
        NesCpu::encode_instructions(
            Instructions::PopAccOffStack,
            AddressingMode::Implied,
        ),
    ]);
    let sp = cpu.reg.sp;
    cpu.push_stack(0x74);
    cpu.push_stack(0x84);
    assert_eq!(cpu.reg.sp, sp - 2);
    cpu.fetch_decode_next();
    assert_eq!(cpu.reg.accumulator, 0x84);
    assert!(cpu.reg.flags.negative);
    cpu.fetch_decode_next();
    assert_eq!(cpu.reg.accumulator, 0x74);
    assert!(!cpu.reg.flags.negative);
    assert_eq!(cpu.reg.sp, sp);
}

#[test]
fn plp() {
    let mut cpu = NesCpu::new_from_bytes(&[NesCpu::encode_instructions(
        Instructions::PullStatusFromStack,
        AddressingMode::Implied,
    )]);
    let sp = cpu.reg.sp;
    cpu.push_stack(0xFB);
    assert_eq!(cpu.reg.sp, sp - 1);
    cpu.fetch_decode_next();
    assert_eq!(cpu.reg.flags.as_byte(), 0xEB);
    assert_eq!(cpu.reg.sp, sp);
}
