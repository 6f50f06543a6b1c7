use nesemu::cpu::{NesCpu, Processor};
use nesemu::instructions::{AddressingMode, Instructions};

#[test]
fn tax() {
    let mut cpu = NesCpu::new_from_bytes(&[NesCpu::encode_instructions(
        Instructions::AccumulatorToX,
        AddressingMode::Implied,
    )]);
    cpu.reg.accumulator = 0xFA;
    cpu.reg.idx = 0;
    cpu.fetch_decode_next();
    assert_eq!(cpu.reg.idx, 0xFA);
}

#[test]
fn txa() {
    let mut cpu = NesCpu::new_from_bytes(&[
        NesCpu::encode_instructions(
            Instructions::XToAccumulator,
            AddressingMode::Implied,
        ),
        0,
    ]);
    cpu.reg.idx = 0xFA;
    cpu.reg.accumulator = 0;
    cpu.fetch_decode_next();
    assert_eq!(cpu.reg.accumulator, 0xFA);
}

#[test]
fn tay() {
    let mut cpu = NesCpu::new_from_bytes(&[NesCpu::encode_instructions(
        Instructions::AccumulatorToY,
        AddressingMode::Implied,
    )]);
    cpu.reg.accumulator = 0xFA;
    cpu.reg.idy = 0;
    cpu.fetch_decode_next();
    assert_eq!(cpu.reg.idy, 0xFA);
}

#[test]
fn tya() {
    let mut cpu = NesCpu::new_from_bytes(&[NesCpu::encode_instructions(
        Instructions::YToAccumulator,
        AddressingMode::Implied,
    )]);
    cpu.reg.idy = 0xFA;
    cpu.reg.accumulator = 0;
    cpu.fetch_decode_next();
    assert_eq!(cpu.reg.accumulator, 0xFA);
}
