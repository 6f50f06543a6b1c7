//! Operations, addressing modes and the opcode table, with the decoder and
//! the encoder that is its inverse.

use vstd::prelude::*;
use crate::cpu::{NesCpu, Processor};

verus! {

/// The rule by which an instruction finds its operand.
#[derive(Debug, Clone, Copy, PartialEq, Eq, Structural)]
pub enum AddressingMode {
    Accumulator,
    Absolute,
    AbsoluteX,
    AbsoluteY,
    Immediate,
    Implied,
    Indirect,
    XIndirect,
    YIndirect,
    Relative,
    ZeroPage,
    ZeroPageX,
    ZeroPageY,
}

/// The operations of the processor: the official instruction set, the
/// undocumented operations that the hardware executes all the same, and
/// `MissingOperation` for an instruction that stands for nothing.
#[derive(Debug, Clone, Copy, PartialEq, Eq, Structural)]
pub enum Instructions {
    SetInterruptDisable,
    ClearInterruptDisable,
    SetDecimalMode,
    ClearDecimalMode,
    ClearOverflow,
    SetCarry,
    ClearCarry,
    LoadAccumulator,
    StoreAccumulator,
    LoadX,
    LoadY,
    StoreX,
    StoreY,
    XToStackPointer,
    StackPointerToX,
    EORAccumulator,
    ORAccumulator,
    ANDAccumulator,
    CompareAccumulator,
    CompareX,
    CompareY,
    BranchOnCarrySet,
    BranchOnCarryClear,
    BranchOnResultZero,
    BranchOnResultMinus,
    BranchNotZero,
    BranchOnResultPlus,
    BranchOverflowClear,
    BranchOnOverflowSet,
    DecrementX,
    DecrementY,
    DecrementMem,
    IncrementX,
    IncrementY,
    IncrementMem,
    JumpSubroutine,
    Jump,
    PopAccOffStack,
    PullStatusFromStack,
    PushAccOnStack,
    PushStatusOnStack,
    ShiftOneRight,
    ShiftOneLeft,
    RotateOneLeft,
    RotateOneRight,
    ReturnFromInterrupt,
    ReturnFromSubroutine,
    AccumulatorToY,
    AccumulatorToX,
    XToAccumulator,
    YToAccumulator,
    AddToAccWithCarry,
    TestBitsAccumulator,
    SubAccWithBorrow,
    MissingOperation,
    NoOperation,
    JAM,
    ForceBreak,
    ISC,
    SLO,
    SAX,
    DCP,
    ARR,
    TAS,
    ANE,
    LAX,
    RLA,
    ANC,
    SRE,
    RRA,
    ALR,
    USBC,
    LAS,
    LXA,
    SHA,
    SBX,
    SHY,
    SHX,
}

/// The instruction that the processor holds between decoding and executing.
#[derive(Debug, Clone, Copy, PartialEq, Eq, Structural)]
pub struct CurrentInstruction {
    pub op: Instructions,
    pub mode: AddressingMode,
}

/// The opcode that the encoder answers with for a pair that no opcode stands for.
pub const JAM_OPCODE: u8 = 0x02;

impl CurrentInstruction {
    /// The instruction a processor holds before it has fetched anything: a halt.
    pub fn new() -> (current: Self)
        ensures
            current.op == Instructions::JAM,
            current.mode == AddressingMode::Implied,
    {
        Self { op: Instructions::JAM, mode: AddressingMode::Implied }
    }
}

impl AddressingMode {
    /// Length in bytes of an instruction in this mode, opcode included.
    pub open spec fn increment(self) -> u16 {
        match self {
            AddressingMode::Implied | AddressingMode::Accumulator => 1,
            AddressingMode::Immediate
            | AddressingMode::XIndirect
            | AddressingMode::YIndirect
            | AddressingMode::ZeroPage
            | AddressingMode::ZeroPageX
            | AddressingMode::ZeroPageY
            | AddressingMode::Relative => 2,
            AddressingMode::Absolute
            | AddressingMode::AbsoluteX
            | AddressingMode::AbsoluteY
            | AddressingMode::Indirect => 3,
        }
    }

    /// How far the program counter moves over an instruction in this mode.
    pub fn get_increment(&self) -> (bytes: u16)
        ensures
            bytes == self.increment(),
            1 <= bytes <= 3,
    {
        match self {
            AddressingMode::Implied | AddressingMode::Accumulator => 1,
            AddressingMode::Immediate
            | AddressingMode::XIndirect
            | AddressingMode::YIndirect
            | AddressingMode::ZeroPage
            | AddressingMode::ZeroPageX
            | AddressingMode::ZeroPageY
            | AddressingMode::Relative => 2,
            AddressingMode::Absolute
            | AddressingMode::AbsoluteX
            | AddressingMode::AbsoluteY
            | AddressingMode::Indirect => 3,
        }
    }
}

/// The opcode matrix of the 6502, one line per opcode: what the processor
/// executes for each of the 256 values of the first byte of an instruction.
#[verifier::opaque]
pub open spec fn decode_spec(opcode: u8) -> (Instructions, AddressingMode) {
    match opcode {
        0x00 => (Instructions::ForceBreak, AddressingMode::Implied),
        0x01 => (Instructions::ORAccumulator, AddressingMode::XIndirect),
        0x02 => (Instructions::JAM, AddressingMode::Implied),
        0x03 => (Instructions::SLO, AddressingMode::XIndirect),
        0x04 => (Instructions::NoOperation, AddressingMode::ZeroPage),
        0x05 => (Instructions::ORAccumulator, AddressingMode::ZeroPage),
        0x06 => (Instructions::ShiftOneLeft, AddressingMode::ZeroPage),
        0x07 => (Instructions::SLO, AddressingMode::ZeroPage),
        0x08 => (Instructions::PushStatusOnStack, AddressingMode::Implied),
        0x09 => (Instructions::ORAccumulator, AddressingMode::Immediate),
        0x0A => (Instructions::ShiftOneLeft, AddressingMode::Accumulator),
        0x0B => (Instructions::ANC, AddressingMode::Immediate),
        0x0C => (Instructions::NoOperation, AddressingMode::Absolute),
        0x0D => (Instructions::ORAccumulator, AddressingMode::Absolute),
        0x0E => (Instructions::ShiftOneLeft, AddressingMode::Absolute),
        0x0F => (Instructions::SLO, AddressingMode::Absolute),
        0x10 => (Instructions::BranchOnResultPlus, AddressingMode::Relative),
        0x11 => (Instructions::ORAccumulator, AddressingMode::YIndirect),
        0x12 => (Instructions::JAM, AddressingMode::Implied),
        0x13 => (Instructions::SLO, AddressingMode::YIndirect),
        0x14 => (Instructions::NoOperation, AddressingMode::ZeroPageX),
        0x15 => (Instructions::ORAccumulator, AddressingMode::ZeroPageX),
        0x16 => (Instructions::ShiftOneLeft, AddressingMode::ZeroPageX),
        0x17 => (Instructions::SLO, AddressingMode::ZeroPageX),
        0x18 => (Instructions::ClearCarry, AddressingMode::Implied),
        0x19 => (Instructions::ORAccumulator, AddressingMode::AbsoluteY),
        0x1A => (Instructions::NoOperation, AddressingMode::Implied),
        0x1B => (Instructions::SLO, AddressingMode::AbsoluteY),
        0x1C => (Instructions::NoOperation, AddressingMode::AbsoluteX),
        0x1D => (Instructions::ORAccumulator, AddressingMode::AbsoluteX),
        0x1E => (Instructions::ShiftOneLeft, AddressingMode::AbsoluteX),
        0x1F => (Instructions::SLO, AddressingMode::AbsoluteX),
        0x20 => (Instructions::JumpSubroutine, AddressingMode::Absolute),
        0x21 => (Instructions::ANDAccumulator, AddressingMode::XIndirect),
        0x22 => (Instructions::JAM, AddressingMode::Implied),
        0x23 => (Instructions::RLA, AddressingMode::XIndirect),
        0x24 => (Instructions::TestBitsAccumulator, AddressingMode::ZeroPage),
        0x25 => (Instructions::ANDAccumulator, AddressingMode::ZeroPage),
        0x26 => (Instructions::RotateOneLeft, AddressingMode::ZeroPage),
        0x27 => (Instructions::RLA, AddressingMode::ZeroPage),
        0x28 => (Instructions::PullStatusFromStack, AddressingMode::Implied),
        0x29 => (Instructions::ANDAccumulator, AddressingMode::Immediate),
        0x2A => (Instructions::RotateOneLeft, AddressingMode::Accumulator),
        0x2B => (Instructions::ANC, AddressingMode::Immediate),
        0x2C => (Instructions::TestBitsAccumulator, AddressingMode::Absolute),
        0x2D => (Instructions::ANDAccumulator, AddressingMode::Absolute),
        0x2E => (Instructions::RotateOneLeft, AddressingMode::Absolute),
        0x2F => (Instructions::RLA, AddressingMode::Absolute),
        0x30 => (Instructions::BranchOnResultMinus, AddressingMode::Relative),
        0x31 => (Instructions::ANDAccumulator, AddressingMode::YIndirect),
        0x32 => (Instructions::JAM, AddressingMode::Implied),
        0x33 => (Instructions::RLA, AddressingMode::YIndirect),
        0x34 => (Instructions::NoOperation, AddressingMode::ZeroPageX),
        0x35 => (Instructions::ANDAccumulator, AddressingMode::ZeroPageX),
        0x36 => (Instructions::RotateOneLeft, AddressingMode::ZeroPageX),
        0x37 => (Instructions::RLA, AddressingMode::ZeroPageX),
        0x38 => (Instructions::SetCarry, AddressingMode::Implied),
        0x39 => (Instructions::ANDAccumulator, AddressingMode::AbsoluteY),
        0x3A => (Instructions::NoOperation, AddressingMode::Implied),
        0x3B => (Instructions::RLA, AddressingMode::AbsoluteY),
        0x3C => (Instructions::NoOperation, AddressingMode::AbsoluteX),
        0x3D => (Instructions::ANDAccumulator, AddressingMode::AbsoluteX),
        0x3E => (Instructions::RotateOneLeft, AddressingMode::AbsoluteX),
        0x3F => (Instructions::RLA, AddressingMode::AbsoluteX),
        0x40 => (Instructions::ReturnFromInterrupt, AddressingMode::Implied),
        0x41 => (Instructions::EORAccumulator, AddressingMode::XIndirect),
        0x42 => (Instructions::JAM, AddressingMode::Implied),
        0x43 => (Instructions::SRE, AddressingMode::XIndirect),
        0x44 => (Instructions::NoOperation, AddressingMode::ZeroPage),
        0x45 => (Instructions::EORAccumulator, AddressingMode::ZeroPage),
        0x46 => (Instructions::ShiftOneRight, AddressingMode::ZeroPage),
        0x47 => (Instructions::SRE, AddressingMode::ZeroPage),
        0x48 => (Instructions::PushAccOnStack, AddressingMode::Implied),
        0x49 => (Instructions::EORAccumulator, AddressingMode::Immediate),
        0x4A => (Instructions::ShiftOneRight, AddressingMode::Accumulator),
        0x4B => (Instructions::ALR, AddressingMode::Immediate),
        0x4C => (Instructions::Jump, AddressingMode::Absolute),
        0x4D => (Instructions::EORAccumulator, AddressingMode::Absolute),
        0x4E => (Instructions::ShiftOneRight, AddressingMode::Absolute),
        0x4F => (Instructions::SRE, AddressingMode::Absolute),
        0x50 => (Instructions::BranchOverflowClear, AddressingMode::Relative),
        0x51 => (Instructions::EORAccumulator, AddressingMode::YIndirect),
        0x52 => (Instructions::JAM, AddressingMode::Implied),
        0x53 => (Instructions::SRE, AddressingMode::YIndirect),
        0x54 => (Instructions::NoOperation, AddressingMode::ZeroPageX),
        0x55 => (Instructions::EORAccumulator, AddressingMode::ZeroPageX),
        0x56 => (Instructions::ShiftOneRight, AddressingMode::ZeroPageX),
        0x57 => (Instructions::SRE, AddressingMode::ZeroPageX),
        0x58 => (Instructions::ClearInterruptDisable, AddressingMode::Implied),
        0x59 => (Instructions::EORAccumulator, AddressingMode::AbsoluteY),
        0x5A => (Instructions::NoOperation, AddressingMode::Implied),
        0x5B => (Instructions::SRE, AddressingMode::AbsoluteY),
        0x5C => (Instructions::NoOperation, AddressingMode::AbsoluteX),
        0x5D => (Instructions::EORAccumulator, AddressingMode::AbsoluteX),
        0x5E => (Instructions::ShiftOneRight, AddressingMode::AbsoluteX),
        0x5F => (Instructions::SRE, AddressingMode::AbsoluteX),
        0x60 => (Instructions::ReturnFromSubroutine, AddressingMode::Implied),
        0x61 => (Instructions::AddToAccWithCarry, AddressingMode::XIndirect),
        0x62 => (Instructions::JAM, AddressingMode::Implied),
        0x63 => (Instructions::RRA, AddressingMode::XIndirect),
        0x64 => (Instructions::NoOperation, AddressingMode::ZeroPage),
        0x65 => (Instructions::AddToAccWithCarry, AddressingMode::ZeroPage),
        0x66 => (Instructions::RotateOneRight, AddressingMode::ZeroPage),
        0x67 => (Instructions::RRA, AddressingMode::ZeroPage),
        0x68 => (Instructions::PopAccOffStack, AddressingMode::Implied),
        0x69 => (Instructions::AddToAccWithCarry, AddressingMode::Immediate),
        0x6A => (Instructions::RotateOneRight, AddressingMode::Accumulator),
        0x6B => (Instructions::ARR, AddressingMode::Immediate),
        0x6C => (Instructions::Jump, AddressingMode::Indirect),
        0x6D => (Instructions::AddToAccWithCarry, AddressingMode::Absolute),
        0x6E => (Instructions::RotateOneRight, AddressingMode::Absolute),
        0x6F => (Instructions::RRA, AddressingMode::Absolute),
        0x70 => (Instructions::BranchOnOverflowSet, AddressingMode::Relative),
        0x71 => (Instructions::AddToAccWithCarry, AddressingMode::YIndirect),
        0x72 => (Instructions::JAM, AddressingMode::Implied),
        0x73 => (Instructions::RRA, AddressingMode::YIndirect),
        0x74 => (Instructions::NoOperation, AddressingMode::ZeroPageX),
        0x75 => (Instructions::AddToAccWithCarry, AddressingMode::ZeroPageX),
        0x76 => (Instructions::RotateOneRight, AddressingMode::ZeroPageX),
        0x77 => (Instructions::RRA, AddressingMode::ZeroPageX),
        0x78 => (Instructions::SetInterruptDisable, AddressingMode::Implied),
        0x79 => (Instructions::AddToAccWithCarry, AddressingMode::AbsoluteY),
        0x7A => (Instructions::NoOperation, AddressingMode::Implied),
        0x7B => (Instructions::RRA, AddressingMode::AbsoluteY),
        0x7C => (Instructions::NoOperation, AddressingMode::AbsoluteX),
        0x7D => (Instructions::AddToAccWithCarry, AddressingMode::AbsoluteX),
        0x7E => (Instructions::RotateOneRight, AddressingMode::AbsoluteX),
        0x7F => (Instructions::RRA, AddressingMode::AbsoluteX),
        0x80 => (Instructions::NoOperation, AddressingMode::Immediate),
        0x81 => (Instructions::StoreAccumulator, AddressingMode::XIndirect),
        0x82 => (Instructions::NoOperation, AddressingMode::Immediate),
        0x83 => (Instructions::SAX, AddressingMode::XIndirect),
        0x84 => (Instructions::StoreY, AddressingMode::ZeroPage),
        0x85 => (Instructions::StoreAccumulator, AddressingMode::ZeroPage),
        0x86 => (Instructions::StoreX, AddressingMode::ZeroPage),
        0x87 => (Instructions::SAX, AddressingMode::ZeroPage),
        0x88 => (Instructions::DecrementY, AddressingMode::Implied),
        0x89 => (Instructions::NoOperation, AddressingMode::Immediate),
        0x8A => (Instructions::XToAccumulator, AddressingMode::Implied),
        0x8B => (Instructions::ANE, AddressingMode::Immediate),
        0x8C => (Instructions::StoreY, AddressingMode::Absolute),
        0x8D => (Instructions::StoreAccumulator, AddressingMode::Absolute),
        0x8E => (Instructions::StoreX, AddressingMode::Absolute),
        0x8F => (Instructions::SAX, AddressingMode::Absolute),
        0x90 => (Instructions::BranchOnCarryClear, AddressingMode::Relative),
        0x91 => (Instructions::StoreAccumulator, AddressingMode::YIndirect),
        0x92 => (Instructions::JAM, AddressingMode::Implied),
        0x93 => (Instructions::SHA, AddressingMode::YIndirect),
        0x94 => (Instructions::StoreY, AddressingMode::ZeroPageX),
        0x95 => (Instructions::StoreAccumulator, AddressingMode::ZeroPageX),
        0x96 => (Instructions::StoreX, AddressingMode::ZeroPageY),
        0x97 => (Instructions::SAX, AddressingMode::ZeroPageY),
        0x98 => (Instructions::YToAccumulator, AddressingMode::Implied),
        0x99 => (Instructions::StoreAccumulator, AddressingMode::AbsoluteY),
        0x9A => (Instructions::XToStackPointer, AddressingMode::Implied),
        0x9B => (Instructions::TAS, AddressingMode::AbsoluteY),
        0x9C => (Instructions::SHY, AddressingMode::AbsoluteX),
        0x9D => (Instructions::StoreAccumulator, AddressingMode::AbsoluteX),
        0x9E => (Instructions::SHX, AddressingMode::AbsoluteY),
        0x9F => (Instructions::SHA, AddressingMode::AbsoluteY),
        0xA0 => (Instructions::LoadY, AddressingMode::Immediate),
        0xA1 => (Instructions::LoadAccumulator, AddressingMode::XIndirect),
        0xA2 => (Instructions::LoadX, AddressingMode::Immediate),
        0xA3 => (Instructions::LAX, AddressingMode::XIndirect),
        0xA4 => (Instructions::LoadY, AddressingMode::ZeroPage),
        0xA5 => (Instructions::LoadAccumulator, AddressingMode::ZeroPage),
        0xA6 => (Instructions::LoadX, AddressingMode::ZeroPage),
        0xA7 => (Instructions::LAX, AddressingMode::ZeroPage),
        0xA8 => (Instructions::AccumulatorToY, AddressingMode::Implied),
        0xA9 => (Instructions::LoadAccumulator, AddressingMode::Immediate),
        0xAA => (Instructions::AccumulatorToX, AddressingMode::Implied),
        0xAB => (Instructions::LXA, AddressingMode::Immediate),
        0xAC => (Instructions::LoadY, AddressingMode::Absolute),
        0xAD => (Instructions::LoadAccumulator, AddressingMode::Absolute),
        0xAE => (Instructions::LoadX, AddressingMode::Absolute),
        0xAF => (Instructions::LAX, AddressingMode::Absolute),
        0xB0 => (Instructions::BranchOnCarrySet, AddressingMode::Relative),
        0xB1 => (Instructions::LoadAccumulator, AddressingMode::YIndirect),
        0xB2 => (Instructions::JAM, AddressingMode::Implied),
        0xB3 => (Instructions::LAX, AddressingMode::YIndirect),
        0xB4 => (Instructions::LoadY, AddressingMode::ZeroPageX),
        0xB5 => (Instructions::LoadAccumulator, AddressingMode::ZeroPageX),
        0xB6 => (Instructions::LoadX, AddressingMode::ZeroPageY),
        0xB7 => (Instructions::LAX, AddressingMode::ZeroPageY),
        0xB8 => (Instructions::ClearOverflow, AddressingMode::Implied),
        0xB9 => (Instructions::LoadAccumulator, AddressingMode::AbsoluteY),
        0xBA => (Instructions::StackPointerToX, AddressingMode::Implied),
        0xBB => (Instructions::LAS, AddressingMode::AbsoluteY),
        0xBC => (Instructions::LoadY, AddressingMode::AbsoluteX),
        0xBD => (Instructions::LoadAccumulator, AddressingMode::AbsoluteX),
        0xBE => (Instructions::LoadX, AddressingMode::AbsoluteY),
        0xBF => (Instructions::LAX, AddressingMode::AbsoluteY),
        0xC0 => (Instructions::CompareY, AddressingMode::Immediate),
        0xC1 => (Instructions::CompareAccumulator, AddressingMode::XIndirect),
        0xC2 => (Instructions::NoOperation, AddressingMode::Immediate),
        0xC3 => (Instructions::DCP, AddressingMode::XIndirect),
        0xC4 => (Instructions::CompareY, AddressingMode::ZeroPage),
        0xC5 => (Instructions::CompareAccumulator, AddressingMode::ZeroPage),
        0xC6 => (Instructions::DecrementMem, AddressingMode::ZeroPage),
        0xC7 => (Instructions::DCP, AddressingMode::ZeroPage),
        0xC8 => (Instructions::IncrementY, AddressingMode::Implied),
        0xC9 => (Instructions::CompareAccumulator, AddressingMode::Immediate),
        0xCA => (Instructions::DecrementX, AddressingMode::Implied),
        0xCB => (Instructions::SBX, AddressingMode::Immediate),
        0xCC => (Instructions::CompareY, AddressingMode::Absolute),
        0xCD => (Instructions::CompareAccumulator, AddressingMode::Absolute),
        0xCE => (Instructions::DecrementMem, AddressingMode::Absolute),
        0xCF => (Instructions::DCP, AddressingMode::Absolute),
        0xD0 => (Instructions::BranchNotZero, AddressingMode::Relative),
        0xD1 => (Instructions::CompareAccumulator, AddressingMode::YIndirect),
        0xD2 => (Instructions::JAM, AddressingMode::Implied),
        0xD3 => (Instructions::DCP, AddressingMode::YIndirect),
        0xD4 => (Instructions::NoOperation, AddressingMode::ZeroPageX),
        0xD5 => (Instructions::CompareAccumulator, AddressingMode::ZeroPageX),
        0xD6 => (Instructions::DecrementMem, AddressingMode::ZeroPageX),
        0xD7 => (Instructions::DCP, AddressingMode::ZeroPageX),
        0xD8 => (Instructions::ClearDecimalMode, AddressingMode::Implied),
        0xD9 => (Instructions::CompareAccumulator, AddressingMode::AbsoluteY),
        0xDA => (Instructions::NoOperation, AddressingMode::Implied),
        0xDB => (Instructions::DCP, AddressingMode::AbsoluteY),
        0xDC => (Instructions::NoOperation, AddressingMode::AbsoluteX),
        0xDD => (Instructions::CompareAccumulator, AddressingMode::AbsoluteX),
        0xDE => (Instructions::DecrementMem, AddressingMode::AbsoluteX),
        0xDF => (Instructions::DCP, AddressingMode::AbsoluteX),
        0xE0 => (Instructions::CompareX, AddressingMode::Immediate),
        0xE1 => (Instructions::SubAccWithBorrow, AddressingMode::XIndirect),
        0xE2 => (Instructions::NoOperation, AddressingMode::Immediate),
        0xE3 => (Instructions::ISC, AddressingMode::XIndirect),
        0xE4 => (Instructions::CompareX, AddressingMode::ZeroPage),
        0xE5 => (Instructions::SubAccWithBorrow, AddressingMode::ZeroPage),
        0xE6 => (Instructions::IncrementMem, AddressingMode::ZeroPage),
        0xE7 => (Instructions::ISC, AddressingMode::ZeroPage),
        0xE8 => (Instructions::IncrementX, AddressingMode::Implied),
        0xE9 => (Instructions::SubAccWithBorrow, AddressingMode::Immediate),
        0xEA => (Instructions::NoOperation, AddressingMode::Implied),
        0xEB => (Instructions::USBC, AddressingMode::Immediate),
        0xEC => (Instructions::CompareX, AddressingMode::Absolute),
        0xED => (Instructions::SubAccWithBorrow, AddressingMode::Absolute),
        0xEE => (Instructions::IncrementMem, AddressingMode::Absolute),
        0xEF => (Instructions::ISC, AddressingMode::Absolute),
        0xF0 => (Instructions::BranchOnResultZero, AddressingMode::Relative),
        0xF1 => (Instructions::SubAccWithBorrow, AddressingMode::YIndirect),
        0xF2 => (Instructions::JAM, AddressingMode::Implied),
        0xF3 => (Instructions::ISC, AddressingMode::YIndirect),
        0xF4 => (Instructions::NoOperation, AddressingMode::ZeroPageX),
        0xF5 => (Instructions::SubAccWithBorrow, AddressingMode::ZeroPageX),
        0xF6 => (Instructions::IncrementMem, AddressingMode::ZeroPageX),
        0xF7 => (Instructions::ISC, AddressingMode::ZeroPageX),
        0xF8 => (Instructions::SetDecimalMode, AddressingMode::Implied),
        0xF9 => (Instructions::SubAccWithBorrow, AddressingMode::AbsoluteY),
        0xFA => (Instructions::NoOperation, AddressingMode::Implied),
        0xFB => (Instructions::ISC, AddressingMode::AbsoluteY),
        0xFC => (Instructions::NoOperation, AddressingMode::AbsoluteX),
        0xFD => (Instructions::SubAccWithBorrow, AddressingMode::AbsoluteX),
        0xFE => (Instructions::IncrementMem, AddressingMode::AbsoluteX),
        0xFF => (Instructions::ISC, AddressingMode::AbsoluteX),
    }
}

/// True when `opcode` is one way of writing operation `op` in mode `mode`.
pub open spec fn decodes_to(opcode: u8, op: Instructions, mode: AddressingMode) -> bool {
    decode_spec(opcode) == (op, mode)
}

/// The pairs of an operation and a mode that the processor has an opcode for.
pub open spec fn is_encodable(op: Instructions, mode: AddressingMode) -> bool {
    exists|opcode: u8| decodes_to(opcode, op, mode)
}

/// The lowest of the opcodes that stand for the pair.
pub open spec fn lowest_opcode(op: Instructions, mode: AddressingMode) -> u8 {
    choose|opcode: u8|
        decodes_to(opcode, op, mode) && forall|other: u8|
            decodes_to(other, op, mode) ==> opcode <= other
}

/// The opcode by which a pair is written. A pair with several opcodes is
/// written by the lowest of them, except `ANC`, which is written `0x2B`.
/// A pair without any opcode gives `JAM_OPCODE`.
pub open spec fn encode_spec(op: Instructions, mode: AddressingMode) -> u8 {
    if !is_encodable(op, mode) {
        JAM_OPCODE
    } else if op == Instructions::ANC {
        0x2B
    } else {
        lowest_opcode(op, mode)
    }
}

impl Processor for NesCpu {
    fn decode_instruction(opcode: u8) -> (decoded: (Instructions, AddressingMode)) {
        reveal(decode_spec);
        match opcode {
            0x78 => (Instructions::SetInterruptDisable, AddressingMode::Implied),
            0x58 => (Instructions::ClearInterruptDisable, AddressingMode::Implied),
            0xF8 => (Instructions::SetDecimalMode, AddressingMode::Implied),
            0xD8 => (Instructions::ClearDecimalMode, AddressingMode::Implied),
            0xB8 => (Instructions::ClearOverflow, AddressingMode::Implied),
            0x38 => (Instructions::SetCarry, AddressingMode::Implied),
            0x18 => (Instructions::ClearCarry, AddressingMode::Implied),
            0xAD => (Instructions::LoadAccumulator, AddressingMode::Absolute),
            0xBD => (Instructions::LoadAccumulator, AddressingMode::AbsoluteX),
            0xB9 => (Instructions::LoadAccumulator, AddressingMode::AbsoluteY),
            0xA9 => (Instructions::LoadAccumulator, AddressingMode::Immediate),
            0xA1 => (Instructions::LoadAccumulator, AddressingMode::XIndirect),
            0xB1 => (Instructions::LoadAccumulator, AddressingMode::YIndirect),
            0xA5 => (Instructions::LoadAccumulator, AddressingMode::ZeroPage),
            0xB5 => (Instructions::LoadAccumulator, AddressingMode::ZeroPageX),
            0x8D => (Instructions::StoreAccumulator, AddressingMode::Absolute),
            0x9D => (Instructions::StoreAccumulator, AddressingMode::AbsoluteX),
            0x99 => (Instructions::StoreAccumulator, AddressingMode::AbsoluteY),
            0x81 => (Instructions::StoreAccumulator, AddressingMode::XIndirect),
            0x91 => (Instructions::StoreAccumulator, AddressingMode::YIndirect),
            0x85 => (Instructions::StoreAccumulator, AddressingMode::ZeroPage),
            0x95 => (Instructions::StoreAccumulator, AddressingMode::ZeroPageX),
            0xAE => (Instructions::LoadX, AddressingMode::Absolute),
            0xBE => (Instructions::LoadX, AddressingMode::AbsoluteY),
            0xA2 => (Instructions::LoadX, AddressingMode::Immediate),
            0xA6 => (Instructions::LoadX, AddressingMode::ZeroPage),
            0xB6 => (Instructions::LoadX, AddressingMode::ZeroPageY),
            0xAC => (Instructions::LoadY, AddressingMode::Absolute),
            0xBC => (Instructions::LoadY, AddressingMode::AbsoluteX),
            0xA0 => (Instructions::LoadY, AddressingMode::Immediate),
            0xA4 => (Instructions::LoadY, AddressingMode::ZeroPage),
            0xB4 => (Instructions::LoadY, AddressingMode::ZeroPageX),
            0x8E => (Instructions::StoreX, AddressingMode::Absolute),
            0x86 => (Instructions::StoreX, AddressingMode::ZeroPage),
            0x96 => (Instructions::StoreX, AddressingMode::ZeroPageY),
            0x8C => (Instructions::StoreY, AddressingMode::Absolute),
            0x84 => (Instructions::StoreY, AddressingMode::ZeroPage),
            0x94 => (Instructions::StoreY, AddressingMode::ZeroPageX),
            0x9A => (Instructions::XToStackPointer, AddressingMode::Implied),
            0xBA => (Instructions::StackPointerToX, AddressingMode::Implied),
            0x4D => (Instructions::EORAccumulator, AddressingMode::Absolute),
            0x5D => (Instructions::EORAccumulator, AddressingMode::AbsoluteX),
            0x59 => (Instructions::EORAccumulator, AddressingMode::AbsoluteY),
            0x49 => (Instructions::EORAccumulator, AddressingMode::Immediate),
            0x41 => (Instructions::EORAccumulator, AddressingMode::XIndirect),
            0x51 => (Instructions::EORAccumulator, AddressingMode::YIndirect),
            0x45 => (Instructions::EORAccumulator, AddressingMode::ZeroPage),
            0x55 => (Instructions::EORAccumulator, AddressingMode::ZeroPageX),
            0x0D => (Instructions::ORAccumulator, AddressingMode::Absolute),
            0x1D => (Instructions::ORAccumulator, AddressingMode::AbsoluteX),
            0x19 => (Instructions::ORAccumulator, AddressingMode::AbsoluteY),
            0x09 => (Instructions::ORAccumulator, AddressingMode::Immediate),
            0x01 => (Instructions::ORAccumulator, AddressingMode::XIndirect),
            0x11 => (Instructions::ORAccumulator, AddressingMode::YIndirect),
            0x05 => (Instructions::ORAccumulator, AddressingMode::ZeroPage),
            0x15 => (Instructions::ORAccumulator, AddressingMode::ZeroPageX),
            0x2D => (Instructions::ANDAccumulator, AddressingMode::Absolute),
            0x3D => (Instructions::ANDAccumulator, AddressingMode::AbsoluteX),
            0x39 => (Instructions::ANDAccumulator, AddressingMode::AbsoluteY),
            0x29 => (Instructions::ANDAccumulator, AddressingMode::Immediate),
            0x21 => (Instructions::ANDAccumulator, AddressingMode::XIndirect),
            0x31 => (Instructions::ANDAccumulator, AddressingMode::YIndirect),
            0x25 => (Instructions::ANDAccumulator, AddressingMode::ZeroPage),
            0x35 => (Instructions::ANDAccumulator, AddressingMode::ZeroPageX),
            0xCD => (Instructions::CompareAccumulator, AddressingMode::Absolute),
            0xDD => (Instructions::CompareAccumulator, AddressingMode::AbsoluteX),
            0xD9 => (Instructions::CompareAccumulator, AddressingMode::AbsoluteY),
            0xC9 => (Instructions::CompareAccumulator, AddressingMode::Immediate),
            0xC1 => (Instructions::CompareAccumulator, AddressingMode::XIndirect),
            0xD1 => (Instructions::CompareAccumulator, AddressingMode::YIndirect),
            0xC5 => (Instructions::CompareAccumulator, AddressingMode::ZeroPage),
            0xD5 => (Instructions::CompareAccumulator, AddressingMode::ZeroPageX),
            0xEC => (Instructions::CompareX, AddressingMode::Absolute),
            0xE0 => (Instructions::CompareX, AddressingMode::Immediate),
            0xE4 => (Instructions::CompareX, AddressingMode::ZeroPage),
            0xCC => (Instructions::CompareY, AddressingMode::Absolute),
            0xC0 => (Instructions::CompareY, AddressingMode::Immediate),
            0xC4 => (Instructions::CompareY, AddressingMode::ZeroPage),
            0xB0 => (Instructions::BranchOnCarrySet, AddressingMode::Relative),
            0x90 => (Instructions::BranchOnCarryClear, AddressingMode::Relative),
            0xF0 => (Instructions::BranchOnResultZero, AddressingMode::Relative),
            0x30 => (Instructions::BranchOnResultMinus, AddressingMode::Relative),
            0xD0 => (Instructions::BranchNotZero, AddressingMode::Relative),
            0x10 => (Instructions::BranchOnResultPlus, AddressingMode::Relative),
            0x50 => (Instructions::BranchOverflowClear, AddressingMode::Relative),
            0x70 => (Instructions::BranchOnOverflowSet, AddressingMode::Relative),
            0xCA => (Instructions::DecrementX, AddressingMode::Implied),
            0x88 => (Instructions::DecrementY, AddressingMode::Implied),
            0xCE => (Instructions::DecrementMem, AddressingMode::Absolute),
            0xDE => (Instructions::DecrementMem, AddressingMode::AbsoluteX),
            0xC6 => (Instructions::DecrementMem, AddressingMode::ZeroPage),
            0xD6 => (Instructions::DecrementMem, AddressingMode::ZeroPageX),
            0xE8 => (Instructions::IncrementX, AddressingMode::Implied),
            0xC8 => (Instructions::IncrementY, AddressingMode::Implied),
            0xEE => (Instructions::IncrementMem, AddressingMode::Absolute),
            0xFE => (Instructions::IncrementMem, AddressingMode::AbsoluteX),
            0xE6 => (Instructions::IncrementMem, AddressingMode::ZeroPage),
            0xF6 => (Instructions::IncrementMem, AddressingMode::ZeroPageX),
            0x20 => (Instructions::JumpSubroutine, AddressingMode::Absolute),
            0x4C => (Instructions::Jump, AddressingMode::Absolute),
            0x6C => (Instructions::Jump, AddressingMode::Indirect),
            0x68 => (Instructions::PopAccOffStack, AddressingMode::Implied),
            0x28 => (Instructions::PullStatusFromStack, AddressingMode::Implied),
            0x48 => (Instructions::PushAccOnStack, AddressingMode::Implied),
            0x08 => (Instructions::PushStatusOnStack, AddressingMode::Implied),
            0x4A => (Instructions::ShiftOneRight, AddressingMode::Accumulator),
            0x4E => (Instructions::ShiftOneRight, AddressingMode::Absolute),
            0x5E => (Instructions::ShiftOneRight, AddressingMode::AbsoluteX),
            0x46 => (Instructions::ShiftOneRight, AddressingMode::ZeroPage),
            0x56 => (Instructions::ShiftOneRight, AddressingMode::ZeroPageX),
            0x0A => (Instructions::ShiftOneLeft, AddressingMode::Accumulator),
            0x0E => (Instructions::ShiftOneLeft, AddressingMode::Absolute),
            0x1E => (Instructions::ShiftOneLeft, AddressingMode::AbsoluteX),
            0x06 => (Instructions::ShiftOneLeft, AddressingMode::ZeroPage),
            0x16 => (Instructions::ShiftOneLeft, AddressingMode::ZeroPageX),
            0x2A => (Instructions::RotateOneLeft, AddressingMode::Accumulator),
            0x2E => (Instructions::RotateOneLeft, AddressingMode::Absolute),
            0x3E => (Instructions::RotateOneLeft, AddressingMode::AbsoluteX),
            0x26 => (Instructions::RotateOneLeft, AddressingMode::ZeroPage),
            0x36 => (Instructions::RotateOneLeft, AddressingMode::ZeroPageX),
            0x6A => (Instructions::RotateOneRight, AddressingMode::Accumulator),
            0x6E => (Instructions::RotateOneRight, AddressingMode::Absolute),
            0x7E => (Instructions::RotateOneRight, AddressingMode::AbsoluteX),
            0x66 => (Instructions::RotateOneRight, AddressingMode::ZeroPage),
            0x76 => (Instructions::RotateOneRight, AddressingMode::ZeroPageX),
            0x40 => (Instructions::ReturnFromInterrupt, AddressingMode::Implied),
            0x60 => (Instructions::ReturnFromSubroutine, AddressingMode::Implied),
            0xA8 => (Instructions::AccumulatorToY, AddressingMode::Implied),
            0xAA => (Instructions::AccumulatorToX, AddressingMode::Implied),
            0x8A => (Instructions::XToAccumulator, AddressingMode::Implied),
            0x98 => (Instructions::YToAccumulator, AddressingMode::Implied),
            0x6D => (Instructions::AddToAccWithCarry, AddressingMode::Absolute),
            0x7D => (Instructions::AddToAccWithCarry, AddressingMode::AbsoluteX),
            0x79 => (Instructions::AddToAccWithCarry, AddressingMode::AbsoluteY),
            0x69 => (Instructions::AddToAccWithCarry, AddressingMode::Immediate),
            0x61 => (Instructions::AddToAccWithCarry, AddressingMode::XIndirect),
            0x71 => (Instructions::AddToAccWithCarry, AddressingMode::YIndirect),
            0x65 => (Instructions::AddToAccWithCarry, AddressingMode::ZeroPage),
            0x75 => (Instructions::AddToAccWithCarry, AddressingMode::ZeroPageX),
            0x2C => (Instructions::TestBitsAccumulator, AddressingMode::Absolute),
            0x24 => (Instructions::TestBitsAccumulator, AddressingMode::ZeroPage),
            0xED => (Instructions::SubAccWithBorrow, AddressingMode::Absolute),
            0xFD => (Instructions::SubAccWithBorrow, AddressingMode::AbsoluteX),
            0xF9 => (Instructions::SubAccWithBorrow, AddressingMode::AbsoluteY),
            0xE9 => (Instructions::SubAccWithBorrow, AddressingMode::Immediate),
            0xE1 => (Instructions::SubAccWithBorrow, AddressingMode::XIndirect),
            0xF1 => (Instructions::SubAccWithBorrow, AddressingMode::YIndirect),
            0xE5 => (Instructions::SubAccWithBorrow, AddressingMode::ZeroPage),
            0xF5 => (Instructions::SubAccWithBorrow, AddressingMode::ZeroPageX),
            0x0C => (Instructions::NoOperation, AddressingMode::Absolute),
            0x1C | 0x3C | 0x5C | 0x7C | 0xDC | 0xFC => {
                (Instructions::NoOperation, AddressingMode::AbsoluteX)
            },
            0x80 | 0x82 | 0x89 | 0xC2 | 0xE2 => {
                (Instructions::NoOperation, AddressingMode::Immediate)
            },
            0x1A | 0x3A | 0x5A | 0x7A | 0xDA | 0xEA | 0xFA => {
                (Instructions::NoOperation, AddressingMode::Implied)
            },
            0x04 | 0x44 | 0x64 => (Instructions::NoOperation, AddressingMode::ZeroPage),
            0x14 | 0x34 | 0x54 | 0x74 | 0xD4 | 0xF4 => {
                (Instructions::NoOperation, AddressingMode::ZeroPageX)
            },
            0x02 | 0x12 | 0x22 | 0x32 | 0x42 | 0x52 | 0x62 | 0x72 | 0x92 | 0xB2 | 0xD2 | 0xF2 => {
                (Instructions::JAM, AddressingMode::Implied)
            },
            0x00 => (Instructions::ForceBreak, AddressingMode::Implied),
            0xEF => (Instructions::ISC, AddressingMode::Absolute),
            0xFF => (Instructions::ISC, AddressingMode::AbsoluteX),
            0xFB => (Instructions::ISC, AddressingMode::AbsoluteY),
            0xE3 => (Instructions::ISC, AddressingMode::XIndirect),
            0xF3 => (Instructions::ISC, AddressingMode::YIndirect),
            0xE7 => (Instructions::ISC, AddressingMode::ZeroPage),
            0xF7 => (Instructions::ISC, AddressingMode::ZeroPageX),
            0x0F => (Instructions::SLO, AddressingMode::Absolute),
            0x1F => (Instructions::SLO, AddressingMode::AbsoluteX),
            0x1B => (Instructions::SLO, AddressingMode::AbsoluteY),
            0x03 => (Instructions::SLO, AddressingMode::XIndirect),
            0x13 => (Instructions::SLO, AddressingMode::YIndirect),
            0x07 => (Instructions::SLO, AddressingMode::ZeroPage),
            0x17 => (Instructions::SLO, AddressingMode::ZeroPageX),
            0x8F => (Instructions::SAX, AddressingMode::Absolute),
            0x83 => (Instructions::SAX, AddressingMode::XIndirect),
            0x87 => (Instructions::SAX, AddressingMode::ZeroPage),
            0x97 => (Instructions::SAX, AddressingMode::ZeroPageY),
            0xCF => (Instructions::DCP, AddressingMode::Absolute),
            0xDF => (Instructions::DCP, AddressingMode::AbsoluteX),
            0xDB => (Instructions::DCP, AddressingMode::AbsoluteY),
            0xC3 => (Instructions::DCP, AddressingMode::XIndirect),
            0xD3 => (Instructions::DCP, AddressingMode::YIndirect),
            0xC7 => (Instructions::DCP, AddressingMode::ZeroPage),
            0xD7 => (Instructions::DCP, AddressingMode::ZeroPageX),
            0x6B => (Instructions::ARR, AddressingMode::Immediate),
            0x9B => (Instructions::TAS, AddressingMode::AbsoluteY),
            0x8B => (Instructions::ANE, AddressingMode::Immediate),
            0xAF => (Instructions::LAX, AddressingMode::Absolute),
            0xBF => (Instructions::LAX, AddressingMode::AbsoluteY),
            0xA3 => (Instructions::LAX, AddressingMode::XIndirect),
            0xB3 => (Instructions::LAX, AddressingMode::YIndirect),
            0xA7 => (Instructions::LAX, AddressingMode::ZeroPage),
            0xB7 => (Instructions::LAX, AddressingMode::ZeroPageY),
            0x2F => (Instructions::RLA, AddressingMode::Absolute),
            0x3F => (Instructions::RLA, AddressingMode::AbsoluteX),
            0x3B => (Instructions::RLA, AddressingMode::AbsoluteY),
            0x23 => (Instructions::RLA, AddressingMode::XIndirect),
            0x33 => (Instructions::RLA, AddressingMode::YIndirect),
            0x27 => (Instructions::RLA, AddressingMode::ZeroPage),
            0x37 => (Instructions::RLA, AddressingMode::ZeroPageX),
            0x0B | 0x2B => (Instructions::ANC, AddressingMode::Immediate),
            0x4F => (Instructions::SRE, AddressingMode::Absolute),
            0x5F => (Instructions::SRE, AddressingMode::AbsoluteX),
            0x5B => (Instructions::SRE, AddressingMode::AbsoluteY),
            0x43 => (Instructions::SRE, AddressingMode::XIndirect),
            0x53 => (Instructions::SRE, AddressingMode::YIndirect),
            0x47 => (Instructions::SRE, AddressingMode::ZeroPage),
            0x57 => (Instructions::SRE, AddressingMode::ZeroPageX),
            0x6F => (Instructions::RRA, AddressingMode::Absolute),
            0x7F => (Instructions::RRA, AddressingMode::AbsoluteX),
            0x7B => (Instructions::RRA, AddressingMode::AbsoluteY),
            0x63 => (Instructions::RRA, AddressingMode::XIndirect),
            0x73 => (Instructions::RRA, AddressingMode::YIndirect),
            0x67 => (Instructions::RRA, AddressingMode::ZeroPage),
            0x77 => (Instructions::RRA, AddressingMode::ZeroPageX),
            0x4B => (Instructions::ALR, AddressingMode::Immediate),
            0xEB => (Instructions::USBC, AddressingMode::Immediate),
            0xBB => (Instructions::LAS, AddressingMode::AbsoluteY),
            0xAB => (Instructions::LXA, AddressingMode::Immediate),
            0x9F => (Instructions::SHA, AddressingMode::AbsoluteY),
            0x93 => (Instructions::SHA, AddressingMode::YIndirect),
            0xCB => (Instructions::SBX, AddressingMode::Immediate),
            0x9C => (Instructions::SHY, AddressingMode::AbsoluteX),
            0x9E => (Instructions::SHX, AddressingMode::AbsoluteY),
        }
    }

    fn encode_instructions(instruction: Instructions, addressing_mode: AddressingMode) -> (opcode:
        u8) {
        if instruction == Instructions::ANC && addressing_mode == AddressingMode::Immediate {
            assert(decodes_to(0x2B, instruction, addressing_mode)) by {
                reveal(decode_spec);
            }
            return 0x2B;
        }
        let mut candidate: u8 = 0;
        loop
            invariant
                forall|lower: u8| lower < candidate ==> !decodes_to(lower, instruction, addressing_mode),
                !(instruction == Instructions::ANC && addressing_mode == AddressingMode::Immediate),
            decreases 255 - candidate,
        {
            let (op, mode) = Self::decode_instruction(candidate);
            if op == instruction && mode == addressing_mode {
                proof {
                    lemma_lowest_opcode(instruction, addressing_mode, candidate);
                    lemma_anc_is_immediate(candidate);
                }
                return candidate;
            }
            if candidate == 255 {
                return JAM_OPCODE;
            }
            candidate = candidate + 1;
        }
    }
}

/// An opcode that stands for a pair, with none below it that does, is the
/// pair's lowest opcode.
pub proof fn lemma_lowest_opcode(op: Instructions, mode: AddressingMode, opcode: u8)
    requires
        decodes_to(opcode, op, mode),
        forall|lower: u8| lower < opcode ==> !decodes_to(lower, op, mode),
    ensures
        is_encodable(op, mode),
        lowest_opcode(op, mode) == opcode,
{
    assert(forall|other: u8| decodes_to(other, op, mode) ==> opcode <= other);
    let chosen = lowest_opcode(op, mode);
    assert(decodes_to(chosen, op, mode));
    assert(decodes_to(opcode, op, mode) ==> chosen <= opcode);
}

/// A pair that some opcode stands for has a lowest opcode.
pub proof fn lemma_lowest_opcode_exists(op: Instructions, mode: AddressingMode, opcode: u8)
    requires
        decodes_to(opcode, op, mode),
    ensures
        decodes_to(lowest_opcode(op, mode), op, mode),
        lowest_opcode(op, mode) <= opcode,
    decreases opcode,
{
    if exists|lower: u8| lower < opcode && decodes_to(lower, op, mode) {
        let lower = choose|lower: u8| lower < opcode && decodes_to(lower, op, mode);
        lemma_lowest_opcode_exists(op, mode, lower);
    } else {
        lemma_lowest_opcode(op, mode, opcode);
    }
}

/// Encoding, then decoding, gives back every pair that has an opcode.
pub proof fn lemma_decode_encode(op: Instructions, mode: AddressingMode)
    requires
        is_encodable(op, mode),
    ensures
        decode_spec(encode_spec(op, mode)) == (op, mode),
{
    let opcode = choose|opcode: u8| decodes_to(opcode, op, mode);
    if op == Instructions::ANC {
        lemma_anc_is_immediate(opcode);
        reveal(decode_spec);
    } else {
        lemma_lowest_opcode_exists(op, mode, opcode);
    }
}

/// Decoding, then encoding, then decoding again gives what the first
/// decoding gave: the encoder picks one of the opcodes that mean the same.
pub proof fn lemma_encode_decode(opcode: u8)
    ensures
        decode_spec(encode_spec(decode_spec(opcode).0, decode_spec(opcode).1)) == decode_spec(
            opcode,
        ),
{
    let (op, mode) = decode_spec(opcode);
    assert(decodes_to(opcode, op, mode));
    lemma_decode_encode(op, mode);
}

/// A pair that no opcode stands for is encoded as a halt.
pub proof fn lemma_encode_sentinel(op: Instructions, mode: AddressingMode)
    requires
        !is_encodable(op, mode),
    ensures
        encode_spec(op, mode) == JAM_OPCODE,
        decode_spec(JAM_OPCODE) == (Instructions::JAM, AddressingMode::Implied),
{
    reveal(decode_spec);
}

/// Whether any opcode stands for the pair: whether encoding it and
/// decoding the result gives it back.
pub fn can_encode(op: Instructions, mode: AddressingMode) -> (encodable: bool)
    ensures
        encodable == is_encodable(op, mode),
{
    let opcode: u8 = NesCpu::encode_instructions(op, mode);
    let (decoded_op, decoded_mode) = NesCpu::decode_instruction(opcode);
    proof {
        if is_encodable(op, mode) {
            lemma_decode_encode(op, mode);
        } else {
            lemma_encode_sentinel(op, mode);
            assert(decodes_to(JAM_OPCODE, Instructions::JAM, AddressingMode::Implied));
        }
    }
    decoded_op == op && decoded_mode == mode
}

/// `ANC` has the immediate mode only.
pub proof fn lemma_anc_is_immediate(opcode: u8)
    ensures
        decode_spec(opcode).0 == Instructions::ANC ==> decode_spec(opcode).1
            == AddressingMode::Immediate,
{
    reveal(decode_spec);
}

} // verus!
