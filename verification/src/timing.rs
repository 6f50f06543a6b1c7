//! The clock cycles that instructions take.

use vstd::prelude::*;
use crate::alu::{branch_address, branch_target, wrap16};
use crate::cpu::NesCpu;
use crate::instructions::{AddressingMode, Instructions};
use crate::machine::Machine;

verus! {

/// Whether two addresses lie in different pages of 256 bytes.
pub open spec fn crosses_page(from: u16, to: u16) -> bool {
    from / 256 != to / 256
}

/// Clock cycles of an operation that reads its operand and keeps the
/// result in a register. Indexing across a page boundary costs one more.
pub open spec fn read_cycles(mode: AddressingMode, crossed: bool) -> nat {
    match mode {
        AddressingMode::ZeroPage => 3,
        AddressingMode::ZeroPageX | AddressingMode::ZeroPageY | AddressingMode::Absolute => 4,
        AddressingMode::AbsoluteX | AddressingMode::AbsoluteY => if crossed {
            5
        } else {
            4
        },
        AddressingMode::XIndirect => 6,
        AddressingMode::YIndirect => if crossed {
            6
        } else {
            5
        },
        _ => 2,
    }
}

/// Clock cycles of an operation that writes a register to memory.
pub open spec fn write_cycles(mode: AddressingMode) -> nat {
    match mode {
        AddressingMode::ZeroPage => 3,
        AddressingMode::ZeroPageX | AddressingMode::ZeroPageY | AddressingMode::Absolute => 4,
        AddressingMode::AbsoluteX | AddressingMode::AbsoluteY => 5,
        AddressingMode::XIndirect | AddressingMode::YIndirect => 6,
        _ => 2,
    }
}

/// Clock cycles of an operation that reads a cell, changes the value and
/// writes it back.
pub open spec fn modify_cycles(mode: AddressingMode) -> nat {
    match mode {
        AddressingMode::ZeroPage => 5,
        AddressingMode::ZeroPageX | AddressingMode::ZeroPageY | AddressingMode::Absolute => 6,
        AddressingMode::AbsoluteX | AddressingMode::AbsoluteY => 7,
        AddressingMode::XIndirect | AddressingMode::YIndirect => 8,
        _ => 2,
    }
}

/// The tick counter after `cycles` more clock cycles. It starts again from
/// zero when it has reached the largest value it can hold.
pub open spec fn ticks_after(tick: usize, cycles: nat) -> usize {
    if tick + cycles > usize::MAX {
        (tick + cycles - usize::MAX - 1) as usize
    } else {
        (tick + cycles) as usize
    }
}

impl Machine {
    /// Whether the index register takes the address of the current
    /// instruction into another page than the one it started from.
    pub open spec fn index_crosses_page(self) -> bool {
        match self.current.mode {
            AddressingMode::AbsoluteX | AddressingMode::AbsoluteY => crosses_page(
                self.next_word(),
                self.get_mode_address(),
            ),
            AddressingMode::YIndirect => crosses_page(
                self.read_pointer(self.next_byte() as u16),
                self.get_mode_address(),
            ),
            _ => false,
        }
    }

    /// The clock cycles that the current instruction takes, as the cycle
    /// tables of the processor give them. A branch takes one cycle more
    /// when it is taken, and another when its target lies in another page
    /// than the instruction after it. An instruction that stops the
    /// machine takes none.
    #[verifier::opaque]
    pub open spec fn cycles(self) -> nat {
        match self.current.op {
            Instructions::LoadAccumulator
            | Instructions::LoadX
            | Instructions::LoadY
            | Instructions::EORAccumulator
            | Instructions::ORAccumulator
            | Instructions::ANDAccumulator
            | Instructions::AddToAccWithCarry
            | Instructions::SubAccWithBorrow
            | Instructions::CompareAccumulator
            | Instructions::CompareX
            | Instructions::CompareY
            | Instructions::TestBitsAccumulator
            | Instructions::NoOperation
            | Instructions::LAX
            | Instructions::LAS
            | Instructions::LXA
            | Instructions::ANC
            | Instructions::ALR
            | Instructions::ARR
            | Instructions::ANE
            | Instructions::SBX
            | Instructions::USBC => read_cycles(self.current.mode, self.index_crosses_page()),
            Instructions::StoreAccumulator
            | Instructions::StoreX
            | Instructions::StoreY
            | Instructions::SAX
            | Instructions::SHA
            | Instructions::SHX
            | Instructions::SHY
            | Instructions::TAS => write_cycles(self.current.mode),
            Instructions::ShiftOneLeft
            | Instructions::ShiftOneRight
            | Instructions::RotateOneLeft
            | Instructions::RotateOneRight
            | Instructions::IncrementMem
            | Instructions::DecrementMem
            | Instructions::SLO
            | Instructions::RLA
            | Instructions::SRE
            | Instructions::RRA
            | Instructions::DCP
            | Instructions::ISC => modify_cycles(self.current.mode),
            Instructions::SetInterruptDisable
            | Instructions::ClearInterruptDisable
            | Instructions::SetDecimalMode
            | Instructions::ClearDecimalMode
            | Instructions::ClearOverflow
            | Instructions::SetCarry
            | Instructions::ClearCarry
            | Instructions::XToStackPointer
            | Instructions::StackPointerToX
            | Instructions::AccumulatorToX
            | Instructions::AccumulatorToY
            | Instructions::XToAccumulator
            | Instructions::YToAccumulator
            | Instructions::IncrementX
            | Instructions::IncrementY
            | Instructions::DecrementX
            | Instructions::DecrementY => 2,
            Instructions::PushAccOnStack | Instructions::PushStatusOnStack => 3,
            Instructions::PopAccOffStack | Instructions::PullStatusFromStack => 4,
            Instructions::Jump => if self.current.mode == AddressingMode::Indirect {
                5
            } else {
                3
            },
            Instructions::JumpSubroutine
            | Instructions::ReturnFromSubroutine
            | Instructions::ReturnFromInterrupt => 6,
            Instructions::ForceBreak => 7,
            Instructions::BranchOnCarrySet
            | Instructions::BranchOnCarryClear
            | Instructions::BranchOnResultZero
            | Instructions::BranchOnResultMinus
            | Instructions::BranchNotZero
            | Instructions::BranchOnResultPlus
            | Instructions::BranchOverflowClear
            | Instructions::BranchOnOverflowSet => if !self.branch_condition() {
                2
            } else if crosses_page(
                wrap16(self.reg.pc + 2),
                branch_target(self.reg.pc, self.next_byte()),
            ) {
                4
            } else {
                3
            },
            Instructions::JAM | Instructions::MissingOperation => 0,
        }
    }

    /// The machine after `cycles` more clock cycles have passed.
    pub open spec fn elapse(self, cycles: nat) -> Machine {
        Machine { tick: ticks_after(self.tick, cycles), ..self }
    }
}

/// No instruction takes more than eight clock cycles. Those that stop the
/// machine take none and leave the tick counter as it is; every other
/// takes two at least.
pub proof fn lemma_cycles_bounds(m: Machine)
    ensures
        m.cycles() <= 8,
        m.current.op != Instructions::JAM && m.current.op != Instructions::MissingOperation
            ==> m.cycles() >= 2,
        m.current.op == Instructions::JAM || m.current.op == Instructions::MissingOperation
            ==> m.cycles() == 0,
        m.elapse(0) == m,
{
    reveal(Machine::cycles);
}

impl NesCpu {
    fn index_crosses_page(&self) -> (crossed: bool)
        ensures
            crossed == self@.index_crosses_page(),
    {
        match self.current.mode {
            AddressingMode::AbsoluteX | AddressingMode::AbsoluteY => {
                let base: u16 = self.next_word();
                let indexed: u16 = self.get_mode_address();
                base / 256 != indexed / 256
            },
            AddressingMode::YIndirect => {
                let base: u16 = self.read_pointer(self.next_byte() as u16);
                let indexed: u16 = self.get_mode_address();
                base / 256 != indexed / 256
            },
            _ => false,
        }
    }

    /// The clock cycles that the current instruction takes.
    pub fn cycles(&self) -> (cycles: usize)
        ensures
            cycles == self@.cycles(),
    {
        reveal(Machine::cycles);
        let mode = self.current.mode;
        match self.current.op {
            Instructions::LoadAccumulator
            | Instructions::LoadX
            | Instructions::LoadY
            | Instructions::EORAccumulator
            | Instructions::ORAccumulator
            | Instructions::ANDAccumulator
            | Instructions::AddToAccWithCarry
            | Instructions::SubAccWithBorrow
            | Instructions::CompareAccumulator
            | Instructions::CompareX
            | Instructions::CompareY
            | Instructions::TestBitsAccumulator
            | Instructions::NoOperation
            | Instructions::LAX
            | Instructions::LAS
            | Instructions::LXA
            | Instructions::ANC
            | Instructions::ALR
            | Instructions::ARR
            | Instructions::ANE
            | Instructions::SBX
            | Instructions::USBC => {
                let crossed = self.index_crosses_page();
                match mode {
                    AddressingMode::ZeroPage => 3,
                    AddressingMode::ZeroPageX
                    | AddressingMode::ZeroPageY
                    | AddressingMode::Absolute => 4,
                    AddressingMode::AbsoluteX | AddressingMode::AbsoluteY => if crossed {
                        5
                    } else {
                        4
                    },
                    AddressingMode::XIndirect => 6,
                    AddressingMode::YIndirect => if crossed {
                        6
                    } else {
                        5
                    },
                    _ => 2,
                }
            },
            Instructions::StoreAccumulator
            | Instructions::StoreX
            | Instructions::StoreY
            | Instructions::SAX
            | Instructions::SHA
            | Instructions::SHX
            | Instructions::SHY
            | Instructions::TAS => match mode {
                AddressingMode::ZeroPage => 3,
                AddressingMode::ZeroPageX
                | AddressingMode::ZeroPageY
                | AddressingMode::Absolute => 4,
                AddressingMode::AbsoluteX | AddressingMode::AbsoluteY => 5,
                AddressingMode::XIndirect | AddressingMode::YIndirect => 6,
                _ => 2,
            },
            Instructions::ShiftOneLeft
            | Instructions::ShiftOneRight
            | Instructions::RotateOneLeft
            | Instructions::RotateOneRight
            | Instructions::IncrementMem
            | Instructions::DecrementMem
            | Instructions::SLO
            | Instructions::RLA
            | Instructions::SRE
            | Instructions::RRA
            | Instructions::DCP
            | Instructions::ISC => match mode {
                AddressingMode::ZeroPage => 5,
                AddressingMode::ZeroPageX
                | AddressingMode::ZeroPageY
                | AddressingMode::Absolute => 6,
                AddressingMode::AbsoluteX | AddressingMode::AbsoluteY => 7,
                AddressingMode::XIndirect | AddressingMode::YIndirect => 8,
                _ => 2,
            },
            Instructions::PushAccOnStack | Instructions::PushStatusOnStack => 3,
            Instructions::PopAccOffStack | Instructions::PullStatusFromStack => 4,
            Instructions::Jump => if mode == AddressingMode::Indirect {
                5
            } else {
                3
            },
            Instructions::JumpSubroutine
            | Instructions::ReturnFromSubroutine
            | Instructions::ReturnFromInterrupt => 6,
            Instructions::ForceBreak => 7,
            Instructions::BranchOnCarrySet
            | Instructions::BranchOnCarryClear
            | Instructions::BranchOnResultZero
            | Instructions::BranchOnResultMinus
            | Instructions::BranchNotZero
            | Instructions::BranchOnResultPlus
            | Instructions::BranchOverflowClear
            | Instructions::BranchOnOverflowSet => {
                if !self.branch_condition() {
                    2
                } else {
                    let after: u16 = self.reg.pc.wrapping_add(2);
                    let target: u16 = branch_address(self.reg.pc, self.next_byte());
                    if after / 256 != target / 256 {
                        4
                    } else {
                        3
                    }
                }
            },
            Instructions::JAM | Instructions::MissingOperation => 0,
            _ => 2,
        }
    }
}

} // verus!
