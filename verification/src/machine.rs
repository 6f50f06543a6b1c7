//! What the processor does, as mathematics: the state of registers and
//! memory as one value, and the meaning of every instruction as a function
//! from one such value to the next.

use vstd::prelude::*;
use crate::alu::{
    add_with_carry,
    branch_target,
    compare,
    decremented,
    incremented,
    is_negative,
    rotate_left,
    rotate_right,
    shift_left,
    shift_right,
    subtract_with_borrow,
    wrap16,
    wrap8,
    Comparison,
    Sum,
};
use crate::cpu::{CPUFlags, CpuState, Registers};
use crate::instructions::{
    decode_spec,
    is_encodable,
    AddressingMode,
    CurrentInstruction,
    Instructions,
};
use crate::memory::{
    bus_read,
    bus_read_word,
    bus_write,
    bus_write_bytes,
    next_address,
    MEMORY_SIZE,
};
use crate::word_of;

verus! {

/// The processor and its memory as one mathematical value. What an
/// instruction does is a function from one such value to the next.
#[verifier::ext_equal]
pub struct Machine {
    pub memory: Seq<u8>,
    pub reg: Registers,
    pub current: CurrentInstruction,
    pub tick: usize,
    pub state: CpuState,
}

/// Where a program is loaded: the start of the cartridge window.
pub const PROGRAM_START: u16 = 0x8000;

/// Where the second bank of a cartridge is mapped.
pub const UPPER_BANK_START: u16 = 0xC000;

/// Where the vector of `BRK` and of the interrupt request lies.
pub const IRQ_VECTOR: u16 = 0xFFFE;

/// The address of the stack cell that the stack pointer `sp` names.
pub open spec fn stack_address(sp: u8) -> u16 {
    (0x0100 + sp) as u16
}

/// The address after `address` within the same page of 256 bytes: after the
/// last address of a page comes the first of that page.
pub open spec fn next_in_page(address: u16) -> u16 {
    ((address / 256) * 256 + (address % 256 + 1) % 256) as u16
}

impl Machine {
    /// The machine after a reset, with zero in every memory cell: it runs,
    /// and holds a halt as its current instruction.
    pub open spec fn reset() -> Machine {
        Machine {
            memory: Seq::new(MEMORY_SIZE as nat, |at: int| 0u8),
            reg: Registers::reset(),
            current: CurrentInstruction { op: Instructions::JAM, mode: AddressingMode::Implied },
            tick: 0,
            state: CpuState::Running,
        }
    }

    /// There is one memory cell for each address.
    pub open spec fn wf(self) -> bool {
        self.memory.len() == MEMORY_SIZE
    }

    pub open spec fn read(self, address: u16) -> u8 {
        bus_read(self.memory, address)
    }

    pub open spec fn read_word(self, address: u16) -> u16 {
        bus_read_word(self.memory, address)
    }

    /// The word that a pointer at `address` holds. The processor never
    /// carries into the high byte of the pointer's own address, so the
    /// second byte of a pointer in the last cell of a page is taken from the
    /// first cell of the same page.
    pub open spec fn read_pointer(self, address: u16) -> u16 {
        word_of(self.read(next_in_page(address)), self.read(address))
    }

    pub open spec fn write(self, address: u16, byte: u8) -> Machine {
        Machine { memory: bus_write(self.memory, address, byte), ..self }
    }

    /// The machine with `data` in memory from `PROGRAM_START` upwards and
    /// the program counter at `PROGRAM_START`.
    pub open spec fn load_bytes(self, data: Seq<u8>) -> Machine {
        Machine { memory: bus_write_bytes(self.memory, PROGRAM_START, data), ..self }.set_pc(
            PROGRAM_START,
        )
    }

    /// The machine with the bank `lower` in memory from `PROGRAM_START` and
    /// the bank `upper` from `UPPER_BANK_START` upwards, and the program
    /// counter at `UPPER_BANK_START`.
    pub open spec fn load_banks(self, lower: Seq<u8>, upper: Seq<u8>) -> Machine {
        Machine {
            memory: bus_write_bytes(
                bus_write_bytes(self.memory, PROGRAM_START, lower),
                UPPER_BANK_START,
                upper,
            ),
            ..self
        }.set_pc(UPPER_BANK_START)
    }

    // ------------------------------------------------------------------
    // Registers
    // ------------------------------------------------------------------
    pub open spec fn set_pc(self, pc: u16) -> Machine {
        Machine { reg: Registers { pc, ..self.reg }, ..self }
    }

    pub open spec fn with_sp(self, sp: u8) -> Machine {
        Machine { reg: Registers { sp, ..self.reg }, ..self }
    }

    pub open spec fn with_accumulator(self, accumulator: u8) -> Machine {
        Machine { reg: Registers { accumulator, ..self.reg }, ..self }
    }

    pub open spec fn with_idx(self, idx: u8) -> Machine {
        Machine { reg: Registers { idx, ..self.reg }, ..self }
    }

    pub open spec fn with_idy(self, idy: u8) -> Machine {
        Machine { reg: Registers { idy, ..self.reg }, ..self }
    }

    pub open spec fn with_flags(self, flags: CPUFlags) -> Machine {
        Machine { reg: Registers { flags, ..self.reg }, ..self }
    }

    pub open spec fn with_carry(self, carry: bool) -> Machine {
        self.with_flags(CPUFlags { carry, ..self.reg.flags })
    }

    pub open spec fn with_overflow(self, overflow: bool) -> Machine {
        self.with_flags(CPUFlags { overflow, ..self.reg.flags })
    }

    /// Sets the zero flag if `value` is zero, and the negative flag to bit 7
    /// of `value`.
    pub open spec fn update_zero_and_negative(self, value: u8) -> Machine {
        self.with_flags(
            CPUFlags { zero: value == 0, negative: is_negative(value), ..self.reg.flags },
        )
    }

    /// Sets carry, zero and negative as a comparison found them.
    pub open spec fn with_comparison(self, found: Comparison) -> Machine {
        self.with_flags(
            CPUFlags {
                carry: found.carry,
                zero: found.zero,
                negative: found.negative,
                ..self.reg.flags
            },
        )
    }

    /// Takes the accumulator, carry, overflow, zero and negative from a sum.
    pub open spec fn with_sum(self, sum: Sum) -> Machine {
        self.with_accumulator(sum.value).with_carry(sum.carry).with_overflow(
            sum.overflow,
        ).update_zero_and_negative(sum.value)
    }

    /// Moves the program counter past the current instruction.
    pub open spec fn next(self) -> Machine {
        self.set_pc(wrap16(self.reg.pc + self.current.mode.increment()))
    }

    pub open spec fn halt(self) -> Machine {
        Machine { state: CpuState::Halted, ..self }
    }

    pub open spec fn fault(self) -> Machine {
        Machine { state: CpuState::Faulted, ..self }
    }

    // ------------------------------------------------------------------
    // The operand of the current instruction
    // ------------------------------------------------------------------
    /// The byte that follows the opcode.
    pub open spec fn next_byte(self) -> u8 {
        self.read(next_address(self.reg.pc))
    }

    /// The little-endian word that follows the opcode.
    pub open spec fn next_word(self) -> u16 {
        self.read_word(next_address(self.reg.pc))
    }

    /// The address that the current instruction works on, as its addressing
    /// mode finds it. Indexing never leaves the zero page in the zero-page
    /// modes, nor the 16 bits of an address in the others. A mode without an
    /// address gives zero.
    pub open spec fn get_mode_address(self) -> u16 {
        match self.current.mode {
            AddressingMode::ZeroPage => self.next_byte() as u16,
            AddressingMode::ZeroPageX => wrap8(self.next_byte() + self.reg.idx) as u16,
            AddressingMode::ZeroPageY => wrap8(self.next_byte() + self.reg.idy) as u16,
            AddressingMode::Absolute => self.next_word(),
            AddressingMode::AbsoluteX => wrap16(self.next_word() + self.reg.idx),
            AddressingMode::AbsoluteY => wrap16(self.next_word() + self.reg.idy),
            AddressingMode::XIndirect => self.get_indirect_x(),
            AddressingMode::YIndirect => self.get_indirect_y(),
            AddressingMode::Indirect => self.read_pointer(self.next_word()),
            AddressingMode::Implied
            | AddressingMode::Immediate
            | AddressingMode::Accumulator
            | AddressingMode::Relative => 0,
        }
    }

    /// The address held by the zero-page pointer at the operand byte plus X.
    pub open spec fn get_indirect_x(self) -> u16 {
        self.read_pointer(wrap8(self.next_byte() + self.reg.idx) as u16)
    }

    /// The address held by the zero-page pointer at the operand byte, plus Y.
    pub open spec fn get_indirect_y(self) -> u16 {
        wrap16(self.read_pointer(self.next_byte() as u16) + self.reg.idy)
    }

    /// The byte that the current instruction works on: the byte after the
    /// opcode in immediate mode, the accumulator in accumulator mode, else
    /// the byte read at the effective address.
    pub open spec fn operand(self) -> u8 {
        match self.current.mode {
            AddressingMode::Immediate => self.next_byte(),
            AddressingMode::Accumulator => self.reg.accumulator,
            _ => self.read(self.get_mode_address()),
        }
    }

    /// Puts `value` where the operand came from: into the accumulator in
    /// accumulator mode, else into memory at the effective address.
    pub open spec fn store_result(self, value: u8) -> Machine {
        match self.current.mode {
            AddressingMode::Accumulator => self.with_accumulator(value),
            _ => self.write(self.get_mode_address(), value),
        }
    }

    /// High byte of the address before indexing, plus one: what the
    /// unstable store operations mask their value with.
    pub open spec fn high_byte_plus_one(self) -> u8 {
        let base = match self.current.mode {
            AddressingMode::YIndirect => self.read_pointer(self.next_byte() as u16),
            _ => self.next_word(),
        };
        wrap8(base / 256 + 1)
    }

    // ------------------------------------------------------------------
    // The stack
    // ------------------------------------------------------------------
    /// Stores `data` under the stack pointer, which then moves down by one
    /// and from the bottom of the stack page on to its top.
    pub open spec fn push_stack(self, data: u8) -> Machine {
        self.write(stack_address(self.reg.sp), data).with_sp(wrap8(self.reg.sp - 1))
    }

    /// Pushes the high byte of `data`, then its low byte.
    pub open spec fn push_stack_u16(self, data: u16) -> Machine {
        self.push_stack((data / 256) as u8).push_stack((data % 256) as u8)
    }

    /// The byte that the next pop takes off the stack.
    pub open spec fn stack_top(self) -> u8 {
        self.read(stack_address(wrap8(self.reg.sp + 1)))
    }

    /// The machine after a pop: the stack pointer moves up by one and from
    /// the top of the stack page on to its bottom.
    pub open spec fn pop_stack(self) -> Machine {
        self.with_sp(wrap8(self.reg.sp + 1))
    }

    /// The word that the next two pops take off the stack, low byte first.
    pub open spec fn stack_top_u16(self) -> u16 {
        word_of(self.pop_stack().stack_top(), self.stack_top())
    }

    pub open spec fn pop_stack_u16(self) -> Machine {
        self.pop_stack().pop_stack()
    }

    // ------------------------------------------------------------------
    // The official operations
    // ------------------------------------------------------------------
    /// `SEI` and `CLI`.
    #[verifier::opaque]
    pub open spec fn set_interrupts_disabled(self, status: bool) -> Machine {
        self.with_flags(CPUFlags { interrupt_disable: status, ..self.reg.flags }).next()
    }

    /// `SED` and `CLD`. The flag is kept; the adder never looks at it.
    #[verifier::opaque]
    pub open spec fn set_decimal(self, status: bool) -> Machine {
        self.with_flags(CPUFlags { decimal: status, ..self.reg.flags }).next()
    }

    /// `SEC` and `CLC`.
    #[verifier::opaque]
    pub open spec fn set_carry(self, status: bool) -> Machine {
        self.with_carry(status).next()
    }

    /// `CLV`.
    #[verifier::opaque]
    pub open spec fn set_overflow(self, status: bool) -> Machine {
        self.with_overflow(status).next()
    }

    /// `LDA`, `LDX`, `LDY`: the operand goes to the register, and zero and
    /// negative follow it.
    #[verifier::opaque]
    pub open spec fn load_register(self) -> Machine {
        let value = self.operand();
        let loaded = match self.current.op {
            Instructions::LoadAccumulator => self.with_accumulator(value),
            Instructions::LoadX => self.with_idx(value),
            Instructions::LoadY => self.with_idy(value),
            _ => self,
        };
        loaded.update_zero_and_negative(value).next()
    }

    /// `STA`, `STX`, `STY`: the register goes to memory. No flag changes.
    #[verifier::opaque]
    pub open spec fn store_register(self) -> Machine {
        let value = match self.current.op {
            Instructions::StoreAccumulator => self.reg.accumulator,
            Instructions::StoreX => self.reg.idx,
            Instructions::StoreY => self.reg.idy,
            _ => 0,
        };
        self.write(self.get_mode_address(), value).next()
    }

    /// `TXA` and `TYA`: an index register goes to the accumulator, and zero
    /// and negative follow it.
    #[verifier::opaque]
    pub open spec fn reg_to_a(self) -> Machine {
        let value = match self.current.op {
            Instructions::XToAccumulator => self.reg.idx,
            Instructions::YToAccumulator => self.reg.idy,
            _ => self.reg.accumulator,
        };
        self.with_accumulator(value).update_zero_and_negative(value).next()
    }

    /// `TAX` and `TAY`: the accumulator goes to an index register, and zero
    /// and negative follow it.
    #[verifier::opaque]
    pub open spec fn a_to_reg(self) -> Machine {
        let value = self.reg.accumulator;
        let moved = match self.current.op {
            Instructions::AccumulatorToX => self.with_idx(value),
            Instructions::AccumulatorToY => self.with_idy(value),
            _ => self,
        };
        moved.update_zero_and_negative(value).next()
    }

    /// `TSX`: the stack pointer goes to X, and zero and negative follow it.
    #[verifier::opaque]
    pub open spec fn stack_pointer_to_x(self) -> Machine {
        self.with_idx(self.reg.sp).update_zero_and_negative(self.reg.sp).next()
    }

    /// `TXS`: X goes to the stack pointer. No flag changes.
    #[verifier::opaque]
    pub open spec fn x_to_stack_pointer(self) -> Machine {
        self.with_sp(self.reg.idx).next()
    }

    /// `BIT`: zero tells whether accumulator and operand share no bit;
    /// negative and overflow are bits 7 and 6 of the operand.
    #[verifier::opaque]
    pub open spec fn test_bit(self) -> Machine {
        let operand = self.operand();
        self.with_flags(
            CPUFlags {
                zero: self.reg.accumulator & operand == 0,
                negative: is_negative(operand),
                overflow: (operand / 64) % 2 == 1,
                ..self.reg.flags
            },
        ).next()
    }

    /// `INX` and `INY`.
    #[verifier::opaque]
    pub open spec fn increase_register(self) -> Machine {
        match self.current.op {
            Instructions::IncrementX => {
                let value = incremented(self.reg.idx);
                self.with_idx(value).update_zero_and_negative(value).next()
            },
            Instructions::IncrementY => {
                let value = incremented(self.reg.idy);
                self.with_idy(value).update_zero_and_negative(value).next()
            },
            _ => self.next(),
        }
    }

    /// `DEX` and `DEY`.
    #[verifier::opaque]
    pub open spec fn decrease_register(self) -> Machine {
        match self.current.op {
            Instructions::DecrementX => {
                let value = decremented(self.reg.idx);
                self.with_idx(value).update_zero_and_negative(value).next()
            },
            Instructions::DecrementY => {
                let value = decremented(self.reg.idy);
                self.with_idy(value).update_zero_and_negative(value).next()
            },
            _ => self.next(),
        }
    }

    /// `INC`.
    #[verifier::opaque]
    pub open spec fn increment_mem(self) -> Machine {
        let value = incremented(self.operand());
        self.store_result(value).update_zero_and_negative(value).next()
    }

    /// `DEC`.
    #[verifier::opaque]
    pub open spec fn decrement_mem(self) -> Machine {
        let value = decremented(self.operand());
        self.store_result(value).update_zero_and_negative(value).next()
    }

    /// `ASL`.
    #[verifier::opaque]
    pub open spec fn shift_one_left(self) -> Machine {
        let shifted = shift_left(self.operand());
        self.store_result(shifted.value).with_carry(shifted.carry).update_zero_and_negative(
            shifted.value,
        ).next()
    }

    /// `LSR`.
    #[verifier::opaque]
    pub open spec fn shift_one_right(self) -> Machine {
        let shifted = shift_right(self.operand());
        self.store_result(shifted.value).with_carry(shifted.carry).update_zero_and_negative(
            shifted.value,
        ).next()
    }

    /// `ROL`, and `ROR` for every other operation: the carry enters at one
    /// end of the operand, and the bit that leaves at the other becomes the
    /// carry.
    #[verifier::opaque]
    pub open spec fn rotate(self) -> Machine {
        let shifted = if self.current.op == Instructions::RotateOneLeft {
            rotate_left(self.operand(), self.reg.flags.carry)
        } else {
            rotate_right(self.operand(), self.reg.flags.carry)
        };
        self.store_result(shifted.value).with_carry(shifted.carry).update_zero_and_negative(
            shifted.value,
        ).next()
    }

    /// `AND`.
    #[verifier::opaque]
    pub open spec fn and(self) -> Machine {
        let value = self.reg.accumulator & self.operand();
        self.with_accumulator(value).update_zero_and_negative(value).next()
    }

    /// `ORA`.
    #[verifier::opaque]
    pub open spec fn or(self) -> Machine {
        let value = self.reg.accumulator | self.operand();
        self.with_accumulator(value).update_zero_and_negative(value).next()
    }

    /// `EOR`.
    #[verifier::opaque]
    pub open spec fn eor(self) -> Machine {
        let value = self.reg.accumulator ^ self.operand();
        self.with_accumulator(value).update_zero_and_negative(value).next()
    }

    /// `ADC`.
    #[verifier::opaque]
    pub open spec fn add_mem_to_accumulator_with_carry(self) -> Machine {
        self.with_sum(
            add_with_carry(self.reg.accumulator, self.operand(), self.reg.flags.carry),
        ).next()
    }

    /// `SBC`, and `USBC`, which does the same.
    #[verifier::opaque]
    pub open spec fn subtract_accumulator_with_borrow(self) -> Machine {
        self.with_sum(
            subtract_with_borrow(self.reg.accumulator, self.operand(), self.reg.flags.carry),
        ).next()
    }

    /// `CMP`, `CPX`, `CPY`: the flags tell how the register stands to the
    /// operand. The register keeps its value.
    #[verifier::opaque]
    pub open spec fn compare_register(self) -> Machine {
        let register = match self.current.op {
            Instructions::CompareX => self.reg.idx,
            Instructions::CompareY => self.reg.idy,
            _ => self.reg.accumulator,
        };
        self.with_comparison(compare(register, self.operand())).next()
    }

    /// Whether the flags meet the condition of the current branch.
    pub open spec fn branch_condition(self) -> bool {
        match self.current.op {
            Instructions::BranchOnResultMinus => self.reg.flags.negative,
            Instructions::BranchOnResultPlus => !self.reg.flags.negative,
            Instructions::BranchOnResultZero => self.reg.flags.zero,
            Instructions::BranchNotZero => !self.reg.flags.zero,
            Instructions::BranchOnOverflowSet => self.reg.flags.overflow,
            Instructions::BranchOverflowClear => !self.reg.flags.overflow,
            Instructions::BranchOnCarrySet => self.reg.flags.carry,
            Instructions::BranchOnCarryClear => !self.reg.flags.carry,
            _ => false,
        }
    }

    /// The eight conditional branches: where the condition holds, the
    /// program counter goes to the address after the branch plus the signed
    /// offset; where not, to the address after the branch.
    #[verifier::opaque]
    pub open spec fn branch(self) -> Machine {
        if self.branch_condition() {
            self.set_pc(branch_target(self.reg.pc, self.next_byte()))
        } else {
            self.next()
        }
    }

    /// `JMP`, absolute and indirect.
    #[verifier::opaque]
    pub open spec fn jump(self) -> Machine {
        self.set_pc(self.get_mode_address())
    }

    /// `JSR`: pushes the address of the last byte of the instruction, high
    /// byte first, and goes to the target.
    #[verifier::opaque]
    pub open spec fn jump_subroutine(self) -> Machine {
        self.push_stack_u16(wrap16(self.reg.pc + 2)).set_pc(self.get_mode_address())
    }

    /// `RTS`: pops an address, low byte first, and goes to the one after it.
    #[verifier::opaque]
    pub open spec fn return_from_subroutine(self) -> Machine {
        self.pop_stack_u16().set_pc(wrap16(self.stack_top_u16() + 1))
    }

    /// `RTI`: pops the status byte, then the program counter, low byte first.
    #[verifier::opaque]
    pub open spec fn return_from_interrupt(self) -> Machine {
        let status = self.stack_top();
        let popped = self.pop_stack();
        popped.pop_stack_u16().with_flags(CPUFlags::from_byte(status)).set_pc(
            popped.stack_top_u16(),
        )
    }

    /// `BRK`: pushes the address two bytes on, then the status byte with the
    /// break mark, disables interrupts and goes where the vector at
    /// `IRQ_VECTOR` points.
    #[verifier::opaque]
    pub open spec fn breakpoint(self) -> Machine {
        let pushed = self.push_stack_u16(wrap16(self.reg.pc + 2)).push_stack(
            self.reg.flags.pushed_byte(),
        );
        pushed.with_flags(CPUFlags { interrupt_disable: true, ..self.reg.flags }).set_pc(
            pushed.read_word(IRQ_VECTOR),
        )
    }

    /// `PHA`.
    #[verifier::opaque]
    pub open spec fn push_accumulator(self) -> Machine {
        self.push_stack(self.reg.accumulator).next()
    }

    /// `PLA`: zero and negative follow the popped byte.
    #[verifier::opaque]
    pub open spec fn pop_accumulator(self) -> Machine {
        let value = self.stack_top();
        self.pop_stack().with_accumulator(value).update_zero_and_negative(value).next()
    }

    /// `PHP`: the status byte is pushed with the break mark set.
    #[verifier::opaque]
    pub open spec fn push_status(self) -> Machine {
        self.push_stack(self.reg.flags.pushed_byte()).next()
    }

    /// `PLP`: all flags come from the popped byte, whose bits 4 and 5 count
    /// for nothing.
    #[verifier::opaque]
    pub open spec fn pull_status(self) -> Machine {
        self.pop_stack().with_flags(CPUFlags::from_byte(self.stack_top())).next()
    }

    // ------------------------------------------------------------------
    // The undocumented operations
    // ------------------------------------------------------------------
    /// `LAX`: `LDA` and `LDX` at once. `LXA` is taken as `LAX` of the
    /// immediate operand.
    #[verifier::opaque]
    pub open spec fn lax(self) -> Machine {
        let value = self.operand();
        self.with_accumulator(value).with_idx(value).update_zero_and_negative(value).next()
    }

    /// `SAX`: stores the bits that accumulator and X share. No flag changes.
    #[verifier::opaque]
    pub open spec fn sax(self) -> Machine {
        self.write(self.get_mode_address(), self.reg.accumulator & self.reg.idx).next()
    }

    /// `SLO`: `ASL` of the operand, then `ORA` with the result.
    #[verifier::opaque]
    pub open spec fn slo(self) -> Machine {
        let shifted = shift_left(self.operand());
        let value = self.reg.accumulator | shifted.value;
        self.store_result(shifted.value).with_accumulator(value).with_carry(
            shifted.carry,
        ).update_zero_and_negative(value).next()
    }

    /// `RLA`: `ROL` of the operand, then `AND` with the result.
    #[verifier::opaque]
    pub open spec fn rla(self) -> Machine {
        let shifted = rotate_left(self.operand(), self.reg.flags.carry);
        let value = self.reg.accumulator & shifted.value;
        self.store_result(shifted.value).with_accumulator(value).with_carry(
            shifted.carry,
        ).update_zero_and_negative(value).next()
    }

    /// `SRE`: `LSR` of the operand, then `EOR` with the result.
    #[verifier::opaque]
    pub open spec fn sre(self) -> Machine {
        let shifted = shift_right(self.operand());
        let value = self.reg.accumulator ^ shifted.value;
        self.store_result(shifted.value).with_accumulator(value).with_carry(
            shifted.carry,
        ).update_zero_and_negative(value).next()
    }

    /// `RRA`: `ROR` of the operand, then `ADC` of the result, with the carry
    /// that the rotation left.
    #[verifier::opaque]
    pub open spec fn rra(self) -> Machine {
        let shifted = rotate_right(self.operand(), self.reg.flags.carry);
        self.store_result(shifted.value).with_sum(
            add_with_carry(self.reg.accumulator, shifted.value, shifted.carry),
        ).next()
    }

    /// `DCP`: `DEC` of the operand, then `CMP` with the result.
    #[verifier::opaque]
    pub open spec fn dcp(self) -> Machine {
        let value = decremented(self.operand());
        self.store_result(value).with_comparison(compare(self.reg.accumulator, value)).next()
    }

    /// `ISC`: `INC` of the operand, then `SBC` of the result.
    #[verifier::opaque]
    pub open spec fn isc(self) -> Machine {
        let value = incremented(self.operand());
        self.store_result(value).with_sum(
            subtract_with_borrow(self.reg.accumulator, value, self.reg.flags.carry),
        ).next()
    }

    /// `ANC`: `AND`, then the carry takes bit 7 of the result.
    #[verifier::opaque]
    pub open spec fn anc(self) -> Machine {
        let value = self.reg.accumulator & self.operand();
        self.with_accumulator(value).with_carry(is_negative(value)).update_zero_and_negative(
            value,
        ).next()
    }

    /// `ALR`: `AND`, then `LSR` of the accumulator.
    #[verifier::opaque]
    pub open spec fn alr(self) -> Machine {
        let shifted = shift_right(self.reg.accumulator & self.operand());
        self.with_accumulator(shifted.value).with_carry(shifted.carry).update_zero_and_negative(
            shifted.value,
        ).next()
    }

    /// `ARR`: `AND`, then `ROR` of the accumulator.
    #[verifier::opaque]
    pub open spec fn arr(self) -> Machine {
        let shifted = rotate_right(self.reg.accumulator & self.operand(), self.reg.flags.carry);
        self.with_accumulator(shifted.value).with_carry(shifted.carry).update_zero_and_negative(
            shifted.value,
        ).next()
    }

    /// `SBX`: compares the bits that accumulator and X share with the
    /// operand, and leaves the difference in X.
    #[verifier::opaque]
    pub open spec fn sbx(self) -> Machine {
        let shared = self.reg.accumulator & self.reg.idx;
        self.with_idx(wrap8(shared - self.operand())).with_comparison(
            compare(shared, self.operand()),
        ).next()
    }

    /// `ANE`, taken as `TXA`, then `AND`.
    #[verifier::opaque]
    pub open spec fn ane(self) -> Machine {
        let value = self.reg.idx & self.operand();
        self.with_accumulator(value).update_zero_and_negative(value).next()
    }

    /// `LAS`: the bits that operand and stack pointer share go to the
    /// accumulator, X and the stack pointer.
    #[verifier::opaque]
    pub open spec fn las(self) -> Machine {
        let value = self.operand() & self.reg.sp;
        self.with_accumulator(value).with_idx(value).with_sp(value).update_zero_and_negative(
            value,
        ).next()
    }

    /// `SHA`, `SHX`, `SHY` and `TAS`: a register value is stored, masked
    /// with the high byte of the address before indexing plus one. `TAS`
    /// first puts the bits that accumulator and X share into the stack
    /// pointer.
    #[verifier::opaque]
    pub open spec fn store_high_masked(self) -> Machine {
        let shared = self.reg.accumulator & self.reg.idx;
        let value = match self.current.op {
            Instructions::SHX => self.reg.idx,
            Instructions::SHY => self.reg.idy,
            _ => shared,
        };
        let stored = self.write(self.get_mode_address(), value & self.high_byte_plus_one());
        if self.current.op == Instructions::TAS {
            stored.with_sp(shared).next()
        } else {
            stored.next()
        }
    }

    // ------------------------------------------------------------------
    // Steps
    // ------------------------------------------------------------------
    /// What the current instruction does to the machine.
    pub open spec fn perform(self) -> Machine {
        match self.current.op {
            Instructions::SetInterruptDisable => self.set_interrupts_disabled(true),
            Instructions::ClearInterruptDisable => self.set_interrupts_disabled(false),
            Instructions::SetDecimalMode => self.set_decimal(true),
            Instructions::ClearDecimalMode => self.set_decimal(false),
            Instructions::ClearOverflow => self.set_overflow(false),
            Instructions::SetCarry => self.set_carry(true),
            Instructions::ClearCarry => self.set_carry(false),
            Instructions::LoadAccumulator
            | Instructions::LoadX
            | Instructions::LoadY => self.load_register(),
            Instructions::StoreAccumulator
            | Instructions::StoreX
            | Instructions::StoreY => self.store_register(),
            Instructions::XToStackPointer => self.x_to_stack_pointer(),
            Instructions::StackPointerToX => self.stack_pointer_to_x(),
            Instructions::EORAccumulator => self.eor(),
            Instructions::ORAccumulator => self.or(),
            Instructions::ANDAccumulator => self.and(),
            Instructions::CompareAccumulator
            | Instructions::CompareX
            | Instructions::CompareY => self.compare_register(),
            Instructions::BranchOnCarrySet
            | Instructions::BranchOnCarryClear
            | Instructions::BranchOnResultZero
            | Instructions::BranchOnResultMinus
            | Instructions::BranchNotZero
            | Instructions::BranchOnResultPlus
            | Instructions::BranchOverflowClear
            | Instructions::BranchOnOverflowSet => self.branch(),
            Instructions::DecrementX | Instructions::DecrementY => self.decrease_register(),
            Instructions::DecrementMem => self.decrement_mem(),
            Instructions::IncrementX | Instructions::IncrementY => self.increase_register(),
            Instructions::IncrementMem => self.increment_mem(),
            Instructions::JumpSubroutine => self.jump_subroutine(),
            Instructions::Jump => self.jump(),
            Instructions::PopAccOffStack => self.pop_accumulator(),
            Instructions::PullStatusFromStack => self.pull_status(),
            Instructions::PushAccOnStack => self.push_accumulator(),
            Instructions::PushStatusOnStack => self.push_status(),
            Instructions::ShiftOneRight => self.shift_one_right(),
            Instructions::ShiftOneLeft => self.shift_one_left(),
            Instructions::RotateOneLeft | Instructions::RotateOneRight => self.rotate(),
            Instructions::ReturnFromInterrupt => self.return_from_interrupt(),
            Instructions::ReturnFromSubroutine => self.return_from_subroutine(),
            Instructions::AccumulatorToY | Instructions::AccumulatorToX => self.a_to_reg(),
            Instructions::XToAccumulator | Instructions::YToAccumulator => self.reg_to_a(),
            Instructions::AddToAccWithCarry => self.add_mem_to_accumulator_with_carry(),
            Instructions::TestBitsAccumulator => self.test_bit(),
            Instructions::SubAccWithBorrow
            | Instructions::USBC => self.subtract_accumulator_with_borrow(),
            Instructions::MissingOperation => self.fault(),
            Instructions::NoOperation => self.next(),
            Instructions::JAM => self.halt(),
            Instructions::ForceBreak => self.breakpoint(),
            Instructions::ISC => self.isc(),
            Instructions::SLO => self.slo(),
            Instructions::SAX => self.sax(),
            Instructions::DCP => self.dcp(),
            Instructions::ARR => self.arr(),
            Instructions::ANE => self.ane(),
            Instructions::LAX | Instructions::LXA => self.lax(),
            Instructions::RLA => self.rla(),
            Instructions::ANC => self.anc(),
            Instructions::SRE => self.sre(),
            Instructions::RRA => self.rra(),
            Instructions::ALR => self.alr(),
            Instructions::LAS => self.las(),
            Instructions::SBX => self.sbx(),
            Instructions::TAS
            | Instructions::SHA
            | Instructions::SHY
            | Instructions::SHX => self.store_high_masked(),
        }
    }

    /// Where the program counter stands after the current instruction: at
    /// the target of a transfer of control, at the instruction itself where
    /// the machine stops, and past the instruction in every other case.
    pub open spec fn destination(self) -> u16 {
        match self.current.op {
            Instructions::BranchOnCarrySet
            | Instructions::BranchOnCarryClear
            | Instructions::BranchOnResultZero
            | Instructions::BranchOnResultMinus
            | Instructions::BranchNotZero
            | Instructions::BranchOnResultPlus
            | Instructions::BranchOverflowClear
            | Instructions::BranchOnOverflowSet => if self.branch_condition() {
                branch_target(self.reg.pc, self.next_byte())
            } else {
                self.next().reg.pc
            },
            Instructions::Jump | Instructions::JumpSubroutine => self.get_mode_address(),
            Instructions::ReturnFromSubroutine => wrap16(self.stack_top_u16() + 1),
            Instructions::ReturnFromInterrupt => self.pop_stack().stack_top_u16(),
            Instructions::ForceBreak => self.push_stack_u16(wrap16(self.reg.pc + 2)).push_stack(
                self.reg.flags.pushed_byte(),
            ).read_word(IRQ_VECTOR),
            Instructions::JAM | Instructions::MissingOperation => self.reg.pc,
            _ => self.next().reg.pc,
        }
    }

    /// What the current instruction does to the machine, and the clock
    /// cycles it takes added to the tick counter.
    pub open spec fn run(self) -> Machine {
        self.perform().elapse(self.cycles())
    }

    /// Executes the current instruction. A machine that does not run stays
    /// as it is. A running machine faults where no opcode stands for the
    /// pair of operation and addressing mode that it holds.
    pub open spec fn execute(self) -> Machine {
        if self.state != CpuState::Running {
            self
        } else if !is_encodable(self.current.op, self.current.mode) {
            self.fault()
        } else {
            self.run()
        }
    }

    /// The machine with the instruction under the program counter as its
    /// current instruction.
    pub open spec fn fetch_decode(self) -> Machine {
        let decoded = decode_spec(self.read(self.reg.pc));
        Machine { current: CurrentInstruction { op: decoded.0, mode: decoded.1 }, ..self }
    }

    /// One step of a running machine: fetch, decode, execute. A machine that
    /// does not run stays as it is.
    pub open spec fn fetch_decode_next(self) -> Machine {
        if self.state != CpuState::Running {
            self
        } else {
            self.fetch_decode().run()
        }
    }
}

} // verus!
