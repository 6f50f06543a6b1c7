//! What holds of every step of the processor, proved from the meaning of
//! the instructions in `machine`.

use vstd::prelude::*;
use crate::alu::{branch_target, is_negative, wrap16, wrap8};
use crate::cpu::{lemma_flags_from_own_byte, CpuState};
use crate::instructions::{decode_spec, decodes_to, is_encodable, AddressingMode, Instructions};
use crate::machine::{stack_address, Machine, PROGRAM_START, UPPER_BANK_START};
use crate::memory::{next_address, MEMORY_SIZE};
use crate::PRG_BANK_SIZE;
use crate::timing::{lemma_cycles_bounds, ticks_after};

verus! {

/// The conditional branches.
pub open spec fn is_branch(op: Instructions) -> bool {
    op == Instructions::BranchOnCarrySet || op == Instructions::BranchOnCarryClear || op
        == Instructions::BranchOnResultZero || op == Instructions::BranchOnResultMinus || op
        == Instructions::BranchNotZero || op == Instructions::BranchOnResultPlus || op
        == Instructions::BranchOverflowClear || op == Instructions::BranchOnOverflowSet
}

/// The operations that say themselves where the program goes on: branches,
/// jumps, calls, returns and `BRK`.
pub open spec fn sets_pc(op: Instructions) -> bool {
    is_branch(op) || op == Instructions::Jump || op == Instructions::JumpSubroutine || op
        == Instructions::ReturnFromSubroutine || op == Instructions::ReturnFromInterrupt || op
        == Instructions::ForceBreak
}

/// The loads of one register from an operand.
pub open spec fn is_load(op: Instructions) -> bool {
    op == Instructions::LoadAccumulator || op == Instructions::LoadX || op == Instructions::LoadY
}

/// The comparisons of one register with an operand.
pub open spec fn is_comparison(op: Instructions) -> bool {
    op == Instructions::CompareAccumulator || op == Instructions::CompareX || op
        == Instructions::CompareY
}

/// `after` differs from `m` in registers and memory at most.
pub open spec fn keeps_running(m: Machine, after: Machine) -> bool {
    after.state == m.state && after.current == m.current && after.tick == m.tick
}

/// `after` differs from `m` in registers and memory at most, and its
/// program counter is that of `m` moved past the current instruction.
pub open spec fn steps_over(m: Machine, after: Machine) -> bool {
    keeps_running(m, after) && after.reg.pc == wrap16(m.reg.pc + m.current.mode.increment())
}

/// The operations that set or clear one flag leave the state, the current
/// instruction and the tick counter as they are, and move the program
/// counter past the instruction.
pub proof fn lemma_flag_operations_step_over(m: Machine, status: bool)
    ensures
        steps_over(m, m.set_interrupts_disabled(status)),
        steps_over(m, m.set_decimal(status)),
        steps_over(m, m.set_carry(status)),
        steps_over(m, m.set_overflow(status)),
{
    reveal(Machine::set_interrupts_disabled);
    reveal(Machine::set_decimal);
    reveal(Machine::set_carry);
    reveal(Machine::set_overflow);
}

/// The loads, stores and transfers of registers leave the state, the
/// current instruction and the tick counter as they are, and move the
/// program counter past the instruction.
pub proof fn lemma_moves_step_over(m: Machine)
    ensures
        steps_over(m, m.load_register()),
        steps_over(m, m.store_register()),
        steps_over(m, m.reg_to_a()),
        steps_over(m, m.a_to_reg()),
        steps_over(m, m.stack_pointer_to_x()),
        steps_over(m, m.x_to_stack_pointer()),
        steps_over(m, m.lax()),
        steps_over(m, m.sax()),
        steps_over(m, m.las()),
{
    reveal(Machine::load_register);
    reveal(Machine::store_register);
    reveal(Machine::reg_to_a);
    reveal(Machine::a_to_reg);
    reveal(Machine::stack_pointer_to_x);
    reveal(Machine::x_to_stack_pointer);
    reveal(Machine::lax);
    reveal(Machine::sax);
    reveal(Machine::las);
}

/// The operations of logic, arithmetic and comparison leave the state, the
/// current instruction and the tick counter as they are, and move the
/// program counter past the instruction.
pub proof fn lemma_arithmetic_operations_step_over(m: Machine)
    ensures
        steps_over(m, m.and()),
        steps_over(m, m.or()),
        steps_over(m, m.eor()),
        steps_over(m, m.add_mem_to_accumulator_with_carry()),
        steps_over(m, m.subtract_accumulator_with_borrow()),
        steps_over(m, m.compare_register()),
        steps_over(m, m.test_bit()),
        steps_over(m, m.anc()),
        steps_over(m, m.ane()),
        steps_over(m, m.sbx()),
        steps_over(m, m.alr()),
        steps_over(m, m.arr()),
{
    reveal(Machine::and);
    reveal(Machine::or);
    reveal(Machine::eor);
    reveal(Machine::add_mem_to_accumulator_with_carry);
    reveal(Machine::subtract_accumulator_with_borrow);
    reveal(Machine::compare_register);
    reveal(Machine::test_bit);
    reveal(Machine::anc);
    reveal(Machine::ane);
    reveal(Machine::sbx);
    reveal(Machine::alr);
    reveal(Machine::arr);
}

/// The operations that change a register or a memory cell in place leave
/// the state, the current instruction and the tick counter as they are, and
/// move the program counter past the instruction.
pub proof fn lemma_modifications_step_over(m: Machine)
    ensures
        steps_over(m, m.increase_register()),
        steps_over(m, m.decrease_register()),
        steps_over(m, m.increment_mem()),
        steps_over(m, m.decrement_mem()),
        steps_over(m, m.shift_one_left()),
        steps_over(m, m.shift_one_right()),
        steps_over(m, m.rotate()),
{
    reveal(Machine::increase_register);
    reveal(Machine::decrease_register);
    reveal(Machine::increment_mem);
    reveal(Machine::decrement_mem);
    reveal(Machine::shift_one_left);
    reveal(Machine::shift_one_right);
    reveal(Machine::rotate);
}

/// The undocumented operations that change a memory cell and go on with
/// the result leave the state, the current instruction and the tick counter
/// as they are, and move the program counter past the instruction.
pub proof fn lemma_combinations_step_over(m: Machine)
    ensures
        steps_over(m, m.slo()),
        steps_over(m, m.rla()),
        steps_over(m, m.sre()),
        steps_over(m, m.rra()),
        steps_over(m, m.dcp()),
        steps_over(m, m.isc()),
        steps_over(m, m.store_high_masked()),
{
    reveal(Machine::slo);
    reveal(Machine::rla);
    reveal(Machine::sre);
    reveal(Machine::rra);
    reveal(Machine::dcp);
    reveal(Machine::isc);
    reveal(Machine::store_high_masked);
}

/// The pushes and pops of accumulator and status leave the state, the
/// current instruction and the tick counter as they are, and move the
/// program counter past the instruction.
pub proof fn lemma_stack_operations_step_over(m: Machine)
    ensures
        steps_over(m, m.push_accumulator()),
        steps_over(m, m.pop_accumulator()),
        steps_over(m, m.push_status()),
        steps_over(m, m.pull_status()),
{
    reveal(Machine::push_accumulator);
    reveal(Machine::pop_accumulator);
    reveal(Machine::push_status);
    reveal(Machine::pull_status);
}

/// The transfers of control leave the state, the current instruction and
/// the tick counter as they are.
pub proof fn lemma_transfers_keep_running(m: Machine)
    ensures
        keeps_running(m, m.branch()),
        keeps_running(m, m.jump()),
        keeps_running(m, m.jump_subroutine()),
        keeps_running(m, m.return_from_subroutine()),
        keeps_running(m, m.return_from_interrupt()),
        keeps_running(m, m.breakpoint()),
{
    reveal(Machine::branch);
    reveal(Machine::jump);
    reveal(Machine::jump_subroutine);
    reveal(Machine::return_from_subroutine);
    reveal(Machine::return_from_interrupt);
    reveal(Machine::breakpoint);
}

/// Every opcode stands for an operation, the branches have the relative
/// mode, and the relative mode belongs to the branches.
pub proof fn lemma_decode_facts(opcode: u8)
    ensures
        decode_spec(opcode).0 != Instructions::MissingOperation,
        is_branch(decode_spec(opcode).0) <==> decode_spec(opcode).1 == AddressingMode::Relative,
{
    reveal(decode_spec);
}

/// What executing the current instruction leaves as it is: the current
/// instruction and the tick counter, and the state, except that `JAM`
/// halts the machine and what is no operation makes it fault. Every
/// operation but these two and the transfers of control moves the program
/// counter past the instruction.
pub proof fn lemma_perform_frame(m: Machine)
    ensures
        m.perform().current == m.current,
        m.perform().tick == m.tick,
        m.perform().state == if m.current.op == Instructions::JAM {
            CpuState::Halted
        } else if m.current.op == Instructions::MissingOperation {
            CpuState::Faulted
        } else {
            m.state
        },
        m.current.op == Instructions::JAM ==> m.perform() == m.halt(),
        m.current.op == Instructions::MissingOperation ==> m.perform() == m.fault(),
        !sets_pc(m.current.op) && m.current.op != Instructions::JAM && m.current.op
            != Instructions::MissingOperation ==> steps_over(m, m.perform()),
{
    lemma_flag_operations_step_over(m, true);
    lemma_flag_operations_step_over(m, false);
    lemma_moves_step_over(m);
    lemma_arithmetic_operations_step_over(m);
    lemma_modifications_step_over(m);
    lemma_combinations_step_over(m);
    lemma_stack_operations_step_over(m);
    lemma_transfers_keep_running(m);
}

/// What a machine holds after fetching and decoding is a pair that has an
/// opcode, so a step executes what it fetched.
pub proof fn lemma_step_executes(m: Machine)
    ensures
        is_encodable(m.fetch_decode().current.op, m.fetch_decode().current.mode),
        m.state == CpuState::Running ==> m.fetch_decode_next() == m.fetch_decode().execute(),
        m.state != CpuState::Running ==> m.fetch_decode_next() == m,
{
    let fetched = m.fetch_decode();
    assert(decodes_to(m.read(m.reg.pc), fetched.current.op, fetched.current.mode));
}

/// A machine that has halted or faulted stays as it is. A running machine
/// halts on `JAM` and on nothing else, with the program counter still at
/// the `JAM`; no opcode makes it fault.
pub proof fn lemma_step_states(m: Machine)
    ensures
        m.state != CpuState::Running ==> m.fetch_decode_next() == m,
        m.state == CpuState::Running ==> m.fetch_decode_next().state != CpuState::Faulted,
        m.state == CpuState::Running ==> (m.fetch_decode_next().state == CpuState::Halted
            <==> m.fetch_decode().current.op == Instructions::JAM),
        m.state == CpuState::Running && m.fetch_decode().current.op == Instructions::JAM
            ==> m.fetch_decode_next() == m.fetch_decode().halt(),
{
    lemma_decode_facts(m.read(m.reg.pc));
    lemma_perform_frame(m.fetch_decode());
    lemma_cycles_bounds(m.fetch_decode());
    lemma_cycles_bounds(m.fetch_decode().halt());
}

/// A step of a running machine adds the clock cycles of the instruction it
/// fetched to the tick counter, and changes the current instruction to the
/// one it fetched.
pub proof fn lemma_step_ticks(m: Machine)
    requires
        m.state == CpuState::Running,
    ensures
        m.fetch_decode_next().tick == ticks_after(m.tick, m.fetch_decode().cycles()),
        m.fetch_decode_next().current == m.fetch_decode().current,
{
    lemma_perform_frame(m.fetch_decode());
}

/// After a step of a running machine the program counter stands at the
/// destination of the instruction that the step fetched.
pub proof fn lemma_step_destination(m: Machine)
    requires
        m.state == CpuState::Running,
    ensures
        m.fetch_decode_next().reg.pc == m.fetch_decode().destination(),
{
    let fetched = m.fetch_decode();
    lemma_perform_frame(fetched);
    reveal(Machine::branch);
    reveal(Machine::jump);
    reveal(Machine::jump_subroutine);
    reveal(Machine::return_from_subroutine);
    reveal(Machine::return_from_interrupt);
    reveal(Machine::breakpoint);
}

/// After a step that leaves the machine running, the program counter has
/// changed, unless the instruction was a transfer of control to its own
/// address. An instruction that is no transfer of control moves the program
/// counter on by its length, and so does a branch that is not taken.
pub proof fn lemma_step_moves_pc(m: Machine)
    requires
        m.state == CpuState::Running,
        m.fetch_decode_next().state == CpuState::Running,
        !(sets_pc(m.fetch_decode().current.op) && m.fetch_decode().destination() == m.reg.pc),
    ensures
        m.fetch_decode_next().reg.pc != m.reg.pc,
        !sets_pc(m.fetch_decode().current.op) ==> m.fetch_decode_next().reg.pc == wrap16(
            m.reg.pc + m.fetch_decode().current.mode.increment(),
        ),
        is_branch(m.fetch_decode().current.op) && !m.fetch_decode().branch_condition()
            ==> m.fetch_decode_next().reg.pc == wrap16(m.reg.pc + 2),
        is_branch(m.fetch_decode().current.op) && m.fetch_decode().branch_condition()
            ==> m.fetch_decode_next().reg.pc == branch_target(
            m.reg.pc,
            m.read(next_address(m.reg.pc)),
        ),
{
    lemma_step_destination(m);
    lemma_step_states(m);
    lemma_decode_facts(m.read(m.reg.pc));
}

/// A loaded program reads back byte by byte from `PROGRAM_START` on, and
/// the program counter points at its first byte.
pub proof fn lemma_loaded_program(m: Machine, data: Seq<u8>, at: int)
    requires
        m.wf(),
        PROGRAM_START + data.len() <= MEMORY_SIZE,
        0 <= at < data.len(),
    ensures
        m.load_bytes(data).wf(),
        m.load_bytes(data).reg.pc == PROGRAM_START,
        m.load_bytes(data).read((PROGRAM_START + at) as u16) == data[at],
{
}

/// A cartridge with one program bank shows the same bank in both halves
/// of the cartridge window.
pub proof fn lemma_single_bank_is_mirrored(m: Machine, bank: Seq<u8>, at: int)
    requires
        m.wf(),
        bank.len() == PRG_BANK_SIZE,
        0 <= at < PRG_BANK_SIZE,
    ensures
        m.load_banks(bank, bank).read((PROGRAM_START + at) as u16) == bank[at],
        m.load_banks(bank, bank).read((UPPER_BANK_START + at) as u16) == bank[at],
        m.load_banks(bank, bank).reg.pc == UPPER_BANK_START,
{
}

/// After a load, the register holds the operand, the zero flag tells
/// whether the loaded value is zero, and the negative flag is its bit 7.
pub proof fn lemma_load_flags(m: Machine)
    requires
        m.state == CpuState::Running,
        is_load(m.fetch_decode().current.op),
    ensures
        ({
            let fetched = m.fetch_decode();
            let after = m.fetch_decode_next();
            let loaded = match fetched.current.op {
                Instructions::LoadX => after.reg.idx,
                Instructions::LoadY => after.reg.idy,
                _ => after.reg.accumulator,
            };
            &&& loaded == fetched.operand()
            &&& after.reg.flags.zero == (loaded == 0)
            &&& after.reg.flags.negative == is_negative(loaded)
        }),
{
    reveal(Machine::load_register);
}

/// A comparison sets carry where the register is at least the operand,
/// zero where the two are equal, and negative to bit 7 of their difference
/// modulo 256. The registers keep their values.
pub proof fn lemma_comparison_flags(m: Machine)
    requires
        m.state == CpuState::Running,
        is_comparison(m.fetch_decode().current.op),
    ensures
        ({
            let fetched = m.fetch_decode();
            let after = m.fetch_decode_next();
            let register = match fetched.current.op {
                Instructions::CompareX => m.reg.idx,
                Instructions::CompareY => m.reg.idy,
                _ => m.reg.accumulator,
            };
            let operand = fetched.operand();
            &&& after.reg.flags.carry == (register >= operand)
            &&& after.reg.flags.zero == (register == operand)
            &&& after.reg.flags.negative == is_negative(wrap8(register - operand))
            &&& after.reg.accumulator == m.reg.accumulator
            &&& after.reg.idx == m.reg.idx
            &&& after.reg.idy == m.reg.idy
            &&& after.reg.sp == m.reg.sp
            &&& after.memory == m.memory
        }),
{
    reveal(Machine::compare_register);
}

/// A pop after a push gives the pushed byte and leaves the stack pointer
/// where it was before the push.
pub proof fn lemma_push_then_pop(m: Machine, data: u8)
    requires
        m.wf(),
    ensures
        m.push_stack(data).stack_top() == data,
        m.push_stack(data).pop_stack().reg == m.reg,
        m.push_stack(data).pop_stack() == m.write(stack_address(m.reg.sp), data),
{
}

/// Popping a word after pushing it gives the word and leaves the stack
/// pointer where it was before.
pub proof fn lemma_push_then_pop_u16(m: Machine, data: u16)
    requires
        m.wf(),
    ensures
        m.push_stack_u16(data).stack_top_u16() == data,
        m.push_stack_u16(data).pop_stack_u16().reg == m.reg,
{
    let high = (data / 256) as u8;
    let low = (data % 256) as u8;
    let first = m.push_stack(high);
    lemma_push_then_pop(m, high);
    lemma_push_then_pop(first, low);
    assert(first.wf());
    let second = first.push_stack(low);
    assert(second.pop_stack().stack_top() == high);
}

/// `PHA` followed at once by `PLA` leaves the accumulator and the stack
/// pointer as they were.
pub proof fn lemma_push_then_pop_accumulator(m: Machine)
    requires
        m.wf(),
        m.state == CpuState::Running,
        m.fetch_decode().current.op == Instructions::PushAccOnStack,
        m.fetch_decode_next().fetch_decode().current.op == Instructions::PopAccOffStack,
    ensures
        m.fetch_decode_next().fetch_decode_next().reg.accumulator == m.reg.accumulator,
        m.fetch_decode_next().fetch_decode_next().reg.sp == m.reg.sp,
{
    reveal(Machine::push_accumulator);
    reveal(Machine::pop_accumulator);
    lemma_push_then_pop(m.fetch_decode(), m.reg.accumulator);
}

/// `PHP` followed at once by `PLP` leaves the flags and the stack pointer
/// as they were.
pub proof fn lemma_push_then_pull_status(m: Machine)
    requires
        m.wf(),
        m.state == CpuState::Running,
        m.fetch_decode().current.op == Instructions::PushStatusOnStack,
        m.fetch_decode_next().fetch_decode().current.op == Instructions::PullStatusFromStack,
    ensures
        m.fetch_decode_next().fetch_decode_next().reg.flags == m.reg.flags,
        m.fetch_decode_next().fetch_decode_next().reg.sp == m.reg.sp,
{
    reveal(Machine::push_status);
    reveal(Machine::pull_status);
    lemma_push_then_pop(m.fetch_decode(), m.reg.flags.pushed_byte());
    lemma_flags_from_own_byte(m.reg.flags);
}

/// `JSR` goes to its target and leaves the address of its own last byte on
/// the stack.
pub proof fn lemma_call(m: Machine)
    requires
        m.wf(),
        m.state == CpuState::Running,
        m.fetch_decode().current.op == Instructions::JumpSubroutine,
    ensures
        m.fetch_decode_next().reg.pc == m.read_word(next_address(m.reg.pc)),
        m.fetch_decode_next().reg.sp == wrap8(m.reg.sp - 2),
        m.fetch_decode_next().stack_top_u16() == wrap16(m.reg.pc + 2),
{
    reveal(Machine::jump_subroutine);
    reveal(decode_spec);
    lemma_push_then_pop_u16(m.fetch_decode(), wrap16(m.reg.pc + 2));
}

/// `RTS` pops an address and goes to the one after it.
pub proof fn lemma_return(m: Machine)
    requires
        m.state == CpuState::Running,
        m.fetch_decode().current.op == Instructions::ReturnFromSubroutine,
    ensures
        m.fetch_decode_next().reg.pc == wrap16(m.stack_top_u16() + 1),
        m.fetch_decode_next().reg.sp == wrap8(m.reg.sp + 2),
        m.fetch_decode_next().memory == m.memory,
{
    reveal(Machine::return_from_subroutine);
}

/// `JSR` followed at once by `RTS` leaves the program counter one byte
/// past the `JSR` and the stack pointer where it was before the `JSR`.
pub proof fn lemma_call_then_return(m: Machine)
    requires
        m.wf(),
        m.state == CpuState::Running,
        m.fetch_decode().current.op == Instructions::JumpSubroutine,
        m.fetch_decode_next().fetch_decode().current.op == Instructions::ReturnFromSubroutine,
    ensures
        m.fetch_decode_next().fetch_decode_next().reg.pc == wrap16(m.reg.pc + 3),
        m.fetch_decode_next().fetch_decode_next().reg.sp == m.reg.sp,
{
    lemma_call(m);
    lemma_step_states(m);
    lemma_return(m.fetch_decode_next());
}

} // verus!
