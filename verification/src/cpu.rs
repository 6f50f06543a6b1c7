//! The processor that runs: its registers and flags, and the executable
//! form of every instruction, each verified against its meaning in `machine`.

use vstd::prelude::*;
use crate::alu::{
    add_bytes,
    bit,
    branch_address,
    compare_bytes,
    rotate_left_byte,
    rotate_right_byte,
    sign_bit,
    subtract_bytes,
    Comparison,
    Sum,
};
use crate::{combine_bytes_to_u16, NesRom};
use crate::instructions::{
    can_encode,
    decode_spec,
    encode_spec,
    is_encodable,
    AddressingMode,
    CurrentInstruction,
    Instructions,
    JAM_OPCODE,
};
use crate::machine::{Machine, IRQ_VECTOR, PROGRAM_START, UPPER_BANK_START};
use crate::memory::{Bus, Memory};

verus! {

/// Frequency of the master clock of the machine, in hertz.
pub const CLOCK_RATE: u32 = 21441960;

/// The value of the stack pointer after a reset.
pub const RESET_STACK_POINTER: u8 = 0xFD;

/// The six flags of the status register.
#[derive(Debug, Clone, Copy, PartialEq, Eq, Structural)]
pub struct CPUFlags {
    pub carry: bool,
    pub zero: bool,
    pub interrupt_disable: bool,
    pub decimal: bool,
    pub overflow: bool,
    pub negative: bool,
}

/// The register file of the processor.
#[derive(Debug, Clone, Copy, PartialEq, Eq, Structural)]
pub struct Registers {
    pub pc: u16,
    pub sp: u8,
    pub accumulator: u8,
    pub idx: u8,
    pub idy: u8,
    pub flags: CPUFlags,
}

/// Whether the processor still executes instructions.
#[derive(Debug, Clone, Copy, PartialEq, Eq, Structural)]
pub enum CpuState {
    /// The processor takes the next step.
    Running,
    /// The processor met a `JAM` and stays where it is.
    Halted,
    /// The processor was told to execute what is no instruction.
    Faulted,
}

impl CPUFlags {
    /// The flags after a reset: interrupts disabled, all else clear.
    pub open spec fn reset() -> CPUFlags {
        CPUFlags {
            carry: false,
            zero: false,
            interrupt_disable: true,
            decimal: false,
            overflow: false,
            negative: false,
        }
    }

    /// The status byte: carry in bit 0, zero in bit 1, interrupt disable in
    /// bit 2, decimal in bit 3, overflow in bit 6, negative in bit 7. Bit 5
    /// is always set, and bit 4, the break mark, is clear.
    pub open spec fn byte(self) -> u8 {
        (bit(self.carry) + 2 * bit(self.zero) + 4 * bit(self.interrupt_disable) + 8 * bit(
            self.decimal,
        ) + 32 + 64 * bit(self.overflow) + 128 * bit(self.negative)) as u8
    }

    /// The status byte as an instruction pushes it: with the break mark set.
    pub open spec fn pushed_byte(self) -> u8 {
        (self.byte() + 16) as u8
    }

    /// The flags that a status byte holds. Bits 4 and 5 are no flags.
    pub open spec fn from_byte(byte: u8) -> CPUFlags {
        CPUFlags {
            carry: byte % 2 == 1,
            zero: (byte / 2) % 2 == 1,
            interrupt_disable: (byte / 4) % 2 == 1,
            decimal: (byte / 8) % 2 == 1,
            overflow: (byte / 64) % 2 == 1,
            negative: byte >= 128,
        }
    }

    /// The flags after a reset.
    pub fn new() -> (flags: Self)
        ensures
            flags == CPUFlags::reset(),
    {
        CPUFlags {
            carry: false,
            zero: false,
            interrupt_disable: true,
            decimal: false,
            overflow: false,
            negative: false,
        }
    }

    /// Takes all six flags from a status byte.
    pub fn set_byte(&mut self, byte: u8)
        ensures
            *final(self) == CPUFlags::from_byte(byte),
    {
        assert((0b0000_0001 & byte != 0) == (byte % 2 == 1)) by (bit_vector);
        assert((0b0000_0010 & byte != 0) == ((byte / 2) % 2 == 1)) by (bit_vector);
        assert((0b0000_0100 & byte != 0) == ((byte / 4) % 2 == 1)) by (bit_vector);
        assert((0b0000_1000 & byte != 0) == ((byte / 8) % 2 == 1)) by (bit_vector);
        assert((0b0100_0000 & byte != 0) == ((byte / 64) % 2 == 1)) by (bit_vector);
        assert((0b1000_0000 & byte != 0) == (byte >= 128)) by (bit_vector);
        self.carry = 0b0000_0001 & byte != 0;
        self.zero = 0b0000_0010 & byte != 0;
        self.interrupt_disable = 0b0000_0100 & byte != 0;
        self.decimal = 0b0000_1000 & byte != 0;
        self.overflow = 0b0100_0000 & byte != 0;
        self.negative = 0b1000_0000 & byte != 0;
    }

    /// Packs the flags into a status byte.
    pub fn as_byte(&self) -> (byte: u8)
        ensures
            byte == self.byte(),
    {
        let c: u8 = if self.carry { 0b0000_0001 } else { 0 };
        let z: u8 = if self.zero { 0b0000_0010 } else { 0 };
        let i: u8 = if self.interrupt_disable { 0b0000_0100 } else { 0 };
        let d: u8 = if self.decimal { 0b0000_1000 } else { 0 };
        let v: u8 = if self.overflow { 0b0100_0000 } else { 0 };
        let n: u8 = if self.negative { 0b1000_0000 } else { 0 };
        assert((c | z | i | d | 0b0010_0000u8 | v | n) == c + z + i + d + 32 + v + n) by (bit_vector)
            requires
                c == 0 || c == 1,
                z == 0 || z == 2,
                i == 0 || i == 4,
                d == 0 || d == 8,
                v == 0 || v == 64,
                n == 0 || n == 128,
        ;
        c | z | i | d | 0b0010_0000u8 | v | n
    }

    /// Packs the flags into a status byte for the stack: with the break mark.
    pub fn as_pushed_byte(&self) -> (byte: u8)
        ensures
            byte == self.pushed_byte(),
    {
        let packed: u8 = self.as_byte();
        assert(packed & 0b0001_0000 == 0) by {
            lemma_break_mark_clear(*self);
        }
        assert(packed | 0b0001_0000 == packed + 16) by (bit_vector)
            requires
                packed & 0b0001_0000 == 0,
        ;
        packed | 0b0001_0000
    }
}

impl Registers {
    /// The registers after a reset.
    pub open spec fn reset() -> Registers {
        Registers {
            pc: 0,
            sp: RESET_STACK_POINTER,
            accumulator: 0,
            idx: 0,
            idy: 0,
            flags: CPUFlags::reset(),
        }
    }

    /// The registers after a reset.
    pub fn new() -> (registers: Self)
        ensures
            registers == Registers::reset(),
    {
        Registers {
            pc: 0,
            sp: RESET_STACK_POINTER,
            accumulator: 0,
            idx: 0,
            idy: 0,
            flags: CPUFlags::new(),
        }
    }
}

/// Decoding and encoding of opcodes.
pub trait Processor {
    /// The operation and addressing mode that `opcode` stands for. Every
    /// opcode stands for an operation.
    fn decode_instruction(opcode: u8) -> (decoded: (Instructions, AddressingMode))
        ensures
            decoded == decode_spec(opcode),
            decoded.0 != Instructions::MissingOperation,
    ;

    /// The opcode that writes `instruction` in `addressing_mode`: one that
    /// decodes to the pair again, where the pair has an opcode at all, and
    /// `JAM_OPCODE` where it has none.
    fn encode_instructions(instruction: Instructions, addressing_mode: AddressingMode) -> (opcode:
        u8)
        ensures
            opcode == encode_spec(instruction, addressing_mode),
            is_encodable(instruction, addressing_mode) ==> decode_spec(opcode) == (
                instruction,
                addressing_mode,
            ),
            !is_encodable(instruction, addressing_mode) ==> opcode == JAM_OPCODE,
    ;
}

/// The processor with its memory.
pub struct NesCpu {
    pub memory: Memory,
    pub reg: Registers,
    pub current: CurrentInstruction,
    pub tick: usize,
    pub state: CpuState,
}

impl View for NesCpu {
    type V = Machine;

    open spec fn view(&self) -> Machine {
        Machine {
            memory: self.memory.cells(),
            reg: self.reg,
            current: self.current,
            tick: self.tick,
            state: self.state,
        }
    }
}

impl NesCpu {
    /// A processor after a reset, with empty memory.
    pub fn new() -> (cpu: Self)
        ensures
            cpu@ == Machine::reset(),
    {
        NesCpu {
            memory: Memory::default(),
            reg: Registers::new(),
            current: CurrentInstruction::new(),
            tick: 0,
            state: CpuState::Running,
        }
    }

    /// A processor after a reset, with `bytes` loaded as its program. The
    /// program has to fit between `PROGRAM_START` and the top of memory.
    pub fn new_from_bytes(bytes: &[u8]) -> (cpu: Self)
        requires
            PROGRAM_START + bytes@.len() <= 0x1_0000,
        ensures
            cpu@ == Machine::reset().load_bytes(bytes@),
    {
        let mut cpu = NesCpu::new();
        cpu.load_bytes(bytes);
        cpu
    }

    /// The byte after the opcode under the program counter.
    pub fn next_byte(&self) -> (byte: u8)
        ensures
            byte == self@.next_byte(),
    {
        self.memory.read_byte(self.reg.pc.wrapping_add(1))
    }

    /// The little-endian word after the opcode under the program counter.
    pub fn next_word(&self) -> (word: u16)
        ensures
            word == self@.next_word(),
    {
        self.memory.read_word(self.reg.pc.wrapping_add(1))
    }

    /// The word that the pointer at `address` holds, both bytes taken from
    /// the page of `address`.
    pub(crate) fn read_pointer(&self, address: u16) -> (word: u16)
        ensures
            word == self@.read_pointer(address),
    {
        let low: u8 = self.memory.read_byte(address);
        let high: u8 = self.memory.read_byte((address / 256) * 256 + (address % 256 + 1) % 256);
        combine_bytes_to_u16(high, low)
    }

    /// `SEI` and `CLI`.
    fn set_interrupts_disabled(&mut self, status: bool)
        ensures
            final(self)@ == old(self)@.set_interrupts_disabled(status),
    {
        reveal(Machine::set_interrupts_disabled);
        self.reg.flags.interrupt_disable = status;
        self.next();
    }

    /// `SED` and `CLD`.
    fn set_decimal(&mut self, status: bool)
        ensures
            final(self)@ == old(self)@.set_decimal(status),
    {
        reveal(Machine::set_decimal);
        self.reg.flags.decimal = status;
        self.next();
    }

    /// `SEC` and `CLC`.
    fn set_carry(&mut self, status: bool)
        ensures
            final(self)@ == old(self)@.set_carry(status),
    {
        reveal(Machine::set_carry);
        self.reg.flags.carry = status;
        self.next();
    }

    /// `CLV`.
    fn set_overflow(&mut self, status: bool)
        ensures
            final(self)@ == old(self)@.set_overflow(status),
    {
        reveal(Machine::set_overflow);
        self.reg.flags.overflow = status;
        self.next();
    }

    /// Pushes `data` onto the stack.
    pub fn push_stack(&mut self, data: u8)
        ensures
            final(self)@ == old(self)@.push_stack(data),
    {
        self.memory.write_byte(self.reg.sp as u16 + 0x100, data);
        self.reg.sp = self.reg.sp.wrapping_sub(1);
    }

    /// Pushes `data` onto the stack, high byte first.
    pub fn push_stack_u16(&mut self, data: u16)
        ensures
            final(self)@ == old(self)@.push_stack_u16(data),
    {
        assert(data >> 8 == data / 256) by (bit_vector);
        assert(data & 0xFF == data % 256) by (bit_vector);
        let high: u8 = (data >> 8) as u8;
        let low: u8 = (data & 0xFF) as u8;
        self.push_stack(high);
        self.push_stack(low);
    }

    /// Pops a byte off the stack.
    pub fn pop_stack(&mut self) -> (data: u8)
        ensures
            data == old(self)@.stack_top(),
            final(self)@ == old(self)@.pop_stack(),
    {
        self.reg.sp = self.reg.sp.wrapping_add(1);
        self.memory.read_byte(self.reg.sp as u16 + 0x100)
    }

    /// Pops a word off the stack, low byte first.
    pub fn pop_stack_u16(&mut self) -> (data: u16)
        ensures
            data == old(self)@.stack_top_u16(),
            final(self)@ == old(self)@.pop_stack_u16(),
    {
        let low: u8 = self.pop_stack();
        let high: u8 = self.pop_stack();
        combine_bytes_to_u16(high, low)
    }

    /// The address that the current instruction works on.
    pub(crate) fn get_mode_address(&self) -> (address: u16)
        ensures
            address == self@.get_mode_address(),
    {
        match self.current.mode {
            AddressingMode::Implied => 0,
            AddressingMode::Immediate => 0,
            AddressingMode::Accumulator => 0,
            AddressingMode::Relative => 0,
            AddressingMode::Absolute => self.next_word(),
            AddressingMode::AbsoluteX => self.next_word().wrapping_add(self.reg.idx as u16),
            AddressingMode::AbsoluteY => self.next_word().wrapping_add(self.reg.idy as u16),
            AddressingMode::ZeroPage => self.next_byte() as u16,
            AddressingMode::ZeroPageX => self.next_byte().wrapping_add(self.reg.idx) as u16,
            AddressingMode::ZeroPageY => self.next_byte().wrapping_add(self.reg.idy) as u16,
            AddressingMode::XIndirect => self.get_indirect_x(),
            AddressingMode::YIndirect => self.get_indirect_y(),
            AddressingMode::Indirect => self.read_pointer(self.next_word()),
        }
    }

    /// The address for the mode `(zp,X)`.
    fn get_indirect_x(&self) -> (address: u16)
        ensures
            address == self@.get_indirect_x(),
    {
        let pointer: u8 = self.next_byte().wrapping_add(self.reg.idx);
        self.read_pointer(pointer as u16)
    }

    /// The address for the mode `(zp),Y`.
    fn get_indirect_y(&self) -> (address: u16)
        ensures
            address == self@.get_indirect_y(),
    {
        let pointer: u8 = self.next_byte();
        self.read_pointer(pointer as u16).wrapping_add(self.reg.idy as u16)
    }

    /// The byte that the current instruction works on.
    fn operand(&self) -> (value: u8)
        ensures
            value == self@.operand(),
    {
        match self.current.mode {
            AddressingMode::Immediate => self.next_byte(),
            AddressingMode::Accumulator => self.reg.accumulator,
            _ => self.memory.read_byte(self.get_mode_address()),
        }
    }

    /// Puts `value` where the operand of the current instruction came from.
    fn store_result(&mut self, value: u8)
        ensures
            final(self)@ == old(self)@.store_result(value),
    {
        match self.current.mode {
            AddressingMode::Accumulator => {
                self.reg.accumulator = value;
            },
            _ => {
                let address: u16 = self.get_mode_address();
                self.memory.write_byte(address, value);
            },
        }
    }

    /// The mask of the unstable stores.
    fn high_byte_plus_one(&self) -> (mask: u8)
        ensures
            mask == self@.high_byte_plus_one(),
    {
        let base: u16 = match self.current.mode {
            AddressingMode::YIndirect => self.read_pointer(self.next_byte() as u16),
            _ => self.next_word(),
        };
        ((base / 256) as u8).wrapping_add(1)
    }

    /// Takes carry, zero and negative from a comparison.
    fn set_comparison(&mut self, found: Comparison)
        ensures
            final(self)@ == old(self)@.with_comparison(found),
    {
        self.reg.flags.carry = found.carry;
        self.reg.flags.zero = found.zero;
        self.reg.flags.negative = found.negative;
    }

    /// Takes the accumulator and the flags from a sum.
    fn set_sum(&mut self, sum: Sum)
        ensures
            final(self)@ == old(self)@.with_sum(sum),
    {
        self.reg.accumulator = sum.value;
        self.reg.flags.carry = sum.carry;
        self.reg.flags.overflow = sum.overflow;
        self.update_zero_and_negative(sum.value);
    }

    /// `TXA` and `TYA`.
    fn reg_to_a(&mut self)
        ensures
            final(self)@ == old(self)@.reg_to_a(),
    {
        reveal(Machine::reg_to_a);
        let source_register: u8 = match self.current.op {
            Instructions::XToAccumulator => self.reg.idx,
            Instructions::YToAccumulator => self.reg.idy,
            _ => self.reg.accumulator,
        };
        self.reg.accumulator = source_register;
        self.update_zero_and_negative(source_register);
        self.next();
    }

    /// `TAX` and `TAY`.
    fn a_to_reg(&mut self)
        ensures
            final(self)@ == old(self)@.a_to_reg(),
    {
        reveal(Machine::a_to_reg);
        let value: u8 = self.reg.accumulator;
        match self.current.op {
            Instructions::AccumulatorToX => {
                self.reg.idx = value;
            },
            Instructions::AccumulatorToY => {
                self.reg.idy = value;
            },
            _ => {},
        }
        self.update_zero_and_negative(value);
        self.next();
    }

    /// `BIT`.
    fn test_bit(&mut self)
        ensures
            final(self)@ == old(self)@.test_bit(),
    {
        reveal(Machine::test_bit);
        let operand: u8 = self.operand();
        assert((operand & 0x40 != 0) == ((operand / 64) % 2 == 1)) by (bit_vector);
        self.reg.flags.overflow = operand & 0x40 != 0;
        self.reg.flags.negative = sign_bit(operand);
        self.reg.flags.zero = self.reg.accumulator & operand == 0;
        self.next();
    }

    /// Move the processor program counter to the next instruction in memory.
    fn next(&mut self)
        ensures
            final(self)@ == old(self)@.next(),
    {
        self.reg.pc = self.reg.pc.wrapping_add(self.current.mode.get_increment());
    }

    /// Sets zero and negative after `value`.
    fn update_zero_and_negative(&mut self, value: u8)
        ensures
            final(self)@ == old(self)@.update_zero_and_negative(value),
    {
        self.reg.flags.zero = value == 0;
        self.reg.flags.negative = sign_bit(value);
    }

    /// Load a value into a register
    fn load_register(&mut self)
        ensures
            final(self)@ == old(self)@.load_register(),
    {
        reveal(Machine::load_register);
        let value: u8 = self.operand();
        match self.current.op {
            Instructions::LoadAccumulator => {
                self.reg.accumulator = value;
            },
            Instructions::LoadX => {
                self.reg.idx = value;
            },
            Instructions::LoadY => {
                self.reg.idy = value;
            },
            _ => {},
        }
        self.update_zero_and_negative(value);
        self.next();
    }

    /// Store a register in memory
    fn store_register(&mut self)
        ensures
            final(self)@ == old(self)@.store_register(),
    {
        reveal(Machine::store_register);
        let address: u16 = self.get_mode_address();
        let register_value: u8 = match self.current.op {
            Instructions::StoreAccumulator => self.reg.accumulator,
            Instructions::StoreX => self.reg.idx,
            Instructions::StoreY => self.reg.idy,
            _ => 0,
        };
        self.memory.write_byte(address, register_value);
        self.next();
    }

    /// Increase a register by one
    fn increase_register(&mut self)
        ensures
            final(self)@ == old(self)@.increase_register(),
    {
        reveal(Machine::increase_register);
        match self.current.op {
            Instructions::IncrementX => {
                let value: u8 = self.reg.idx.wrapping_add(1);
                self.reg.idx = value;
                self.update_zero_and_negative(value);
            },
            Instructions::IncrementY => {
                let value: u8 = self.reg.idy.wrapping_add(1);
                self.reg.idy = value;
                self.update_zero_and_negative(value);
            },
            _ => {},
        }
        self.next();
    }

    /// Decrease a register by one
    fn decrease_register(&mut self)
        ensures
            final(self)@ == old(self)@.decrease_register(),
    {
        reveal(Machine::decrease_register);
        match self.current.op {
            Instructions::DecrementX => {
                let value: u8 = self.reg.idx.wrapping_sub(1);
                self.reg.idx = value;
                self.update_zero_and_negative(value);
            },
            Instructions::DecrementY => {
                let value: u8 = self.reg.idy.wrapping_sub(1);
                self.reg.idy = value;
                self.update_zero_and_negative(value);
            },
            _ => {},
        }
        self.next();
    }

    /// `DEC`.
    fn decrement_mem(&mut self)
        ensures
            final(self)@ == old(self)@.decrement_mem(),
    {
        reveal(Machine::decrement_mem);
        let result: u8 = self.operand().wrapping_sub(1);
        self.store_result(result);
        self.update_zero_and_negative(result);
        self.next();
    }

    /// `INC`.
    fn increment_mem(&mut self)
        ensures
            final(self)@ == old(self)@.increment_mem(),
    {
        reveal(Machine::increment_mem);
        let result: u8 = self.operand().wrapping_add(1);
        self.store_result(result);
        self.update_zero_and_negative(result);
        self.next();
    }

    /// `ASL`.
    fn shift_one_left(&mut self)
        ensures
            final(self)@ == old(self)@.shift_one_left(),
    {
        reveal(Machine::shift_one_left);
        let shifted = rotate_left_byte(self.operand(), false);
        self.store_result(shifted.value);
        self.reg.flags.carry = shifted.carry;
        self.update_zero_and_negative(shifted.value);
        self.next();
    }

    /// `LSR`.
    fn shift_one_right(&mut self)
        ensures
            final(self)@ == old(self)@.shift_one_right(),
    {
        reveal(Machine::shift_one_right);
        let shifted = rotate_right_byte(self.operand(), false);
        self.store_result(shifted.value);
        self.reg.flags.carry = shifted.carry;
        self.update_zero_and_negative(shifted.value);
        self.next();
    }

    /// `ROL` and `ROR`.
    fn rotate(&mut self)
        ensures
            final(self)@ == old(self)@.rotate(),
    {
        reveal(Machine::rotate);
        let value: u8 = self.operand();
        let shifted = if self.current.op == Instructions::RotateOneLeft {
            rotate_left_byte(value, self.reg.flags.carry)
        } else {
            rotate_right_byte(value, self.reg.flags.carry)
        };
        self.store_result(shifted.value);
        self.reg.flags.carry = shifted.carry;
        self.update_zero_and_negative(shifted.value);
        self.next();
    }

    /// `AND`.
    fn and(&mut self)
        ensures
            final(self)@ == old(self)@.and(),
    {
        reveal(Machine::and);
        let value: u8 = self.reg.accumulator & self.operand();
        self.reg.accumulator = value;
        self.update_zero_and_negative(value);
        self.next();
    }

    /// `ORA`.
    fn or(&mut self)
        ensures
            final(self)@ == old(self)@.or(),
    {
        reveal(Machine::or);
        let value: u8 = self.reg.accumulator | self.operand();
        self.reg.accumulator = value;
        self.update_zero_and_negative(value);
        self.next();
    }

    /// `EOR`.
    fn eor(&mut self)
        ensures
            final(self)@ == old(self)@.eor(),
    {
        reveal(Machine::eor);
        let value: u8 = self.reg.accumulator ^ self.operand();
        self.reg.accumulator = value;
        self.update_zero_and_negative(value);
        self.next();
    }

    /// `ADC`.
    fn add_mem_to_accumulator_with_carry(&mut self)
        ensures
            final(self)@ == old(self)@.add_mem_to_accumulator_with_carry(),
    {
        reveal(Machine::add_mem_to_accumulator_with_carry);
        let operand: u8 = self.operand();
        self.set_sum(add_bytes(self.reg.accumulator, operand, self.reg.flags.carry));
        self.next();
    }

    /// `SBC` and `USBC`.
    fn subtract_accumulator_with_borrow(&mut self)
        ensures
            final(self)@ == old(self)@.subtract_accumulator_with_borrow(),
    {
        reveal(Machine::subtract_accumulator_with_borrow);
        let operand: u8 = self.operand();
        self.set_sum(subtract_bytes(self.reg.accumulator, operand, self.reg.flags.carry));
        self.next();
    }

    /// Points the program counter at `addr`.
    pub fn set_pc(&mut self, addr: u16)
        ensures
            final(self)@ == old(self)@.set_pc(addr),
    {
        self.reg.pc = addr;
    }

    /// Maps the program banks of a cartridge without a mapper: the first
    /// bank at `PROGRAM_START`, and at `UPPER_BANK_START` the second, or the
    /// first once more where it is the only one. The program counter goes to
    /// `UPPER_BANK_START`. The cartridge has to hold a program bank.
    pub fn load_rom(&mut self, rom: &NesRom)
        requires
            rom.prg_rom@.len() >= 1,
        ensures
            final(self)@ == old(self)@.load_banks(
                rom.prg_rom@[0]@,
                if rom.prg_rom@.len() > 1 {
                    rom.prg_rom@[1]@
                } else {
                    rom.prg_rom@[0]@
                },
            ),
    {
        self.memory.write_bytes(PROGRAM_START, &rom.prg_rom[0]);
        if rom.prg_rom.len() > 1 {
            self.memory.write_bytes(UPPER_BANK_START, &rom.prg_rom[1]);
        } else {
            self.memory.write_bytes(UPPER_BANK_START, &rom.prg_rom[0]);
        }
        self.set_pc(UPPER_BANK_START);
    }

    /// Loads `data` as the program and points the program counter at it. The
    /// program has to fit between `PROGRAM_START` and the top of memory.
    pub fn load_bytes(&mut self, data: &[u8])
        requires
            PROGRAM_START + data@.len() <= 0x1_0000,
        ensures
            final(self)@ == old(self)@.load_bytes(data@),
    {
        self.memory.write_bytes(PROGRAM_START, data);
        self.set_pc(PROGRAM_START);
    }

    /// `CMP`, `CPX` and `CPY`.
    fn compare_register(&mut self)
        ensures
            final(self)@ == old(self)@.compare_register(),
    {
        reveal(Machine::compare_register);
        let value: u8 = self.operand();
        let register: u8 = match self.current.op {
            Instructions::CompareX => self.reg.idx,
            Instructions::CompareY => self.reg.idy,
            _ => self.reg.accumulator,
        };
        self.set_comparison(compare_bytes(register, value));
        self.next();
    }

    /// Whether the flags meet the condition of the current branch.
    pub(crate) fn branch_condition(&self) -> (condition: bool)
        ensures
            condition == self@.branch_condition(),
    {
        match self.current.op {
            Instructions::BranchOnResultMinus => self.reg.flags.negative,
            Instructions::BranchOnResultZero => self.reg.flags.zero,
            Instructions::BranchNotZero => !self.reg.flags.zero,
            Instructions::BranchOnResultPlus => !self.reg.flags.negative,
            Instructions::BranchOnOverflowSet => self.reg.flags.overflow,
            Instructions::BranchOverflowClear => !self.reg.flags.overflow,
            Instructions::BranchOnCarrySet => self.reg.flags.carry,
            Instructions::BranchOnCarryClear => !self.reg.flags.carry,
            _ => false,
        }
    }

    /// The conditional branches.
    fn branch(&mut self)
        ensures
            final(self)@ == old(self)@.branch(),
    {
        reveal(Machine::branch);
        let condition = self.branch_condition();
        if condition {
            let offset: u8 = self.next_byte();
            self.reg.pc = branch_address(self.reg.pc, offset);
        } else {
            self.next();
        }
    }

    /// `JMP`.
    fn jump(&mut self)
        ensures
            final(self)@ == old(self)@.jump(),
    {
        reveal(Machine::jump);
        let target: u16 = self.get_mode_address();
        self.set_pc(target);
    }

    /// `JSR`.
    fn jump_subroutine(&mut self)
        ensures
            final(self)@ == old(self)@.jump_subroutine(),
    {
        reveal(Machine::jump_subroutine);
        let target: u16 = self.get_mode_address();
        self.push_stack_u16(self.reg.pc.wrapping_add(2));
        self.set_pc(target);
    }

    /// `RTS`.
    fn return_from_subroutine(&mut self)
        ensures
            final(self)@ == old(self)@.return_from_subroutine(),
    {
        reveal(Machine::return_from_subroutine);
        let addr: u16 = self.pop_stack_u16().wrapping_add(1);
        self.set_pc(addr);
    }

    /// `RTI`.
    fn return_from_interrupt(&mut self)
        ensures
            final(self)@ == old(self)@.return_from_interrupt(),
    {
        reveal(Machine::return_from_interrupt);
        let status: u8 = self.pop_stack();
        let addr: u16 = self.pop_stack_u16();
        self.reg.flags.set_byte(status);
        self.set_pc(addr);
    }

    /// `BRK`.
    fn breakpoint(&mut self)
        ensures
            final(self)@ == old(self)@.breakpoint(),
    {
        reveal(Machine::breakpoint);
        let status: u8 = self.reg.flags.as_pushed_byte();
        self.push_stack_u16(self.reg.pc.wrapping_add(2));
        self.push_stack(status);
        self.reg.flags.interrupt_disable = true;
        let target: u16 = self.memory.read_word(IRQ_VECTOR);
        self.set_pc(target);
    }

    /// `PHA`.
    fn push_accumulator(&mut self)
        ensures
            final(self)@ == old(self)@.push_accumulator(),
    {
        reveal(Machine::push_accumulator);
        self.push_stack(self.reg.accumulator);
        self.next();
    }

    /// `PLA`.
    fn pop_accumulator(&mut self)
        ensures
            final(self)@ == old(self)@.pop_accumulator(),
    {
        reveal(Machine::pop_accumulator);
        let value: u8 = self.pop_stack();
        self.reg.accumulator = value;
        self.update_zero_and_negative(value);
        self.next();
    }

    /// `PHP`.
    fn push_status(&mut self)
        ensures
            final(self)@ == old(self)@.push_status(),
    {
        reveal(Machine::push_status);
        let status: u8 = self.reg.flags.as_pushed_byte();
        self.push_stack(status);
        self.next();
    }

    /// `PLP`.
    fn pull_status(&mut self)
        ensures
            final(self)@ == old(self)@.pull_status(),
    {
        reveal(Machine::pull_status);
        let status: u8 = self.pop_stack();
        self.reg.flags.set_byte(status);
        self.next();
    }

    /// `LAX` and `LXA`.
    fn lax(&mut self)
        ensures
            final(self)@ == old(self)@.lax(),
    {
        reveal(Machine::lax);
        let value: u8 = self.operand();
        self.reg.accumulator = value;
        self.reg.idx = value;
        self.update_zero_and_negative(value);
        self.next();
    }

    /// `SAX`.
    fn sax(&mut self)
        ensures
            final(self)@ == old(self)@.sax(),
    {
        reveal(Machine::sax);
        let address: u16 = self.get_mode_address();
        self.memory.write_byte(address, self.reg.accumulator & self.reg.idx);
        self.next();
    }

    /// `SLO`.
    fn slo(&mut self)
        ensures
            final(self)@ == old(self)@.slo(),
    {
        reveal(Machine::slo);
        let shifted = rotate_left_byte(self.operand(), false);
        let value: u8 = self.reg.accumulator | shifted.value;
        self.store_result(shifted.value);
        self.reg.accumulator = value;
        self.reg.flags.carry = shifted.carry;
        self.update_zero_and_negative(value);
        self.next();
    }

    /// `RLA`.
    fn rla(&mut self)
        ensures
            final(self)@ == old(self)@.rla(),
    {
        reveal(Machine::rla);
        let shifted = rotate_left_byte(self.operand(), self.reg.flags.carry);
        let value: u8 = self.reg.accumulator & shifted.value;
        self.store_result(shifted.value);
        self.reg.accumulator = value;
        self.reg.flags.carry = shifted.carry;
        self.update_zero_and_negative(value);
        self.next();
    }

    /// `SRE`.
    fn sre(&mut self)
        ensures
            final(self)@ == old(self)@.sre(),
    {
        reveal(Machine::sre);
        let shifted = rotate_right_byte(self.operand(), false);
        let value: u8 = self.reg.accumulator ^ shifted.value;
        self.store_result(shifted.value);
        self.reg.accumulator = value;
        self.reg.flags.carry = shifted.carry;
        self.update_zero_and_negative(value);
        self.next();
    }

    /// `RRA`.
    fn rra(&mut self)
        ensures
            final(self)@ == old(self)@.rra(),
    {
        reveal(Machine::rra);
        let shifted = rotate_right_byte(self.operand(), self.reg.flags.carry);
        let sum = add_bytes(self.reg.accumulator, shifted.value, shifted.carry);
        self.store_result(shifted.value);
        self.set_sum(sum);
        self.next();
    }

    /// `DCP`.
    fn dcp(&mut self)
        ensures
            final(self)@ == old(self)@.dcp(),
    {
        reveal(Machine::dcp);
        let value: u8 = self.operand().wrapping_sub(1);
        let found = compare_bytes(self.reg.accumulator, value);
        self.store_result(value);
        self.set_comparison(found);
        self.next();
    }

    /// `ISC`.
    fn isc(&mut self)
        ensures
            final(self)@ == old(self)@.isc(),
    {
        reveal(Machine::isc);
        let value: u8 = self.operand().wrapping_add(1);
        let sum = subtract_bytes(self.reg.accumulator, value, self.reg.flags.carry);
        self.store_result(value);
        self.set_sum(sum);
        self.next();
    }

    /// `ANC`.
    fn anc(&mut self)
        ensures
            final(self)@ == old(self)@.anc(),
    {
        reveal(Machine::anc);
        let value: u8 = self.reg.accumulator & self.operand();
        self.reg.accumulator = value;
        self.reg.flags.carry = sign_bit(value);
        self.update_zero_and_negative(value);
        self.next();
    }

    /// `ALR`.
    fn alr(&mut self)
        ensures
            final(self)@ == old(self)@.alr(),
    {
        reveal(Machine::alr);
        let shifted = rotate_right_byte(self.reg.accumulator & self.operand(), false);
        self.reg.accumulator = shifted.value;
        self.reg.flags.carry = shifted.carry;
        self.update_zero_and_negative(shifted.value);
        self.next();
    }

    /// `ARR`.
    fn arr(&mut self)
        ensures
            final(self)@ == old(self)@.arr(),
    {
        reveal(Machine::arr);
        let shifted = rotate_right_byte(
            self.reg.accumulator & self.operand(),
            self.reg.flags.carry,
        );
        self.reg.accumulator = shifted.value;
        self.reg.flags.carry = shifted.carry;
        self.update_zero_and_negative(shifted.value);
        self.next();
    }

    /// `SBX`.
    fn sbx(&mut self)
        ensures
            final(self)@ == old(self)@.sbx(),
    {
        reveal(Machine::sbx);
        let shared: u8 = self.reg.accumulator & self.reg.idx;
        let operand: u8 = self.operand();
        self.reg.idx = shared.wrapping_sub(operand);
        self.set_comparison(compare_bytes(shared, operand));
        self.next();
    }

    /// `ANE`.
    fn ane(&mut self)
        ensures
            final(self)@ == old(self)@.ane(),
    {
        reveal(Machine::ane);
        let value: u8 = self.reg.idx & self.operand();
        self.reg.accumulator = value;
        self.update_zero_and_negative(value);
        self.next();
    }

    /// `LAS`.
    fn las(&mut self)
        ensures
            final(self)@ == old(self)@.las(),
    {
        reveal(Machine::las);
        let value: u8 = self.operand() & self.reg.sp;
        self.reg.accumulator = value;
        self.reg.idx = value;
        self.reg.sp = value;
        self.update_zero_and_negative(value);
        self.next();
    }

    /// `SHA`, `SHX`, `SHY` and `TAS`.
    fn store_high_masked(&mut self)
        ensures
            final(self)@ == old(self)@.store_high_masked(),
    {
        reveal(Machine::store_high_masked);
        let shared: u8 = self.reg.accumulator & self.reg.idx;
        let value: u8 = match self.current.op {
            Instructions::SHX => self.reg.idx,
            Instructions::SHY => self.reg.idy,
            _ => shared,
        };
        let address: u16 = self.get_mode_address();
        let mask: u8 = self.high_byte_plus_one();
        self.memory.write_byte(address, value & mask);
        if self.current.op == Instructions::TAS {
            self.reg.sp = shared;
        }
        self.next();
    }

    /// Runs the current instruction, whatever the state of the processor.
    fn perform(&mut self)
        ensures
            final(self)@ == old(self)@.perform(),
    {
        reveal(Machine::stack_pointer_to_x);
        reveal(Machine::x_to_stack_pointer);
        match self.current.op {
            Instructions::SetInterruptDisable => self.set_interrupts_disabled(true),
            Instructions::ClearInterruptDisable => self.set_interrupts_disabled(false),
            Instructions::SetDecimalMode => self.set_decimal(true),
            Instructions::ClearDecimalMode => self.set_decimal(false),
            Instructions::ClearOverflow => self.set_overflow(false),
            Instructions::SetCarry => self.set_carry(true),
            Instructions::ClearCarry => self.set_carry(false),
            Instructions::LoadAccumulator
            | Instructions::LoadX
            | Instructions::LoadY => self.load_register(),
            Instructions::StoreAccumulator
            | Instructions::StoreX
            | Instructions::StoreY => self.store_register(),
            Instructions::XToStackPointer => {
                self.reg.sp = self.reg.idx;
                self.next();
            },
            Instructions::StackPointerToX => {
                self.reg.idx = self.reg.sp;
                self.update_zero_and_negative(self.reg.sp);
                self.next();
            },
            Instructions::EORAccumulator => self.eor(),
            Instructions::ORAccumulator => self.or(),
            Instructions::ANDAccumulator => self.and(),
            Instructions::CompareAccumulator
            | Instructions::CompareX
            | Instructions::CompareY => self.compare_register(),
            Instructions::BranchOnCarrySet
            | Instructions::BranchOnCarryClear
            | Instructions::BranchOnResultZero
            | Instructions::BranchOnResultMinus
            | Instructions::BranchNotZero
            | Instructions::BranchOnResultPlus
            | Instructions::BranchOverflowClear
            | Instructions::BranchOnOverflowSet => self.branch(),
            Instructions::DecrementX | Instructions::DecrementY => self.decrease_register(),
            Instructions::DecrementMem => self.decrement_mem(),
            Instructions::IncrementX | Instructions::IncrementY => self.increase_register(),
            Instructions::IncrementMem => self.increment_mem(),
            Instructions::JumpSubroutine => self.jump_subroutine(),
            Instructions::Jump => self.jump(),
            Instructions::PopAccOffStack => self.pop_accumulator(),
            Instructions::PullStatusFromStack => self.pull_status(),
            Instructions::PushAccOnStack => self.push_accumulator(),
            Instructions::PushStatusOnStack => self.push_status(),
            Instructions::ShiftOneRight => self.shift_one_right(),
            Instructions::ShiftOneLeft => self.shift_one_left(),
            Instructions::RotateOneLeft | Instructions::RotateOneRight => self.rotate(),
            Instructions::ReturnFromInterrupt => self.return_from_interrupt(),
            Instructions::ReturnFromSubroutine => self.return_from_subroutine(),
            Instructions::AccumulatorToY | Instructions::AccumulatorToX => self.a_to_reg(),
            Instructions::XToAccumulator | Instructions::YToAccumulator => self.reg_to_a(),
            Instructions::AddToAccWithCarry => self.add_mem_to_accumulator_with_carry(),
            Instructions::TestBitsAccumulator => self.test_bit(),
            Instructions::SubAccWithBorrow
            | Instructions::USBC => self.subtract_accumulator_with_borrow(),
            Instructions::MissingOperation => {
                self.state = CpuState::Faulted;
            },
            Instructions::NoOperation => self.next(),
            Instructions::JAM => {
                self.state = CpuState::Halted;
            },
            Instructions::ForceBreak => self.breakpoint(),
            Instructions::ISC => self.isc(),
            Instructions::SLO => self.slo(),
            Instructions::SAX => self.sax(),
            Instructions::DCP => self.dcp(),
            Instructions::ARR => self.arr(),
            Instructions::ANE => self.ane(),
            Instructions::LAX | Instructions::LXA => self.lax(),
            Instructions::RLA => self.rla(),
            Instructions::ANC => self.anc(),
            Instructions::SRE => self.sre(),
            Instructions::RRA => self.rra(),
            Instructions::ALR => self.alr(),
            Instructions::LAS => self.las(),
            Instructions::SBX => self.sbx(),
            Instructions::TAS
            | Instructions::SHA
            | Instructions::SHY
            | Instructions::SHX => self.store_high_masked(),
        }
    }

    /// Runs the current instruction and counts the clock cycles it takes.
    fn run(&mut self)
        ensures
            final(self)@ == old(self)@.run(),
    {
        let cycles: usize = self.cycles();
        self.perform();
        self.tick = self.tick.wrapping_add(cycles);
    }

    /// Executes the current instruction and counts its clock cycles. A
    /// processor that does not run stays as it is. A running processor
    /// faults where no opcode stands for the pair of operation and
    /// addressing mode that it holds.
    pub fn execute(&mut self)
        ensures
            final(self)@ == old(self)@.execute(),
    {
        if self.state != CpuState::Running {
            return ;
        }
        if !can_encode(self.current.op, self.current.mode) {
            self.state = CpuState::Faulted;
            return ;
        }
        self.run();
    }

    /// One step: fetches the instruction under the program counter, decodes
    /// it, keeps it as the current instruction, executes it and counts its
    /// clock cycles. A processor that does not run stays as it is.
    pub fn fetch_decode_next(&mut self)
        ensures
            final(self)@ == old(self)@.fetch_decode_next(),
    {
        if self.state != CpuState::Running {
            return ;
        }
        let next_instruction: u8 = self.memory.read_byte(self.reg.pc);
        let (instruction, addressing_mode) = Self::decode_instruction(next_instruction);
        self.current = CurrentInstruction { op: instruction, mode: addressing_mode };
        self.run();
    }
}

/// The flags that a status byte holds are the flags it was packed from.
pub proof fn lemma_flags_from_own_byte(flags: CPUFlags)
    ensures
        CPUFlags::from_byte(flags.byte()) == flags,
        CPUFlags::from_byte(flags.pushed_byte()) == flags,
{
}

/// Packing the flags that a status byte holds gives the byte back but
/// for bits 4 and 5: bit 4 comes out clear and bit 5 set.
pub proof fn lemma_byte_of_flags(byte: u8)
    ensures
        CPUFlags::from_byte(byte).byte() == (byte & 0b1100_1111) | 0b0010_0000,
{
    let c: u8 = if byte % 2 == 1 { 1 } else { 0 };
    let z: u8 = if (byte / 2) % 2 == 1 { 2 } else { 0 };
    let i: u8 = if (byte / 4) % 2 == 1 { 4 } else { 0 };
    let d: u8 = if (byte / 8) % 2 == 1 { 8 } else { 0 };
    let v: u8 = if (byte / 64) % 2 == 1 { 64 } else { 0 };
    let n: u8 = if byte >= 128 { 128 } else { 0 };
    assert(c + z + i + d + 32 + v + n == (byte & 0b1100_1111) | 0b0010_0000) by (bit_vector)
        requires
            c == (if byte % 2 == 1 { 1u8 } else { 0 }),
            z == (if (byte / 2) % 2 == 1 { 2u8 } else { 0 }),
            i == (if (byte / 4) % 2 == 1 { 4u8 } else { 0 }),
            d == (if (byte / 8) % 2 == 1 { 8u8 } else { 0 }),
            v == (if (byte / 64) % 2 == 1 { 64u8 } else { 0 }),
            n == (if byte >= 128 { 128u8 } else { 0 }),
    ;
}

/// Bit 4 of the status byte of the flags is clear.
proof fn lemma_break_mark_clear(flags: CPUFlags)
    ensures
        flags.byte() & 0b0001_0000 == 0,
{
    let c: u8 = bit(flags.carry) as u8;
    let z: u8 = bit(flags.zero) as u8;
    let i: u8 = bit(flags.interrupt_disable) as u8;
    let d: u8 = bit(flags.decimal) as u8;
    let v: u8 = bit(flags.overflow) as u8;
    let n: u8 = bit(flags.negative) as u8;
    assert(((c + 2 * z + 4 * i + 8 * d + 32 + 64 * v + 128 * n) as u8) & 0b0001_0000 == 0)
        by (bit_vector)
        requires
            c <= 1,
            z <= 1,
            i <= 1,
            d <= 1,
            v <= 1,
            n <= 1,
    ;
}

} // verus!
