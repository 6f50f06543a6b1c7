//! Arithmetic on bytes as the processor does it: what each operation of the
//! arithmetic unit gives, stated over the integers, and the same computed
//! with the operators of the machine.

use vstd::prelude::*;

verus! {

/// One for a set flag, zero for a clear one.
pub open spec fn bit(flag: bool) -> int {
    if flag {
        1
    } else {
        0
    }
}

/// `value` brought into the range of a byte.
pub open spec fn wrap8(value: int) -> u8 {
    (value % 0x100) as u8
}

/// `value` brought into the range of a 16-bit address.
pub open spec fn wrap16(value: int) -> u16 {
    (value % 0x1_0000) as u16
}

/// Bit 7 of a byte, its sign when the byte is read as a signed number.
pub open spec fn is_negative(value: u8) -> bool {
    value >= 0x80
}

/// The byte in which every bit of `value` is inverted.
pub open spec fn complement(value: u8) -> u8 {
    (255 - value) as u8
}

/// What the adder hands back: the byte, the carry out of bit 7, and whether
/// the sum left the range of signed bytes.
pub struct Sum {
    pub value: u8,
    pub carry: bool,
    pub overflow: bool,
}

/// What a shift or rotation by one place hands back: the byte, and the bit
/// that left it.
pub struct Shifted {
    pub value: u8,
    pub carry: bool,
}

/// What a comparison finds: whether the register is at least the operand,
/// whether the two are equal, and bit 7 of their difference.
pub struct Comparison {
    pub carry: bool,
    pub zero: bool,
    pub negative: bool,
}

/// Binary addition of the accumulator, an operand and the carry.
pub open spec fn add_with_carry(accumulator: u8, operand: u8, carry: bool) -> Sum {
    let sum = accumulator + operand + bit(carry);
    let value = wrap8(sum);
    Sum {
        value,
        carry: sum > 255,
        overflow: is_negative(accumulator) == is_negative(operand) && is_negative(accumulator)
            != is_negative(value),
    }
}

/// Binary subtraction with borrow: the addition of the inverted operand.
/// A clear carry stands for a borrow.
pub open spec fn subtract_with_borrow(accumulator: u8, operand: u8, carry: bool) -> Sum {
    add_with_carry(accumulator, complement(operand), carry)
}

/// `value` moved one place to the left, with `carry_in` entering at bit 0.
pub open spec fn rotate_left(value: u8, carry_in: bool) -> Shifted {
    Shifted { value: wrap8(value * 2 + bit(carry_in)), carry: is_negative(value) }
}

/// `value` moved one place to the right, with `carry_in` entering at bit 7.
pub open spec fn rotate_right(value: u8, carry_in: bool) -> Shifted {
    Shifted { value: (value / 2 + 128 * bit(carry_in)) as u8, carry: value % 2 == 1 }
}

/// Arithmetic shift left: zero enters at bit 0.
pub open spec fn shift_left(value: u8) -> Shifted {
    rotate_left(value, false)
}

/// Logical shift right: zero enters at bit 7.
pub open spec fn shift_right(value: u8) -> Shifted {
    rotate_right(value, false)
}

/// `value` plus one, modulo 256.
pub open spec fn incremented(value: u8) -> u8 {
    wrap8(value + 1)
}

/// `value` minus one, modulo 256.
pub open spec fn decremented(value: u8) -> u8 {
    wrap8(value - 1)
}

/// The comparison of a register with an operand.
pub open spec fn compare(register: u8, operand: u8) -> Comparison {
    Comparison {
        carry: register >= operand,
        zero: register == operand,
        negative: is_negative(wrap8(register - operand)),
    }
}

/// The offset of a branch as the signed number it is.
pub open spec fn signed_offset(offset: u8) -> int {
    if offset >= 0x80 {
        offset - 256
    } else {
        offset as int
    }
}

/// Where a branch taken at `pc` with `offset` lands: the address after the
/// two bytes of the branch, plus the signed offset, within 16 bits.
pub open spec fn branch_target(pc: u16, offset: u8) -> u16 {
    wrap16(pc + 2 + signed_offset(offset))
}

/// Adding an operand and then subtracting it again changes the accumulator
/// by the two incoming carries less one. With a carry into the subtraction
/// that is the inverse of the carry into the addition, the accumulator is
/// what it was.
pub proof fn lemma_add_then_subtract(accumulator: u8, operand: u8, carry: bool, borrow: bool)
    ensures
        subtract_with_borrow(
            add_with_carry(accumulator, operand, carry).value,
            operand,
            borrow,
        ).value == wrap8(accumulator + bit(carry) + bit(borrow) - 1),
        borrow != carry ==> subtract_with_borrow(
            add_with_carry(accumulator, operand, carry).value,
            operand,
            borrow,
        ).value == accumulator,
{
}

/// Subtracting an operand and then adding it again does the same.
pub proof fn lemma_subtract_then_add(accumulator: u8, operand: u8, borrow: bool, carry: bool)
    ensures
        add_with_carry(
            subtract_with_borrow(accumulator, operand, borrow).value,
            operand,
            carry,
        ).value == wrap8(accumulator + bit(carry) + bit(borrow) - 1),
        borrow != carry ==> add_with_carry(
            subtract_with_borrow(accumulator, operand, borrow).value,
            operand,
            carry,
        ).value == accumulator,
{
}

/// A rotation to the left followed by one to the right, which takes the
/// carry that the first left behind, gives back the byte and the carry.
/// With any other carry going into the second rotation the byte comes back
/// with that carry as its bit 7: unchanged where the two agree, and not
/// otherwise.
pub proof fn lemma_rotate_left_then_right(value: u8, carry: bool, other: bool)
    ensures
        rotate_right(rotate_left(value, carry).value, rotate_left(value, carry).carry) == (Shifted {
            value,
            carry,
        }),
        rotate_right(rotate_left(value, carry).value, other).value == value % 128 + 128 * bit(
            other,
        ),
        rotate_right(rotate_left(value, carry).value, other).value == value <==> other
            == is_negative(value),
{
}

/// A rotation to the right followed by one to the left does the same.
pub proof fn lemma_rotate_right_then_left(value: u8, carry: bool)
    ensures
        rotate_left(rotate_right(value, carry).value, rotate_right(value, carry).carry) == (Shifted {
            value,
            carry,
        }),
{
}

/// A shift clears the carry where the bit that leaves the byte is clear:
/// bit 7 for a shift to the left, bit 0 for a shift to the right.
pub proof fn lemma_shift_carry(value: u8)
    ensures
        !is_negative(value) ==> !shift_left(value).carry,
        value % 2 == 0 ==> !shift_right(value).carry,
        shift_left(value).carry == is_negative(value),
        shift_right(value).carry == (value % 2 == 1),
{
}

/// A comparison sets carry where the register is at least the operand, zero
/// where the two are equal, and negative to bit 7 of their difference
/// modulo 256.
pub proof fn lemma_compare_flags(register: u8, operand: u8)
    ensures
        compare(register, operand).carry <==> register >= operand,
        compare(register, operand).zero <==> register == operand,
        compare(register, operand).negative == is_negative(wrap8(register - operand)),
        compare(register, operand).zero ==> compare(register, operand).carry && !compare(
            register,
            operand,
        ).negative,
{
}

pub(crate) fn sign_bit(value: u8) -> (set: bool)
    ensures
        set == is_negative(value),
{
    assert((value & 0x80 == 0x80) == (value >= 0x80)) by (bit_vector);
    value & 0x80 == 0x80
}

pub(crate) fn invert(value: u8) -> (inverted: u8)
    ensures
        inverted == complement(value),
{
    assert(value ^ 0xFF == 255 - value) by (bit_vector);
    value ^ 0xFF
}

pub(crate) fn add_bytes(accumulator: u8, operand: u8, carry: bool) -> (sum: Sum)
    ensures
        sum == add_with_carry(accumulator, operand, carry),
{
    let carry_in: u16 = if carry {
        1
    } else {
        0
    };
    let wide: u16 = accumulator as u16 + operand as u16 + carry_in;
    let value: u8 = (wide & 0xFF) as u8;
    let overflow = (accumulator ^ value) & (operand ^ value) & 0x80 != 0;
    assert(wide & 0xFF == wide % 256) by (bit_vector);
    assert(((accumulator ^ value) & (operand ^ value) & 0x80 != 0) == ((accumulator >= 0x80) == (
    operand >= 0x80) && (accumulator >= 0x80) != (value >= 0x80))) by (bit_vector);
    Sum { value, carry: wide > 0xFF, overflow }
}

pub(crate) fn subtract_bytes(accumulator: u8, operand: u8, carry: bool) -> (sum: Sum)
    ensures
        sum == subtract_with_borrow(accumulator, operand, carry),
{
    add_bytes(accumulator, invert(operand), carry)
}

pub(crate) fn rotate_left_byte(value: u8, carry_in: bool) -> (shifted: Shifted)
    ensures
        shifted == rotate_left(value, carry_in),
{
    let low: u8 = if carry_in {
        1
    } else {
        0
    };
    assert(((value << 1) | low) == (value * 2 + low) % 256) by (bit_vector)
        requires
            low <= 1,
    ;
    Shifted { value: (value << 1) | low, carry: sign_bit(value) }
}

pub(crate) fn rotate_right_byte(value: u8, carry_in: bool) -> (shifted: Shifted)
    ensures
        shifted == rotate_right(value, carry_in),
{
    let high: u8 = if carry_in {
        0x80
    } else {
        0
    };
    assert(((value >> 1) | high) == value / 2 + high) by (bit_vector)
        requires
            high == 0x80 || high == 0,
    ;
    assert((value & 0x01 == 0x01) == (value % 2 == 1)) by (bit_vector);
    Shifted { value: (value >> 1) | high, carry: value & 0x01 == 0x01 }
}

pub(crate) fn compare_bytes(register: u8, operand: u8) -> (found: Comparison)
    ensures
        found == compare(register, operand),
{
    let difference = register.wrapping_sub(operand);
    Comparison {
        carry: register >= operand,
        zero: register == operand,
        negative: sign_bit(difference),
    }
}

pub(crate) fn branch_address(pc: u16, offset: u8) -> (target: u16)
    ensures
        target == branch_target(pc, offset),
{
    let after = pc.wrapping_add(2);
    if offset < 0x80 {
        after.wrapping_add(offset as u16)
    } else {
        after.wrapping_sub(0x100 - offset as u16)
    }
}

} // verus!
