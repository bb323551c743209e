//! The arithmetic of the instruction set on 64-bit registers: what wraps,
//! what is read as signed, what is sign-extended and how shifts count. Each
//! notion is a specification function; the executable helpers compute them
//! with the machine's own operations.

use vstd::prelude::*;

verus! {

/// The register value that stands for the integer `x`: `x` modulo 2^64.
pub open spec fn wrap64(x: int) -> u64 {
    (x % 0x1_0000_0000_0000_0000) as u64
}

/// The integer that the bit pattern `value`, with `0 <= value < modulus`,
/// stands for in two's complement, where `modulus` is two to the power of the
/// pattern's width: the upper half of the patterns stands for the negative
/// numbers.
pub open spec fn twos_complement(value: int, modulus: int) -> int {
    if 2 * value >= modulus {
        value - modulus
    } else {
        value
    }
}

/// The integer that a register value stands for when it is read as signed.
pub open spec fn signed64(x: u64) -> int {
    twos_complement(x as int, 0x1_0000_0000_0000_0000)
}

/// The low bits of `value`, as many as `modulus` is a power of two, read as a
/// signed number and widened to 64 bits.
pub open spec fn sign_extend(value: u64, modulus: int) -> u64 {
    wrap64(twos_complement(value as int % modulus, modulus))
}

/// The low 32 bits of `value`, sign-extended to 64 bits.
pub open spec fn sign_extend_word(value: u64) -> u64 {
    sign_extend(value, 0x1_0000_0000)
}

/// One for true and zero for false.
pub open spec fn flag(b: bool) -> u64 {
    if b {
        1
    } else {
        0
    }
}

/// `value` shifted left by the low six bits of `amount`; the bits that leave
/// at the top are lost.
pub open spec fn shift_left(value: u64, amount: u64) -> u64 {
    value << (amount % 64)
}

/// `value` shifted right by the low six bits of `amount`, with zeros coming
/// in at the top.
pub open spec fn shift_right_logical(value: u64, amount: u64) -> u64 {
    value >> (amount % 64)
}

/// `value` shifted right by the low six bits of `amount`, with copies of its
/// sign bit coming in at the top.
pub open spec fn shift_right_arithmetic(value: u64, amount: u64) -> u64 {
    ((value as i64) >> (amount % 64)) as u64
}

/// The low word of `value` shifted left by the low five bits of `amount`,
/// sign-extended.
pub open spec fn shift_left_word(value: u64, amount: u64) -> u64 {
    sign_extend_word(((value as u32) << (amount % 32)) as u64)
}

/// The low word of `value` shifted right by the low five bits of `amount`
/// with zeros coming in at bit 31, sign-extended.
pub open spec fn shift_right_logical_word(value: u64, amount: u64) -> u64 {
    sign_extend_word(((value as u32) >> (amount % 32)) as u64)
}

/// The low word of `value` shifted right by the low five bits of `amount`
/// with copies of bit 31 coming in, sign-extended.
pub open spec fn shift_right_arithmetic_word(value: u64, amount: u64) -> u64 {
    ((value as i32) >> (amount % 32)) as i64 as u64
}

/// The cast from `i64` to `u64` adds 2^64 to the negative numbers and
/// leaves the others as they are.
pub proof fn lemma_cast_signed(x: i64)
    by (bit_vector)
    ensures
        x as u64 == (if x < 0 {
            x + 0x1_0000_0000_0000_0000
        } else {
            x as int
        }),
{
}

/// The cast from `u64` to `i64` takes 2^64 off the upper half of the values
/// and leaves the others as they are.
proof fn lemma_cast_unsigned(x: u64)
    by (bit_vector)
    ensures
        x as i64 == (if x >= 0x8000_0000_0000_0000 {
            x - 0x1_0000_0000_0000_0000
        } else {
            x as int
        }),
{
}

/// The casts from `u64` to the narrower signed types keep the low bits and
/// read them in two's complement.
pub proof fn lemma_narrow(x: u64)
    by (bit_vector)
    ensures
        x as i8 as i64 == (if x % 0x100 >= 0x80 {
            x % 0x100 - 0x100
        } else {
            (x % 0x100) as int
        }),
        x as i16 as i64 == (if x % 0x1_0000 >= 0x8000 {
            x % 0x1_0000 - 0x1_0000
        } else {
            (x % 0x1_0000) as int
        }),
        x as i32 as i64 == (if x % 0x1_0000_0000 >= 0x8000_0000 {
            x % 0x1_0000_0000 - 0x1_0000_0000
        } else {
            (x % 0x1_0000_0000) as int
        }),
{
}

/// The masks that keep or clear low bits agree with remainders.
proof fn lemma_low_bits(x: u64)
    by (bit_vector)
    ensures
        x & 0x3f == x % 64,
        x & 0x1f == x % 32,
        x & !1 == x - x % 2,
{
}

/// Sign extension of a word, stated by its numbers, is what the casts
/// through `i32` and `i64` compute.
pub proof fn lemma_sign_extend_word(value: u64)
    ensures
        sign_extend_word(value) == value as i32 as i64 as u64,
{
    lemma_narrow(value);
    lemma_cast_signed(value as i32 as i64);
}

/// Returns the register value that stands for the immediate `imm`.
pub(crate) fn immediate(imm: i32) -> (value: u64)
    ensures
        value == wrap64(imm as int),
{
    proof {
        lemma_cast_signed(imm as i64);
    }
    imm as i64 as u64
}

/// Tells whether `a` is less than `b` when both are read as signed.
pub(crate) fn less_signed(a: u64, b: u64) -> (less: bool)
    ensures
        less == (signed64(a) < signed64(b)),
{
    proof {
        lemma_cast_unsigned(a);
        lemma_cast_unsigned(b);
    }
    (a as i64) < (b as i64)
}

/// Returns the low byte of `value`, sign-extended.
pub(crate) fn extend_byte(value: u64) -> (extended: u64)
    ensures
        extended == sign_extend(value, 0x100),
{
    proof {
        lemma_narrow(value);
        lemma_cast_signed(value as i8 as i64);
    }
    value as i8 as i64 as u64
}

/// Returns the low 16 bits of `value`, sign-extended.
pub(crate) fn extend_half(value: u64) -> (extended: u64)
    ensures
        extended == sign_extend(value, 0x1_0000),
{
    proof {
        lemma_narrow(value);
        lemma_cast_signed(value as i16 as i64);
    }
    value as i16 as i64 as u64
}

/// Returns the low 32 bits of `value`, sign-extended.
pub(crate) fn extend_word(value: u64) -> (extended: u64)
    ensures
        extended == sign_extend_word(value),
{
    proof {
        lemma_narrow(value);
        lemma_cast_signed(value as i32 as i64);
    }
    value as i32 as i64 as u64
}

/// Returns `value` shifted left by the low six bits of `amount`.
pub(crate) fn shl(value: u64, amount: u64) -> (shifted: u64)
    ensures
        shifted == shift_left(value, amount),
{
    proof {
        lemma_low_bits(amount);
    }
    let by: u64 = amount & 0x3f;
    value << by
}

/// Returns `value` shifted right by the low six bits of `amount`, filled
/// with zeros.
pub(crate) fn shr(value: u64, amount: u64) -> (shifted: u64)
    ensures
        shifted == shift_right_logical(value, amount),
{
    proof {
        lemma_low_bits(amount);
    }
    let by: u64 = amount & 0x3f;
    value >> by
}

/// Returns `value` shifted right by the low six bits of `amount`, filled
/// with its sign bit.
pub(crate) fn sar(value: u64, amount: u64) -> (shifted: u64)
    ensures
        shifted == shift_right_arithmetic(value, amount),
{
    proof {
        lemma_low_bits(amount);
    }
    let by: u64 = amount & 0x3f;
    ((value as i64) >> by) as u64
}

/// Returns the low word of `value` shifted left by the low five bits of
/// `amount`, sign-extended.
pub(crate) fn shl_word(value: u64, amount: u64) -> (shifted: u64)
    ensures
        shifted == shift_left_word(value, amount),
{
    proof {
        lemma_low_bits(amount);
    }
    let by: u64 = amount & 0x1f;
    extend_word(((value as u32) << by) as u64)
}

/// Returns the low word of `value` shifted right by the low five bits of
/// `amount` and filled with zeros, sign-extended.
pub(crate) fn shr_word(value: u64, amount: u64) -> (shifted: u64)
    ensures
        shifted == shift_right_logical_word(value, amount),
{
    proof {
        lemma_low_bits(amount);
    }
    let by: u64 = amount & 0x1f;
    extend_word(((value as u32) >> by) as u64)
}

/// Returns the low word of `value` shifted right by the low five bits of
/// `amount` and filled with its bit 31, sign-extended.
pub(crate) fn sar_word(value: u64, amount: u64) -> (shifted: u64)
    ensures
        shifted == shift_right_arithmetic_word(value, amount),
{
    proof {
        lemma_low_bits(amount);
    }
    let by: u64 = amount & 0x1f;
    ((value as i32) >> by) as i64 as u64
}

/// Returns `value` with its lowest bit cleared.
pub(crate) fn clear_low_bit(value: u64) -> (cleared: u64)
    ensures
        cleared == value - value % 2,
{
    proof {
        lemma_low_bits(value);
    }
    value & !1
}

/// Returns `a + b` modulo 2^64.
pub(crate) fn sum(a: u64, b: u64) -> (value: u64)
    ensures
        value == wrap64(a + b),
{
    a.wrapping_add(b)
}

/// Returns `a - b` modulo 2^64.
pub(crate) fn difference(a: u64, b: u64) -> (value: u64)
    ensures
        value == wrap64(a - b),
{
    a.wrapping_sub(b)
}

/// Returns `base + imm` modulo 2^64.
pub(crate) fn offset(base: u64, imm: i32) -> (value: u64)
    ensures
        value == wrap64(base + imm),
{
    base.wrapping_add(immediate(imm))
}

/// Returns the address `imm` bytes from the instruction that lies just
/// before `pc`: `pc - 4 + imm` modulo 2^64.
pub(crate) fn relative(pc: u64, imm: i32) -> (value: u64)
    ensures
        value == wrap64(pc - 4 + imm),
{
    pc.wrapping_add(immediate(imm)).wrapping_sub(4)
}

/// Tells whether `a`, read as signed, is less than `imm`.
pub(crate) fn less_signed_immediate(a: u64, imm: i32) -> (less: bool)
    ensures
        less == (signed64(a) < imm),
{
    less_signed(a, immediate(imm))
}

/// Returns one for true and zero for false.
pub(crate) fn to_flag(b: bool) -> (value: u64)
    ensures
        value == flag(b),
{
    if b {
        1
    } else {
        0
    }
}

} // verus!
