//! The processor status byte `P` and its named bits.

use vstd::prelude::*;

verus! {

/// Bit 7: the last result was negative.
pub const N_NEGATIVE: u8 = 0x80;

/// Bit 6: the last addition or subtraction overflowed as signed arithmetic.
pub const V_OVERFLOW: u8 = 0x40;

/// Bit 4: set by `BRK`, which this interpreter does not execute.
pub const B_BREAK: u8 = 0x10;

/// Bit 3: decimal mode.
pub const D_DECIMAL: u8 = 0x08;

/// Bit 2: interrupts are disabled.
pub const I_INTERRUPT_DISABLE: u8 = 0x04;

/// Bit 1: the last result was zero.
pub const Z_ZERO: u8 = 0x02;

/// Bit 0: carry out of bit 7, or "no borrow" after a subtraction.
pub const C_CARRY: u8 = 0x01;

/// The status bits that instructions name.
pub open spec fn is_flag_bit(mask: u8) -> bool {
    mask == N_NEGATIVE || mask == V_OVERFLOW || mask == B_BREAK || mask == D_DECIMAL
        || mask == I_INTERRUPT_DISABLE || mask == Z_ZERO || mask == C_CARRY
}

/// Whether the bit `mask` is set in the status byte `p`.
pub open spec fn flag(p: u8, mask: u8) -> bool {
    p & mask != 0
}

/// `p` with the bit `mask` set to `on` and every other bit kept.
pub open spec fn with_flag(p: u8, mask: u8, on: bool) -> u8 {
    if on {
        p | mask
    } else {
        p & !mask
    }
}

/// `p` after an N/Z update from `value`: N is bit 7 of `value`, Z is `value == 0`.
pub open spec fn with_nz(p: u8, value: u8) -> u8 {
    with_flag(with_flag(p, N_NEGATIVE, value & 0x80 != 0), Z_ZERO, value == 0)
}

/// Writing one status bit sets that bit as asked and leaves every other bit as it was.
pub proof fn lemma_with_flag(p: u8, mask: u8, on: bool, other: u8)
    requires
        is_flag_bit(mask),
        is_flag_bit(other),
    ensures
        flag(with_flag(p, mask, on), mask) == on,
        other != mask ==> flag(with_flag(p, mask, on), other) == flag(p, other),
        with_flag(p, mask, on) & !mask == p & !mask,
{
    assert(flag(with_flag(p, mask, on), mask) == on
        && (other != mask ==> flag(with_flag(p, mask, on), other) == flag(p, other))
        && with_flag(p, mask, on) & !mask == p & !mask) by (bit_vector)
        requires
            mask == 0x80u8 || mask == 0x40u8 || mask == 0x10u8 || mask == 0x08u8 || mask == 0x04u8
                || mask == 0x02u8 || mask == 0x01u8,
            other == 0x80u8 || other == 0x40u8 || other == 0x10u8 || other == 0x08u8 || other
                == 0x04u8 || other == 0x02u8 || other == 0x01u8,
    ;
}

/// After an N/Z update, N is bit 7 of the value, Z tells whether it is zero, and
/// the other status bits are untouched.
pub proof fn lemma_with_nz(p: u8, value: u8, other: u8)
    requires
        is_flag_bit(other),
    ensures
        flag(with_nz(p, value), N_NEGATIVE) == (value & 0x80 != 0),
        flag(with_nz(p, value), Z_ZERO) == (value == 0),
        other != N_NEGATIVE && other != Z_ZERO ==> flag(with_nz(p, value), other) == flag(
            p,
            other,
        ),
{
    let q = with_flag(p, N_NEGATIVE, value & 0x80 != 0);
    lemma_with_flag(p, N_NEGATIVE, value & 0x80 != 0, other);
    lemma_with_flag(p, N_NEGATIVE, value & 0x80 != 0, Z_ZERO);
    lemma_with_flag(q, Z_ZERO, value == 0, other);
    lemma_with_flag(q, Z_ZERO, value == 0, N_NEGATIVE);
}

/// A second N/Z update overrides the first.
pub proof fn lemma_with_nz_twice(p: u8, first: u8, second: u8)
    ensures
        with_nz(with_nz(p, first), second) == with_nz(p, second),
{
    assert(with_nz(with_nz(p, first), second) == with_nz(p, second)) by (bit_vector);
}

/// Two values that agree on bit 7 and on being zero give the same N/Z update.
pub proof fn lemma_with_nz_same_signs(p: u8, v: u8, w: u8)
    requires
        (v & 0x80 != 0) == (w & 0x80 != 0),
        (v == 0) == (w == 0),
    ensures
        with_nz(p, v) == with_nz(p, w),
{
}

} // verus!
