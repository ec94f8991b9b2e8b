//! CO2 levels and thresholds are IEEE-754 binary64 values. The library holds
//! them by their bit pattern and compares them exactly as the hardware does.

use vstd::prelude::*;

verus! {

/// Bits that hold the magnitude (exponent and mantissa) of a binary64 value.
pub const MAGNITUDE_MASK: u64 = 0x7fff_ffff_ffff_ffff;

/// Bit pattern of positive infinity; any larger magnitude is a NaN.
pub const INFINITY_BITS: u64 = 0x7ff0_0000_0000_0000;

/// Magnitude of the value that `bits` encodes, as an ordered integer.
pub open spec fn magnitude(bits: u64) -> int {
    (bits & MAGNITUDE_MASK) as int
}

pub open spec fn is_negative(bits: u64) -> bool {
    bits >> 63u64 == 1
}

/// NaN: all exponent bits set and a mantissa that is not zero.
pub open spec fn is_nan(bits: u64) -> bool {
    magnitude(bits) > INFINITY_BITS as int
}

/// An integer that orders the non-NaN values encoded by bit patterns as the
/// real numbers they denote (both zeros map to 0).
pub open spec fn order_key(bits: u64) -> int {
    if is_negative(bits) {
        -magnitude(bits)
    } else {
        magnitude(bits)
    }
}

/// `a >= b` on the binary64 values encoded by `a` and `b`: false when either
/// is NaN.
pub open spec fn float_ge(a: u64, b: u64) -> bool {
    !is_nan(a) && !is_nan(b) && order_key(a) >= order_key(b)
}

/// How a bit pattern splits into sign and magnitude: patterns below
/// `2^63` are non-negative with themselves as magnitude; the others are
/// negative with magnitude `bits - 2^63`.
pub proof fn lemma_bits_layout(bits: u64)
    ensures
        bits < 0x8000_0000_0000_0000 ==> (bits & MAGNITUDE_MASK) == bits && bits >> 63u64 == 0,
        bits >= 0x8000_0000_0000_0000 ==> (bits & MAGNITUDE_MASK) == bits - 0x8000_0000_0000_0000
            && bits >> 63u64 == 1,
{
    assert(bits < 0x8000_0000_0000_0000 ==> (bits & 0x7fff_ffff_ffff_ffffu64) == bits && bits >> 63u64 == 0) by (bit_vector);
    assert(bits >= 0x8000_0000_0000_0000 ==> (bits & 0x7fff_ffff_ffff_ffffu64) == (bits - 0x8000_0000_0000_0000u64) as u64
        && bits >> 63u64 == 1) by (bit_vector);
}

/// `>=` on non-NaN values is a total preorder: any two compare one way or
/// the other, and it chains; a NaN is never `>=` anything nor below it.
pub proof fn lemma_float_order(a: u64, b: u64, c: u64)
    ensures
        !is_nan(a) && !is_nan(b) ==> float_ge(a, b) || float_ge(b, a),
        float_ge(a, b) && float_ge(b, c) ==> float_ge(a, c),
        is_nan(a) ==> !float_ge(a, b) && !float_ge(b, a),
        !is_nan(a) ==> float_ge(a, a),
{
}

/// Both zeros compare equal: each is `>=` the other.
pub proof fn lemma_signed_zeros()
    ensures
        float_ge(0, 0x8000_0000_0000_0000) && float_ge(0x8000_0000_0000_0000, 0),
{
    lemma_bits_layout(0);
    lemma_bits_layout(0x8000_0000_0000_0000);
}

/// Executable `a >= b` on binary64 bit patterns.
pub fn ge(a: u64, b: u64) -> (r: bool)
    ensures
        r == float_ge(a, b),
        (a & 0x7fff_ffff_ffff_ffff) > 0x7ff0_0000_0000_0000 ==> !r,
        (b & 0x7fff_ffff_ffff_ffff) > 0x7ff0_0000_0000_0000 ==> !r,
        a < 0x7ff0_0000_0000_0001 && b < 0x7ff0_0000_0000_0001 ==> r == (a >= b),
        0x8000_0000_0000_0000 <= a <= 0xfff0_0000_0000_0000 && 0x8000_0000_0000_0000 <= b
            <= 0xfff0_0000_0000_0000 ==> r == (a <= b),
        a < 0x7ff0_0000_0000_0001 && 0x8000_0000_0000_0000 <= b <= 0xfff0_0000_0000_0000 ==> r,
{
    proof {
        lemma_bits_layout(a);
        lemma_bits_layout(b);
    }
    let ma = a & MAGNITUDE_MASK;
    let mb = b & MAGNITUDE_MASK;
    if ma > INFINITY_BITS || mb > INFINITY_BITS {
        return false;
    }
    let na = a >> 63u64 == 1;
    let nb = b >> 63u64 == 1;
    if !na && !nb {
        ma >= mb
    } else if na && nb {
        ma <= mb
    } else if !na {
        true
    } else {
        ma == 0 && mb == 0
    }
}

} // verus!
