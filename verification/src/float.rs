//! Classification of double-precision values by their IEEE 754 bit pattern.
//!
//! A bit pattern has, from the most significant bit down, one sign bit, eleven
//! exponent bits and fifty-two fraction bits.

use crate::error::FloatCategory;
use vstd::prelude::*;

verus! {

/// Two to the power 52: the number of fraction values.
pub const FRACTION_RANGE: u64 = 0x10_0000_0000_0000;

/// Two to the power 63: the weight of the sign bit.
pub const SIGN_BIT: u64 = 0x8000_0000_0000_0000;

/// The exponent field with all bits set, which marks infinities and NaNs.
pub const EXPONENT_MAX: u64 = 0x7ff;

/// The exponent field of a bit pattern.
pub open spec fn exponent_of(bits: u64) -> int {
    (bits as int % SIGN_BIT as int) / FRACTION_RANGE as int
}

/// The fraction field of a bit pattern.
pub open spec fn fraction_of(bits: u64) -> int {
    bits as int % FRACTION_RANGE as int
}

/// The category of the double-precision value with the given bit pattern.
pub open spec fn float_category(bits: u64) -> FloatCategory {
    if exponent_of(bits) == EXPONENT_MAX {
        if fraction_of(bits) == 0 {
            FloatCategory::Infinite
        } else {
            FloatCategory::Nan
        }
    } else if exponent_of(bits) == 0 {
        if fraction_of(bits) == 0 {
            FloatCategory::Zero
        } else {
            FloatCategory::Subnormal
        }
    } else {
        FloatCategory::Normal
    }
}

/// Returns the category of the double-precision value with the given bit
/// pattern.
pub fn classify(bits: u64) -> (r: FloatCategory)
    ensures
        r == float_category(bits),
{
    let exponent: u64 = (bits % SIGN_BIT) / FRACTION_RANGE;
    let fraction: u64 = bits % FRACTION_RANGE;
    if exponent == EXPONENT_MAX {
        if fraction == 0 {
            FloatCategory::Infinite
        } else {
            FloatCategory::Nan
        }
    } else if exponent == 0 {
        if fraction == 0 {
            FloatCategory::Zero
        } else {
            FloatCategory::Subnormal
        }
    } else {
        FloatCategory::Normal
    }
}

/// The fields of a bit pattern are its bits: the exponent is bits 52 to 62,
/// the fraction is bits 0 to 51.
pub proof fn lemma_fields_are_bits(bits: u64)
    ensures
        exponent_of(bits) == (bits >> 52) & 0x7ff,
        fraction_of(bits) == bits & 0xf_ffff_ffff_ffff,
{
    assert((bits % 0x8000_0000_0000_0000) / 0x10_0000_0000_0000 == (bits >> 52) & 0x7ff)
        by (bit_vector);
    assert(bits % 0x10_0000_0000_0000 == bits & 0xf_ffff_ffff_ffff) by (bit_vector);
}

/// A value is normal exactly when its exponent field is neither all zeros nor
/// all ones, whatever its sign and fraction.
pub proof fn lemma_normal_iff(bits: u64)
    ensures
        float_category(bits) == FloatCategory::Normal <==> 0 < exponent_of(bits) < EXPONENT_MAX,
        0 <= exponent_of(bits) <= EXPONENT_MAX,
{
}

} // verus!
