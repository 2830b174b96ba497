//! Simulated loss: the drop rate, the random sample, and the comparison between them.
//!
//! Both numbers are single-precision values held as their IEEE 754 bit patterns, so that
//! the decision is made on integers. The comparison below orders bit patterns as the
//! numbers they encode are ordered.

use vstd::prelude::*;

verus! {

/// Bit pattern of the sign bit alone; patterns at or above it encode negative numbers.
pub const SIGN_BIT: u32 = 0x8000_0000;

/// Bit pattern of positive infinity; a larger magnitude encodes no number.
pub const INFINITY_BITS: u32 = 0x7f80_0000;

/// Bit pattern of 0.0, the drop rate at which nothing is lost.
pub const ZERO_BITS: u32 = 0;

/// Bit pattern of 1.0, the drop rate at which every fragment is lost.
pub const ONE_BITS: u32 = 0x3f80_0000;

/// The pattern without its sign bit.
pub open spec fn magnitude(bits: u32) -> int {
    if bits >= SIGN_BIT {
        bits - SIGN_BIT
    } else {
        bits as int
    }
}

/// True when the pattern encodes no number.
pub open spec fn is_nan(bits: u32) -> bool {
    magnitude(bits) > INFINITY_BITS
}

/// An integer that is ordered as the encoded number is: both zeros map to 0.
pub open spec fn ordinal(bits: u32) -> int {
    if bits >= SIGN_BIT {
        -magnitude(bits)
    } else {
        magnitude(bits)
    }
}

/// True when the pattern encodes a number in `[0, 1)`, as a uniform sample does.
pub open spec fn is_unit_sample(bits: u32) -> bool {
    bits < ONE_BITS
}

/// The loss decision: a fragment passes when the sample is at least the drop rate.
/// A comparison with a pattern that encodes no number is false.
pub open spec fn sample_passes(sample: u32, pdr: u32) -> bool {
    &&& !is_nan(sample)
    &&& !is_nan(pdr)
    &&& ordinal(sample) >= ordinal(pdr)
}

/// Decides whether a fragment passes, given the sample drawn for it and the drop rate.
pub fn passes(sample: u32, pdr: u32) -> (pass: bool)
    ensures
        pass == sample_passes(sample, pdr),
{
    let sample_negative = sample >= SIGN_BIT;
    let pdr_negative = pdr >= SIGN_BIT;
    let sample_magnitude: u32 = if sample_negative {
        sample - SIGN_BIT
    } else {
        sample
    };
    let pdr_magnitude: u32 = if pdr_negative {
        pdr - SIGN_BIT
    } else {
        pdr
    };
    if sample_magnitude > INFINITY_BITS || pdr_magnitude > INFINITY_BITS {
        false
    } else if sample_negative && pdr_negative {
        sample_magnitude <= pdr_magnitude
    } else if sample_negative {
        sample_magnitude == 0 && pdr_magnitude == 0
    } else if pdr_negative {
        true
    } else {
        sample_magnitude >= pdr_magnitude
    }
}

/// With a drop rate of 0.0 every unit sample passes.
pub proof fn law_zero_rate_passes(sample: u32)
    requires
        is_unit_sample(sample),
    ensures
        sample_passes(sample, ZERO_BITS),
{
}

/// With a drop rate of 1.0 no unit sample passes.
pub proof fn law_full_rate_blocks(sample: u32)
    requires
        is_unit_sample(sample),
    ensures
        !sample_passes(sample, ONE_BITS),
{
}

} // verus!
