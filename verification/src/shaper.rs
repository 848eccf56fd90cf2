//! The waveshaping stage: what is fixed of it, and its limiter.
//!
//! A sample is driven up by `sample + sample * fuzz * DRIVE`, limited from above at the ceiling,
//! and then multiplied by the gain. The two products and the sum are the caller's arithmetic; the
//! limiter between them is decided here.

use vstd::prelude::*;
use crate::scalar::Scalar;
use crate::scalar::rank;
use crate::scalar::lemma_pattern;

verus! {

/// The pattern of the drive constant, twenty: the factor of the drive amount in the shaping
/// formula.
pub const DRIVE_BITS: u32 = 0x41a0_0000;

/// The pattern of the ceiling: the single-precision number nearest to eight tenths.
pub const CEILING_BITS: u32 = 0x3f4c_cccd;

/// The limited value of a shaped sample: the ceiling where the sample lies above it, and the
/// sample itself everywhere else. There is no floor: a sample below the negated ceiling
/// stays as it is.
pub open spec fn clipped(shaped: Scalar) -> Scalar {
    if shaped@ > rank(CEILING_BITS) {
        Scalar::with_bits(CEILING_BITS)
    } else {
        shaped
    }
}

/// The ceiling.
pub fn ceiling() -> (r: Scalar)
    ensures
        r == Scalar::with_bits(CEILING_BITS),
        r.bits() == CEILING_BITS,
{
    Scalar::from_bits(CEILING_BITS).unwrap()
}

/// Limits a shaped sample from above. A sample over the ceiling becomes the ceiling, bit for
/// bit; every other sample, however far below zero, is handed back bit for bit.
pub fn clip(shaped: Scalar) -> (r: Scalar)
    ensures
        r == clipped(shaped),
        shaped@ > rank(CEILING_BITS) ==> r.bits() == CEILING_BITS,
        shaped@ <= rank(CEILING_BITS) ==> r == shaped,
{
    let ceiling = ceiling();
    if ceiling.lt(&shaped) {
        ceiling
    } else {
        shaped
    }
}

/// What the limiter leaves is never above the ceiling, and limiting twice is limiting once.
pub proof fn law_clip_bounds(shaped: Scalar)
    ensures
        clipped(shaped)@ <= rank(CEILING_BITS),
        clipped(clipped(shaped)) == clipped(shaped),
        shaped@ > rank(CEILING_BITS) ==> clipped(shaped).bits() == CEILING_BITS,
        shaped@ <= rank(CEILING_BITS) ==> clipped(shaped) == shaped,
{
    lemma_pattern(shaped, CEILING_BITS);
}

} // verus!
