//! Numbers held by their bit pattern.
//!
//! Samples and parameter values are IEEE 754 single-precision numbers. This library never
//! calculates with them: it stores, compares and selects them, and leaves the arithmetic to its
//! caller. For that the bit pattern of a number is enough. Read as a sign bit and a 31-bit
//! magnitude, the patterns of all numbers from minus infinity to plus infinity stand in the same
//! order as the numbers themselves; only the patterns of NaN fall outside, and both zeros share a
//! rank. A [`Scalar`] is such a pattern, never one of NaN, and its view is its rank.

use vstd::prelude::*;

verus! {

/// The bit that holds the sign.
pub const SIGN_BIT: u32 = 0x8000_0000;

/// The pattern of plus infinity, the largest magnitude that is a number.
pub const INFINITY_BITS: u32 = 0x7f80_0000;

/// The pattern of the number one.
pub const ONE_BITS: u32 = 0x3f80_0000;

/// The pattern with its sign bit cleared.
pub open spec fn magnitude(bits: u32) -> int {
    if bits >= SIGN_BIT {
        bits - SIGN_BIT
    } else {
        bits as int
    }
}

/// Whether a pattern stands for a number, finite or infinite, and not for NaN.
pub open spec fn is_number(bits: u32) -> bool {
    magnitude(bits) <= INFINITY_BITS
}

/// The rank of a pattern: its magnitude, negated where the sign bit is set.
pub open spec fn rank(bits: u32) -> int {
    if bits >= SIGN_BIT {
        -magnitude(bits)
    } else {
        magnitude(bits)
    }
}

/// A single-precision number other than NaN, held by its bit pattern.
#[derive(Clone, Copy, Debug, PartialEq, Eq, Structural)]
pub struct Scalar {
    bits: u32,
}

impl View for Scalar {
    type V = int;

    /// The rank of the number: `a@ < b@` exactly when `a` is the smaller number.
    open spec fn view(&self) -> int {
        rank(self.bits())
    }
}

impl Scalar {
    #[verifier::type_invariant]
    spec fn holds_a_number(self) -> bool {
        is_number(self.bits)
    }

    /// The bit pattern.
    pub closed spec fn bits(self) -> u32 {
        self.bits
    }

    /// The number with the given bit pattern.
    pub closed spec fn with_bits(bits: u32) -> Scalar {
        Scalar { bits }
    }

    /// The value that `clamp` returns.
    pub open spec fn clamped(self, lo: Scalar, hi: Scalar) -> Scalar {
        if self@ < lo@ {
            lo
        } else if self@ > hi@ {
            hi
        } else {
            self
        }
    }

    /// Takes a bit pattern as a number. Patterns of NaN are turned away.
    pub fn from_bits(bits: u32) -> (r: Option<Scalar>)
        ensures
            r is Some <==> is_number(bits),
            r matches Some(s) ==> s == Scalar::with_bits(bits) && s.bits() == bits,
    {
        let magnitude = if bits >= SIGN_BIT {
            bits - SIGN_BIT
        } else {
            bits
        };
        if magnitude <= INFINITY_BITS {
            Some(Scalar { bits })
        } else {
            None
        }
    }

    /// Gives the bit pattern back, unchanged.
    pub fn to_bits(&self) -> (r: u32)
        ensures
            r == self.bits(),
            is_number(r),
    {
        proof {
            use_type_invariant(self);
        }
        self.bits
    }

    /// The number zero, with a clear sign bit.
    pub fn zero() -> (r: Scalar)
        ensures
            r == Scalar::with_bits(0),
            r@ == 0,
    {
        Scalar { bits: 0 }
    }

    /// The number one.
    pub fn one() -> (r: Scalar)
        ensures
            r == Scalar::with_bits(ONE_BITS),
            r@ == rank(ONE_BITS),
    {
        Scalar { bits: ONE_BITS }
    }

    /// The rank, as a machine integer.
    pub fn key(&self) -> (k: i64)
        ensures
            k == self@,
    {
        if self.bits >= SIGN_BIT {
            -((self.bits - SIGN_BIT) as i64)
        } else {
            self.bits as i64
        }
    }

    /// Whether this number is smaller than `other`.
    pub fn lt(&self, other: &Scalar) -> (r: bool)
        ensures
            r == (self@ < other@),
    {
        self.key() < other.key()
    }

    /// Whether this number is at most `other`.
    pub fn le(&self, other: &Scalar) -> (r: bool)
        ensures
            r == (self@ <= other@),
    {
        self.key() <= other.key()
    }

    /// Whether both are the same number. The two zeros are.
    pub fn same_number(&self, other: &Scalar) -> (r: bool)
        ensures
            r == (self@ == other@),
    {
        self.key() == other.key()
    }

    /// Whether this number is greater than zero.
    pub fn is_positive(&self) -> (r: bool)
        ensures
            r == (self@ > 0),
    {
        self.key() > 0
    }

    /// Brings the number into `lo ..= hi`: what lies below becomes `lo`, what lies above
    /// becomes `hi`, and what lies inside is handed back bit for bit.
    pub fn clamp(self, lo: Scalar, hi: Scalar) -> (r: Scalar)
        requires
            lo@ <= hi@,
        ensures
            r == self.clamped(lo, hi),
            lo@ <= r@ <= hi@,
    {
        if self.lt(&lo) {
            lo
        } else if hi.lt(&self) {
            hi
        } else {
            self
        }
    }
}

/// A number is known by its bit pattern: the number with the pattern of `s` is `s`, and
/// the number with a given pattern has that pattern and its rank.
pub proof fn lemma_pattern(s: Scalar, bits: u32)
    ensures
        Scalar::with_bits(s.bits()) == s,
        Scalar::with_bits(bits).bits() == bits,
        Scalar::with_bits(bits)@ == rank(bits),
{
}

/// Numbers of one rank are the same pattern, or they are the two zeros.
pub proof fn law_rank_decides_pattern(a: Scalar, b: Scalar)
    requires
        a@ == b@,
    ensures
        a == b || (a@ == 0 && b@ == 0),
{
}

} // verus!
