//! The range of a parameter, and the shape of its mapping from the unit interval.

use vstd::prelude::*;
use crate::scalar::Scalar;
use crate::scalar::ONE_BITS;
use crate::scalar::rank;

verus! {

/// The values a parameter may take. Both ends belong to the range.
#[derive(Clone, Copy, Debug, PartialEq, Eq, Structural)]
pub enum Range {
    /// Equal steps of the normalized position are equal steps of the value.
    Linear { min: Scalar, max: Scalar },
    /// The normalized position is raised to the power `1 / factor` before it is spread over
    /// the range.
    Skewed { min: Scalar, max: Scalar, factor: Scalar },
}

/// How a normalized position in the unit interval is turned into a value of a range.
#[derive(Clone, Copy, Debug, PartialEq, Eq, Structural)]
pub enum Curve {
    /// The range is a single value: every position maps to it, and the value maps to
    /// position zero. Nothing is divided by the width of the range.
    Constant(Scalar),
    /// `min + position * (max - min)`, and back by `(value - min) / (max - min)`.
    Linear,
    /// `min + position^(1 / factor) * (max - min)`, and back by
    /// `((value - min) / (max - min))^factor`. The field is the factor.
    Power(Scalar),
}

impl Range {
    /// The lower end.
    pub open spec fn lower(self) -> Scalar {
        match self {
            Range::Linear { min, .. } => min,
            Range::Skewed { min, .. } => min,
        }
    }

    /// The upper end.
    pub open spec fn upper(self) -> Scalar {
        match self {
            Range::Linear { max, .. } => max,
            Range::Skewed { max, .. } => max,
        }
    }

    /// A range is well formed when its ends are in order and its skew factor, if it has one,
    /// is greater than zero.
    pub open spec fn wf(self) -> bool {
        &&& self.lower()@ <= self.upper()@
        &&& (self matches Range::Skewed { factor, .. } ==> factor@ > 0)
    }

    /// Whether `value` lies in the range.
    pub open spec fn contains(self, value: Scalar) -> bool {
        self.lower()@ <= value@ <= self.upper()@
    }

    /// The curve of a well-formed range.
    pub open spec fn curve_of(self) -> Curve {
        if self.lower()@ == self.upper()@ {
            Curve::Constant(self.lower())
        } else {
            match self {
                Range::Linear { .. } => Curve::Linear,
                Range::Skewed { factor, .. } => if factor@ == rank(ONE_BITS) {
                    Curve::Linear
                } else {
                    Curve::Power(factor)
                },
            }
        }
    }

    /// The lower end.
    pub fn min(&self) -> (r: Scalar)
        ensures
            r == self.lower(),
    {
        match self {
            Range::Linear { min, .. } => *min,
            Range::Skewed { min, .. } => *min,
        }
    }

    /// The upper end.
    pub fn max(&self) -> (r: Scalar)
        ensures
            r == self.upper(),
    {
        match self {
            Range::Linear { max, .. } => *max,
            Range::Skewed { max, .. } => *max,
        }
    }

    /// Whether the range is well formed.
    pub fn is_valid(&self) -> (r: bool)
        ensures
            r == self.wf(),
    {
        let ordered = self.min().le(&self.max());
        match self {
            Range::Linear { .. } => ordered,
            Range::Skewed { factor, .. } => ordered && factor.is_positive(),
        }
    }

    /// Whether `value` lies in the range.
    pub fn includes(&self, value: Scalar) -> (r: bool)
        ensures
            r == self.contains(value),
    {
        self.min().le(&value) && value.le(&self.max())
    }

    /// Brings `value` into the range: a value outside becomes the nearer end, a value inside
    /// is handed back bit for bit.
    pub fn clamp(&self, value: Scalar) -> (r: Scalar)
        requires
            self.wf(),
        ensures
            r == value.clamped(self.lower(), self.upper()),
            self.contains(r),
    {
        value.clamp(self.min(), self.max())
    }

    /// Chooses the formula by which the caller maps between normalized positions and values.
    /// A range of one value is constant, so that no mapping divides by a width of zero; a
    /// skew factor of one is the linear mapping.
    pub fn curve(&self) -> (r: Curve)
        requires
            self.wf(),
        ensures
            r == self.curve_of(),
    {
        if self.min().same_number(&self.max()) {
            Curve::Constant(self.min())
        } else {
            match self {
                Range::Linear { .. } => Curve::Linear,
                Range::Skewed { factor, .. } => {
                    if factor.same_number(&Scalar::one()) {
                        Curve::Linear
                    } else {
                        Curve::Power(*factor)
                    }
                },
            }
        }
    }
}

} // verus!
