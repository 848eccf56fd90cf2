//! The two parameters of the effect and their descriptions.

use vstd::prelude::*;
use crate::range::Range;
use crate::scalar::Scalar;
use crate::scalar::ONE_BITS;
use crate::scalar::lemma_pattern;
use crate::smoothing::SmootherModel;
use crate::smoothing::Smoother;
use crate::smoothing::SmoothingStyle;

verus! {

/// The lower end of the gain parameter, in decibels.
pub const GAIN_MIN_DB: i32 = -30;

/// The upper end of the gain parameter, in decibels.
pub const GAIN_MAX_DB: i32 = 30;

/// The gain that the effect starts with, in decibels.
pub const GAIN_DEFAULT_DB: i32 = 0;

/// The time over which a change of the gain is spread, in milliseconds.
pub const GAIN_SMOOTHING_MS: u32 = 50;

/// The key of a parameter. A key never changes and never names another parameter.
#[derive(Clone, Copy, Debug, PartialEq, Eq, Structural)]
pub enum ParamId {
    Gain,
    Fuzz,
}

impl ParamId {
    /// The identifier under which a host knows the parameter.
    pub open spec fn name(self) -> Seq<char> {
        match self {
            ParamId::Gain => "gain"@,
            ParamId::Fuzz => "fuzz"@,
        }
    }

    /// The identifier under which a host knows the parameter.
    pub fn as_str(&self) -> (s: &'static str)
        ensures
            s@ == self.name(),
    {
        match self {
            ParamId::Gain => "gain",
            ParamId::Fuzz => "fuzz",
        }
    }
}

/// The description of one continuous parameter. It is fixed once made.
#[derive(Clone, Copy, Debug, PartialEq, Eq, Structural)]
pub struct ParamDescriptor {
    pub id: ParamId,
    pub range: Range,
    pub smoothing_style: SmoothingStyle,
    pub default_value: Scalar,
}

impl ParamDescriptor {
    /// Whether `style` can smooth the values of `range`: logarithmic smoothing needs a
    /// range that lies above zero, for it moves by ratios.
    pub open spec fn fits(range: Range, style: SmoothingStyle) -> bool {
        &&& range.wf()
        &&& (style is Logarithmic ==> range.lower()@ > 0)
    }

    /// A description is well formed when its style fits its range and its default value
    /// lies in the range.
    pub open spec fn wf(self) -> bool {
        &&& ParamDescriptor::fits(self.range, self.smoothing_style)
        &&& self.range.contains(self.default_value)
    }

    /// Describes a parameter. The default value is brought into the range. There is no
    /// description where the range is not well formed or the style does not fit it.
    pub fn new(
        id: ParamId,
        range: Range,
        smoothing_style: SmoothingStyle,
        default_value: Scalar,
    ) -> (r: Option<ParamDescriptor>)
        ensures
            r is Some <==> ParamDescriptor::fits(range, smoothing_style),
            r matches Some(d) ==> d.wf() && d == (ParamDescriptor {
                id,
                range,
                smoothing_style,
                default_value: default_value.clamped(range.lower(), range.upper()),
            }),
    {
        if !range.is_valid() {
            return None;
        }
        let fits = match smoothing_style {
            SmoothingStyle::Logarithmic(_) => range.min().is_positive(),
            _ => true,
        };
        if fits {
            Some(
                ParamDescriptor {
                    id,
                    range,
                    smoothing_style,
                    default_value: range.clamp(default_value),
                },
            )
        } else {
            None
        }
    }

    /// Whether the description is well formed.
    pub fn is_valid(&self) -> (r: bool)
        ensures
            r == self.wf(),
    {
        let fits = match self.smoothing_style {
            SmoothingStyle::Logarithmic(_) => self.range.min().is_positive(),
            _ => true,
        };
        self.range.is_valid() && fits && self.range.includes(self.default_value)
    }

    /// Makes the smoother of the parameter, at rest on the default value.
    pub fn smoother(&self) -> (s: Smoother)
        requires
            self.wf(),
        ensures
            s@ == SmootherModel::initial(self.smoothing_style, self.range, self.default_value),
            s@.current == self.default_value,
            s@.wf(),
    {
        Smoother::new(self.smoothing_style, self.range, self.default_value)
    }
}

/// The parameters of the effect, as contracts see them.
pub struct ParamSet {
    pub gain: ParamDescriptor,
    pub fuzz: ParamDescriptor,
}

impl ParamSet {
    /// The description of the drive amount: it runs linearly from zero to one, starts at
    /// zero and is not smoothed.
    pub open spec fn fuzz_descriptor() -> ParamDescriptor {
        ParamDescriptor {
            id: ParamId::Fuzz,
            range: Range::Linear { min: Scalar::with_bits(0), max: Scalar::with_bits(ONE_BITS) },
            smoothing_style: SmoothingStyle::Off,
            default_value: Scalar::with_bits(0),
        }
    }

    /// The description of the gain over `range`, starting at `default_value` brought into
    /// the range: its changes are smoothed by equal ratios over `GAIN_SMOOTHING_MS`.
    pub open spec fn gain_descriptor(range: Range, default_value: Scalar) -> ParamDescriptor {
        ParamDescriptor {
            id: ParamId::Gain,
            range,
            smoothing_style: SmoothingStyle::Logarithmic(GAIN_SMOOTHING_MS),
            default_value: default_value.clamped(range.lower(), range.upper()),
        }
    }

    /// What holds of every set: both descriptions are well formed, each under its own key,
    /// and they are the two that this effect has.
    pub open spec fn wf(self) -> bool {
        &&& self.gain.wf()
        &&& self.gain == ParamSet::gain_descriptor(self.gain.range, self.gain.default_value)
        &&& self.fuzz == ParamSet::fuzz_descriptor()
    }

    /// The descriptions in the order in which a host lists them.
    pub open spec fn list(self) -> Seq<ParamDescriptor> {
        seq![self.gain, self.fuzz]
    }

    /// The description under a key.
    pub open spec fn get(self, id: ParamId) -> ParamDescriptor {
        match id {
            ParamId::Gain => self.gain,
            ParamId::Fuzz => self.fuzz,
        }
    }
}

/// The parameters of the effect: the gain and the drive amount.
#[derive(Clone, Copy, Debug)]
pub struct FuzzParams {
    gain: ParamDescriptor,
    fuzz: ParamDescriptor,
}

impl View for FuzzParams {
    type V = ParamSet;

    closed spec fn view(&self) -> ParamSet {
        ParamSet { gain: self.gain, fuzz: self.fuzz }
    }
}

impl FuzzParams {
    /// Every value of this type is well formed.
    #[verifier::type_invariant]
    pub open spec fn inv(self) -> bool {
        self@.wf()
    }

    /// Makes the parameters of the effect. The gain is a linear factor; its range and
    /// default value are the caller's to give, since they come out of a conversion from
    /// decibels (`GAIN_MIN_DB`, `GAIN_MAX_DB`, `GAIN_DEFAULT_DB`). The gain is smoothed by
    /// equal ratios, so there are no parameters where its range is not well formed or does
    /// not lie above zero.
    pub fn new(gain_range: Range, gain_default: Scalar) -> (r: Option<FuzzParams>)
        ensures
            r is Some <==> gain_range.wf() && gain_range.lower()@ > 0,
            r matches Some(p) ==> p@.wf() && p@ == (ParamSet {
                gain: ParamSet::gain_descriptor(gain_range, gain_default),
                fuzz: ParamSet::fuzz_descriptor(),
            }),
    {
        let gain = ParamDescriptor::new(
            ParamId::Gain,
            gain_range,
            SmoothingStyle::Logarithmic(GAIN_SMOOTHING_MS),
            gain_default,
        );
        let fuzz = ParamDescriptor {
            id: ParamId::Fuzz,
            range: Range::Linear { min: Scalar::zero(), max: Scalar::one() },
            smoothing_style: SmoothingStyle::Off,
            default_value: Scalar::zero(),
        };
        match gain {
            Some(gain) => Some(FuzzParams { gain, fuzz }),
            None => None,
        }
    }

    /// The description of the gain.
    pub fn gain(&self) -> (r: ParamDescriptor)
        ensures
            r == self@.gain,
            r.id == ParamId::Gain,
            r.wf(),
    {
        proof {
            use_type_invariant(self);
        }
        self.gain
    }

    /// The description of the drive amount.
    pub fn fuzz(&self) -> (r: ParamDescriptor)
        ensures
            r == self@.fuzz,
            r.id == ParamId::Fuzz,
            r.wf(),
    {
        proof {
            use_type_invariant(self);
            law_fuzz_descriptor_is_well_formed();
        }
        self.fuzz
    }

    /// The descriptions in the order in which a host lists them: the gain, then the drive
    /// amount.
    pub fn descriptors(&self) -> (r: Vec<ParamDescriptor>)
        ensures
            r@ == self@.list(),
    {
        let mut list = Vec::new();
        list.push(self.gain);
        list.push(self.fuzz);
        list
    }

    /// The description under a key.
    pub fn get(&self, id: ParamId) -> (r: ParamDescriptor)
        ensures
            r == self@.get(id),
            r.id == id,
            r.wf(),
    {
        match id {
            ParamId::Gain => self.gain(),
            ParamId::Fuzz => self.fuzz(),
        }
    }
}

/// The description of the drive amount is well formed: zero lies in the range from zero to
/// one.
pub proof fn law_fuzz_descriptor_is_well_formed()
    ensures
        ParamSet::fuzz_descriptor().wf(),
{
    lemma_pattern(Scalar::with_bits(0), 0);
    lemma_pattern(Scalar::with_bits(0), ONE_BITS);
}

/// No two parameters share an identifier.
pub proof fn law_keys_are_unique(a: ParamId, b: ParamId)
    ensures
        a.name() == b.name() ==> a == b,
{
    reveal_strlit("gain");
    reveal_strlit("fuzz");
    if a != b {
        assert("gain"@[0] != "fuzz"@[0]);
    }
}

} // verus!
