//! Smoothing of a parameter's value over time.
//!
//! A [`Smoother`] keeps the schedule of an interpolation: where it stands, where it is headed,
//! and how many samples are left until it arrives. The step itself is arithmetic on
//! numbers and is the caller's: each sample the caller offers the value one step further, and
//! the smoother answers with the value to use, which is the offered one while the interpolation
//! runs, and the target itself from the sample on which it ends.

use vstd::prelude::*;
use crate::range::Range;
use crate::scalar::Scalar;

verus! {

/// If and how a parameter's changes are spread over time. Durations are in milliseconds.
#[derive(Clone, Copy, Debug, PartialEq, Eq, Structural)]
pub enum SmoothingStyle {
    /// No smoothing: a new target is taken at once.
    Off,
    /// The value moves to the target by equal differences.
    Linear(u32),
    /// The value moves to the target by equal ratios. Every value must be greater than zero.
    Logarithmic(u32),
}

/// The number of samples that `duration_ms` milliseconds take at `sample_rate` samples per
/// second, rounded up, and never less than one.
pub open spec fn ramp_length(duration_ms: u32, sample_rate: u32) -> nat {
    let product = duration_ms * sample_rate;
    if product == 0 {
        1
    } else {
        ((product + 999) / 1000) as nat
    }
}

impl SmoothingStyle {
    /// The duration of a change in milliseconds; zero without smoothing.
    pub open spec fn duration_ms(self) -> nat {
        match self {
            SmoothingStyle::Off => 0,
            SmoothingStyle::Linear(duration_ms) => duration_ms as nat,
            SmoothingStyle::Logarithmic(duration_ms) => duration_ms as nat,
        }
    }

    /// The number of steps that a change takes at `sample_rate`: none without smoothing,
    /// else the length of the ramp.
    pub open spec fn steps(self, sample_rate: u32) -> nat {
        match self {
            SmoothingStyle::Off => 0,
            SmoothingStyle::Linear(duration_ms) => ramp_length(duration_ms, sample_rate),
            SmoothingStyle::Logarithmic(duration_ms) => ramp_length(duration_ms, sample_rate),
        }
    }

    /// The number of steps that a change takes at `sample_rate`.
    pub fn num_steps(&self, sample_rate: u32) -> (n: u64)
        ensures
            n == self.steps(sample_rate),
    {
        match self {
            SmoothingStyle::Off => 0,
            SmoothingStyle::Linear(duration_ms) => ramp(*duration_ms, sample_rate),
            SmoothingStyle::Logarithmic(duration_ms) => ramp(*duration_ms, sample_rate),
        }
    }
}

fn ramp(duration_ms: u32, sample_rate: u32) -> (n: u64)
    ensures
        n == ramp_length(duration_ms, sample_rate),
{
    assert(duration_ms * sample_rate <= 0xffff_ffff * 0xffff_ffff) by (nonlinear_arith)
        requires
            0 <= duration_ms <= 0xffff_ffff,
            0 <= sample_rate <= 0xffff_ffff,
    ;
    let product: u64 = (duration_ms as u64) * (sample_rate as u64);
    if product == 0 {
        1
    } else {
        (product + 999) / 1000
    }
}

/// The state of a smoother, as contracts see it.
pub struct SmootherModel {
    pub style: SmoothingStyle,
    pub range: Range,
    /// The value handed out last, from which the next step starts.
    pub current: Scalar,
    /// The value that the smoother is headed for.
    pub target: Scalar,
    /// The number of samples left until `current` is `target`.
    pub remaining: nat,
    /// Whether a sample has been produced since the smoother was made or reset.
    pub started: bool,
}

impl SmootherModel {
    /// What holds of every smoother: the target lies in the range; a smoother with no steps
    /// left stands on its target; without smoothing no steps are ever left; and with
    /// logarithmic smoothing the range and the current value are greater than zero.
    pub open spec fn wf(self) -> bool {
        &&& self.range.wf()
        &&& self.range.contains(self.target)
        &&& (self.remaining == 0 ==> self.current == self.target)
        &&& (self.style is Off ==> self.remaining == 0)
        &&& (self.style is Logarithmic ==> self.range.lower()@ > 0 && self.current@ > 0)
        &&& self.remaining <= u64::MAX
    }

    /// The smoother as it is made: at rest on `initial`, brought into the range.
    pub open spec fn initial(style: SmoothingStyle, range: Range, initial: Scalar) -> SmootherModel {
        let value = initial.clamped(range.lower(), range.upper());
        SmootherModel { style, range, current: value, target: value, remaining: 0, started: false }
    }

    /// Whether a new target is taken at once: without smoothing, and as long as no sample
    /// has been produced.
    pub open spec fn jumps(self) -> bool {
        self.style is Off || !self.started
    }

    /// The smoother after a new target was set. The target is brought into the range.
    /// Where the smoother jumps it then stands on the target; else it keeps its current
    /// value and has the full length of the ramp before it, whatever was left before.
    pub open spec fn set_target(self, new_target: Scalar, sample_rate: u32) -> SmootherModel {
        let target = new_target.clamped(self.range.lower(), self.range.upper());
        if self.jumps() {
            SmootherModel { current: target, target, remaining: 0, ..self }
        } else {
            SmootherModel { target, remaining: self.style.steps(sample_rate), ..self }
        }
    }

    /// Whether `stepped` may be offered as the next value: with logarithmic smoothing a
    /// value that would be taken must be greater than zero.
    pub open spec fn accepts(self, stepped: Scalar) -> bool {
        self.style is Logarithmic && self.remaining > 1 ==> stepped@ > 0
    }

    /// The value for the next sample, where the caller offers `stepped` as the value one
    /// step further: the current value at rest, the target on the last step, and `stepped`
    /// on every step before.
    pub open spec fn emits(self, stepped: Scalar) -> Scalar {
        if self.remaining == 0 {
            self.current
        } else if self.remaining == 1 {
            self.target
        } else {
            stepped
        }
    }

    /// The smoother after the next sample.
    pub open spec fn next(self, stepped: Scalar) -> SmootherModel {
        SmootherModel {
            current: self.emits(stepped),
            remaining: if self.remaining == 0 {
                0
            } else {
                (self.remaining - 1) as nat
            },
            started: true,
            ..self
        }
    }

    /// The smoother at rest on its target, as if no sample had been produced yet.
    pub open spec fn reset(self) -> SmootherModel {
        SmootherModel { current: self.target, remaining: 0, started: false, ..self }
    }

    /// The smoother after one sample for each value of `stepped`, in order.
    pub open spec fn run(self, stepped: Seq<Scalar>) -> SmootherModel
        decreases stepped.len(),
    {
        if stepped.len() == 0 {
            self
        } else {
            self.run(stepped.drop_last()).next(stepped.last())
        }
    }

    /// Whether every value of `stepped` may be offered in its turn.
    pub open spec fn accepts_all(self, stepped: Seq<Scalar>) -> bool {
        forall|i: int|
            0 <= i < stepped.len() ==> (#[trigger] self.run(stepped.take(i))).accepts(stepped[i])
    }
}

/// The schedule of one parameter's interpolation.
#[derive(Clone, Copy, Debug)]
pub struct Smoother {
    style: SmoothingStyle,
    range: Range,
    current: Scalar,
    target: Scalar,
    remaining: u64,
    started: bool,
}

impl View for Smoother {
    type V = SmootherModel;

    closed spec fn view(&self) -> SmootherModel {
        SmootherModel {
            style: self.style,
            range: self.range,
            current: self.current,
            target: self.target,
            remaining: self.remaining as nat,
            started: self.started,
        }
    }
}

impl Smoother {
    /// Every value of this type is well formed.
    #[verifier::type_invariant]
    pub open spec fn inv(self) -> bool {
        self@.wf()
    }

    /// Makes a smoother at rest on `initial`, brought into `range`.
    ///
    /// Logarithmic smoothing works on values greater than zero only, so it needs a range
    /// that lies above zero.
    pub fn new(style: SmoothingStyle, range: Range, initial: Scalar) -> (s: Smoother)
        requires
            range.wf(),
            style is Logarithmic ==> range.lower()@ > 0,
        ensures
            s@ == SmootherModel::initial(style, range, initial),
            s@.wf(),
    {
        let value = range.clamp(initial);
        Smoother { style, range, current: value, target: value, remaining: 0, started: false }
    }

    /// Sets the value to head for, brought into the range. Before the first sample, and
    /// without smoothing, the smoother takes it at once. Else the interpolation starts anew
    /// from the current value, over the full duration at `sample_rate` samples per second.
    pub fn set_target(&mut self, new_target: Scalar, sample_rate: u32)
        ensures
            final(self)@ == old(self)@.set_target(new_target, sample_rate),
            final(self)@.wf(),
    {
        proof {
            use_type_invariant(&*self);
        }
        let target = self.range.clamp(new_target);
        let jumps = match self.style {
            SmoothingStyle::Off => true,
            _ => !self.started,
        };
        if jumps {
            *self = Smoother {
                style: self.style,
                range: self.range,
                current: target,
                target,
                remaining: 0,
                started: self.started,
            };
        } else {
            *self = Smoother {
                style: self.style,
                range: self.range,
                current: self.current,
                target,
                remaining: self.style.num_steps(sample_rate),
                started: self.started,
            };
        }
    }

    /// Whether `stepped` may be offered to `next`.
    pub fn accepts(&self, stepped: Scalar) -> (r: bool)
        ensures
            r == self@.accepts(stepped),
    {
        match self.style {
            SmoothingStyle::Logarithmic(_) => self.remaining <= 1 || stepped.is_positive(),
            _ => true,
        }
    }

    /// Produces the value for the next sample. `stepped` is the value one step further,
    /// which the caller has calculated from the current value. At rest the current value
    /// is handed out and `stepped` is not looked at. On the last step the target itself is
    /// handed out, so that no error of the steps before is left. On every other step
    /// `stepped` is handed out and becomes the current value.
    pub fn next(&mut self, stepped: Scalar) -> (value: Scalar)
        requires
            old(self)@.accepts(stepped),
        ensures
            value == old(self)@.emits(stepped),
            final(self)@ == old(self)@.next(stepped),
            final(self)@.wf(),
    {
        proof {
            use_type_invariant(&*self);
        }
        let value = if self.remaining == 0 {
            self.current
        } else if self.remaining == 1 {
            self.target
        } else {
            stepped
        };
        let remaining = if self.remaining == 0 {
            0
        } else {
            self.remaining - 1
        };
        *self = Smoother {
            style: self.style,
            range: self.range,
            current: value,
            target: self.target,
            remaining,
            started: true,
        };
        value
    }

    /// Puts the smoother at rest on its target, as if no sample had been produced yet.
    pub fn reset(&mut self)
        ensures
            final(self)@ == old(self)@.reset(),
            final(self)@.wf(),
    {
        proof {
            use_type_invariant(&*self);
        }
        *self = Smoother {
            style: self.style,
            range: self.range,
            current: self.target,
            target: self.target,
            remaining: 0,
            started: false,
        };
    }

    /// The style that the smoother was made with.
    pub fn style(&self) -> (r: SmoothingStyle)
        ensures
            r == self@.style,
    {
        self.style
    }

    /// The range that targets are brought into.
    pub fn range(&self) -> (r: Range)
        ensures
            r == self@.range,
            r.wf(),
    {
        proof {
            use_type_invariant(self);
        }
        self.range
    }

    /// The value handed out last, from which the next step starts.
    pub fn current(&self) -> (r: Scalar)
        ensures
            r == self@.current,
    {
        self.current
    }

    /// The value that the smoother is headed for.
    pub fn target(&self) -> (r: Scalar)
        ensures
            r == self@.target,
    {
        self.target
    }

    /// The number of samples left until the current value is the target.
    pub fn steps_left(&self) -> (r: u64)
        ensures
            r == self@.remaining,
    {
        self.remaining
    }

    /// Whether the next sample is a step of the interpolation.
    pub fn is_smoothing(&self) -> (r: bool)
        ensures
            r == (self@.remaining > 0),
    {
        self.remaining > 0
    }
}

/// The length of a ramp is the time it takes in samples, rounded up: the least count of
/// samples that covers `duration_ms` milliseconds at `sample_rate` samples per second.
/// A duration or a rate of zero still takes one sample.
pub proof fn law_ramp_length_rounds_up(duration_ms: u32, sample_rate: u32)
    ensures
        ramp_length(duration_ms, sample_rate) >= 1,
        duration_ms * sample_rate > 0 ==> {
            &&& ramp_length(duration_ms, sample_rate) * 1000 >= duration_ms * sample_rate
            &&& (ramp_length(duration_ms, sample_rate) - 1) * 1000 < duration_ms * sample_rate
        },
{
}

/// Each sample takes one step off the count, whatever values are offered: after `k` samples
/// a smoother with `n` steps left has `n - k` left, or none if `k` is at least `n`. From the
/// sample on which the count reaches zero the smoother stands on its target, bit for bit,
/// and the target itself never moves.
pub proof fn law_countdown(m: SmootherModel, stepped: Seq<Scalar>)
    requires
        m.wf(),
    ensures
        m.run(stepped).target == m.target,
        m.run(stepped).style == m.style,
        m.run(stepped).range == m.range,
        stepped.len() < m.remaining ==> m.run(stepped).remaining == m.remaining - stepped.len(),
        stepped.len() >= m.remaining ==> m.run(stepped).remaining == 0,
        stepped.len() >= m.remaining ==> m.run(stepped).current == m.target,
        stepped.len() > 0 ==> m.run(stepped).started,
    decreases stepped.len(),
{
    if stepped.len() > 0 {
        law_countdown(m, stepped.drop_last());
    }
}

/// A smoother stays well formed over any run of samples whose offered values it accepts.
pub proof fn law_run_keeps_wf(m: SmootherModel, stepped: Seq<Scalar>)
    requires
        m.wf(),
        m.accepts_all(stepped),
    ensures
        m.run(stepped).wf(),
    decreases stepped.len(),
{
    if stepped.len() > 0 {
        let before = stepped.drop_last();
        assert forall|i: int| 0 <= i < before.len() implies (#[trigger] m.run(before.take(i))).accepts(
            before[i],
        ) by {
            assert(before.take(i) == stepped.take(i));
        }
        law_run_keeps_wf(m, before);
        assert(stepped.take(stepped.len() - 1) == before);
        assert(m.run(before).accepts(stepped.last()));
    }
}

/// A smoother that interpolates reaches its target on time. Once a sample has been
/// produced, a target set on a smoother with a duration of `d` milliseconds, at a rate of
/// `r` samples per second with `d * r > 0`, is reached after exactly the least `n` with
/// `n * 1000 >= d * r` samples: on each sample before, steps are left; on that sample and
/// after it, none are left and the current value is the target, bit for bit.
pub proof fn law_target_reached_on_time(
    m: SmootherModel,
    new_target: Scalar,
    sample_rate: u32,
    stepped: Seq<Scalar>,
)
    requires
        m.wf(),
        !m.jumps(),
        m.style.duration_ms() * sample_rate > 0,
    ensures
        ({
            let s = m.set_target(new_target, sample_rate);
            let n = m.style.steps(sample_rate);
            &&& n * 1000 >= m.style.duration_ms() * sample_rate
            &&& (n - 1) * 1000 < m.style.duration_ms() * sample_rate
            &&& s.remaining == n
            &&& (stepped.len() < n ==> s.run(stepped).remaining == n - stepped.len())
            &&& (stepped.len() >= n ==> s.run(stepped).remaining == 0)
            &&& (stepped.len() >= n ==> s.run(stepped).current == s.target)
        }),
{
    let s = m.set_target(new_target, sample_rate);
    match m.style {
        SmoothingStyle::Off => {},
        SmoothingStyle::Linear(d) => {
            law_ramp_length_rounds_up(d, sample_rate);
        },
        SmoothingStyle::Logarithmic(d) => {
            law_ramp_length_rounds_up(d, sample_rate);
        },
    }
    law_set_target_keeps_wf(m, new_target, sample_rate);
    law_countdown(s, stepped);
}

/// Setting a target keeps a smoother well formed, and the target it takes lies in the
/// range.
pub proof fn law_set_target_keeps_wf(m: SmootherModel, new_target: Scalar, sample_rate: u32)
    requires
        m.wf(),
    ensures
        m.set_target(new_target, sample_rate).wf(),
        m.range.contains(m.set_target(new_target, sample_rate).target),
{
    match m.style {
        SmoothingStyle::Off => {},
        SmoothingStyle::Linear(d) => {
            law_ramp_length_fits(d, sample_rate);
        },
        SmoothingStyle::Logarithmic(d) => {
            law_ramp_length_fits(d, sample_rate);
        },
    }
}

/// The length of a ramp fits the counter of a smoother.
pub proof fn law_ramp_length_fits(duration_ms: u32, sample_rate: u32)
    ensures
        ramp_length(duration_ms, sample_rate) <= u64::MAX,
{
    assert(duration_ms * sample_rate <= 0xffff_ffff * 0xffff_ffff) by (nonlinear_arith)
        requires
            0 <= duration_ms <= 0xffff_ffff,
            0 <= sample_rate <= 0xffff_ffff,
    ;
}

/// A new target set in the middle of an interpolation starts the interpolation anew. The
/// smoother keeps the value it has reached and takes the full length of the ramp from
/// there, whatever was left of the old ramp; neither the old target nor the old count is
/// part of what follows. After that many samples it stands on the new target, brought into
/// the range, bit for bit.
pub proof fn law_retarget_restarts(
    m: SmootherModel,
    new_target: Scalar,
    sample_rate: u32,
    stepped: Seq<Scalar>,
)
    requires
        m.wf(),
        !m.jumps(),
        m.remaining > 0,
        stepped.len() == m.style.steps(sample_rate),
    ensures
        ({
            let s = m.set_target(new_target, sample_rate);
            let aim = new_target.clamped(m.range.lower(), m.range.upper());
            &&& s.current == m.current
            &&& s.target == aim
            &&& s.remaining == m.style.steps(sample_rate)
            &&& s == SmootherModel { target: aim, remaining: m.style.steps(sample_rate), ..m }
            &&& s.run(stepped).current == aim
            &&& s.run(stepped).remaining == 0
            &&& forall|k: int|
                0 <= k < stepped.len() ==> (#[trigger] s.run(stepped.take(k))).target == aim
        }),
{
    let s = m.set_target(new_target, sample_rate);
    law_set_target_keeps_wf(m, new_target, sample_rate);
    law_countdown(s, stepped);
    assert forall|k: int| 0 <= k < stepped.len() implies (#[trigger] s.run(stepped.take(k))).target
        == s.target by {
        law_countdown(s, stepped.take(k));
    }
}

} // verus!
