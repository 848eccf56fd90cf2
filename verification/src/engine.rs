//! The processing engine: the parameters, their smoothers, and the order of a block.
//!
//! A host offers a channel layout, initializes the engine with a sample rate, and then
//! delivers blocks of sample frames with the parameter changes that fall into them. The
//! engine decides what the numbers of each frame are; the arithmetic on them is the
//! caller's. For each frame of a block the caller
//!
//! 1. applies the changes that are due (`apply_due`),
//! 2. draws the gain and the drive amount of the frame (`next_frame`), once for all
//!    channels,
//! 3. shapes each sample of the frame, limits it (`crate::shaper::clip`) and multiplies it
//!    by the gain.

use vstd::prelude::*;
use crate::automation::due_until;
use crate::automation::AutomationEvent;
use crate::automation::Schedule;
use crate::bus::BufferConfig;
use crate::bus::BusConfig;
use crate::params::FuzzParams;
use crate::params::ParamId;
use crate::params::ParamSet;
use crate::scalar::Scalar;
use crate::smoothing::law_set_target_keeps_wf;
use crate::smoothing::Smoother;
use crate::smoothing::SmootherModel;

verus! {

/// The parameter values of one sample frame, the same for all its channels.
#[derive(Clone, Copy, Debug, PartialEq, Eq, Structural)]
pub struct Frame {
    pub gain: Scalar,
    pub fuzz: Scalar,
}

/// The state of the engine, as contracts see it.
pub struct FuzzModel {
    pub params: ParamSet,
    pub gain: SmootherModel,
    pub fuzz: SmootherModel,
    /// The sample rate of the session; zero until the engine is initialized.
    pub sample_rate: u32,
}

impl FuzzModel {
    /// What holds of every engine: its parameters and smoothers are well formed, and each
    /// smoother has the style and the range of its parameter.
    pub open spec fn wf(self) -> bool {
        &&& self.params.wf()
        &&& self.gain.wf()
        &&& self.fuzz.wf()
        &&& self.gain.style == self.params.gain.smoothing_style
        &&& self.gain.range == self.params.gain.range
        &&& self.fuzz.style == self.params.fuzz.smoothing_style
        &&& self.fuzz.range == self.params.fuzz.range
    }

    /// The engine as it is made: each smoother at rest on the default value of its
    /// parameter, and no sample rate yet.
    pub open spec fn initial(params: ParamSet) -> FuzzModel {
        FuzzModel {
            params,
            gain: SmootherModel::initial(
                params.gain.smoothing_style,
                params.gain.range,
                params.gain.default_value,
            ),
            fuzz: SmootherModel::initial(
                params.fuzz.smoothing_style,
                params.fuzz.range,
                params.fuzz.default_value,
            ),
            sample_rate: 0,
        }
    }

    /// The engine after it was initialized: it has taken the sample rate.
    pub open spec fn initialize(self, buffer_config: BufferConfig) -> FuzzModel {
        FuzzModel { sample_rate: buffer_config.sample_rate, ..self }
    }

    /// The engine after a reset: every smoother at rest on its target.
    pub open spec fn reset(self) -> FuzzModel {
        FuzzModel { gain: self.gain.reset(), fuzz: self.fuzz.reset(), ..self }
    }

    /// The engine after one event: the smoother of the event's parameter has a new target,
    /// the other is untouched.
    pub open spec fn automate(self, event: AutomationEvent) -> FuzzModel {
        match event.param {
            ParamId::Gain => FuzzModel {
                gain: self.gain.set_target(event.value, self.sample_rate),
                ..self
            },
            ParamId::Fuzz => FuzzModel {
                fuzz: self.fuzz.set_target(event.value, self.sample_rate),
                ..self
            },
        }
    }

    /// The engine after the events, one after the other in the order given.
    pub open spec fn apply(self, events: Seq<AutomationEvent>) -> FuzzModel
        decreases events.len(),
    {
        if events.len() == 0 {
            self
        } else {
            self.apply(events.drop_last()).automate(events.last())
        }
    }

    /// Whether the two values may be offered for the next frame.
    pub open spec fn accepts(self, stepped_gain: Scalar, stepped_fuzz: Scalar) -> bool {
        self.gain.accepts(stepped_gain) && self.fuzz.accepts(stepped_fuzz)
    }

    /// The parameter values of the next frame.
    pub open spec fn frame(self, stepped_gain: Scalar, stepped_fuzz: Scalar) -> Frame {
        Frame { gain: self.gain.emits(stepped_gain), fuzz: self.fuzz.emits(stepped_fuzz) }
    }

    /// The engine after the next frame: each smoother is one sample further.
    pub open spec fn next_frame(self, stepped_gain: Scalar, stepped_fuzz: Scalar) -> FuzzModel {
        FuzzModel { gain: self.gain.next(stepped_gain), fuzz: self.fuzz.next(stepped_fuzz), ..self }
    }
}

/// The engine of the effect. It owns the smoothers of its two parameters.
#[derive(Debug)]
pub struct Fuzz {
    params: FuzzParams,
    gain: Smoother,
    fuzz: Smoother,
    sample_rate: u32,
}

impl View for Fuzz {
    type V = FuzzModel;

    closed spec fn view(&self) -> FuzzModel {
        FuzzModel {
            params: self.params@,
            gain: self.gain@,
            fuzz: self.fuzz@,
            sample_rate: self.sample_rate,
        }
    }
}

impl Fuzz {
    /// Every value of this type is well formed.
    #[verifier::type_invariant]
    pub open spec fn inv(self) -> bool {
        self@.wf()
    }

    /// Makes the engine for a set of parameters, each at its default value.
    pub fn new(params: FuzzParams) -> (engine: Fuzz)
        ensures
            engine@ == FuzzModel::initial(params@),
            engine@.wf(),
    {
        proof {
            use_type_invariant(&params);
        }
        let gain = params.gain().smoother();
        let fuzz = params.fuzz().smoother();
        Fuzz { params, gain, fuzz, sample_rate: 0 }
    }

    /// The parameters of the effect.
    pub fn params(&self) -> (r: FuzzParams)
        ensures
            r@ == self@.params,
    {
        self.params
    }

    /// Whether the engine works with a channel layout: with every layout that has as many
    /// inputs as outputs and at least one of each, and with no other.
    pub fn accepts_bus_config(&self, config: &BusConfig) -> (r: bool)
        ensures
            r == config.symmetrical(),
    {
        config.num_input_channels == config.num_output_channels && config.num_input_channels > 0
    }

    /// Takes the sample rate of the session that begins. This always succeeds, and the
    /// smoothers stay as they are.
    pub fn initialize(&mut self, _bus_config: &BusConfig, buffer_config: &BufferConfig) -> (r: bool)
        ensures
            r,
            final(self)@ == old(self)@.initialize(*buffer_config),
            final(self)@.wf(),
    {
        proof {
            use_type_invariant(&*self);
        }
        *self = Fuzz {
            params: self.params,
            gain: self.gain,
            fuzz: self.fuzz,
            sample_rate: buffer_config.sample_rate,
        };
        true
    }

    /// Puts every smoother at rest on its target. Nothing is allocated.
    pub fn reset(&mut self)
        ensures
            final(self)@ == old(self)@.reset(),
            final(self)@.wf(),
    {
        proof {
            use_type_invariant(&*self);
        }
        let mut gain = self.gain;
        let mut fuzz = self.fuzz;
        gain.reset();
        fuzz.reset();
        *self = Fuzz { params: self.params, gain, fuzz, sample_rate: self.sample_rate };
    }

    /// Applies one change: the smoother of the event's parameter gets the event's value as
    /// its target, at the sample rate of the session.
    pub fn automate(&mut self, event: AutomationEvent)
        ensures
            final(self)@ == old(self)@.automate(event),
            final(self)@.wf(),
    {
        proof {
            use_type_invariant(&*self);
        }
        let mut gain = self.gain;
        let mut fuzz = self.fuzz;
        match event.param {
            ParamId::Gain => {
                gain.set_target(event.value, self.sample_rate);
            },
            ParamId::Fuzz => {
                fuzz.set_target(event.value, self.sample_rate);
            },
        }
        *self = Fuzz { params: self.params, gain, fuzz, sample_rate: self.sample_rate };
    }

    /// Applies the changes that are due at `frame`. It reads the schedule from `cursor` on
    /// and applies each event, in order, until it meets one that lies after `frame` or the
    /// end; it returns the place where it stopped, which is the cursor for the next frame.
    /// Walking a block from its first frame with a cursor that starts at zero so applies
    /// each change just before the frame at which it takes place.
    pub fn apply_due(&mut self, schedule: &Schedule, cursor: usize, frame: u32) -> (next: usize)
        ensures
            next == due_until(schedule@, cursor as int, frame),
            cursor <= schedule@.len() ==> cursor <= next <= schedule@.len() && final(self)@ == old(
                self,
            )@.apply(schedule@.subrange(cursor as int, next as int)),
            cursor > schedule@.len() ==> final(self)@ == old(self)@,
            final(self)@.wf(),
    {
        proof {
            use_type_invariant(&*self);
        }
        let next = schedule.due(cursor, frame);
        if cursor > schedule.len() {
            return next;
        }
        let mut i = cursor;
        assert(schedule@.subrange(cursor as int, i as int) =~= Seq::empty());
        while i < next
            invariant
                cursor <= i <= next <= schedule@.len(),
                self@ == old(self)@.apply(schedule@.subrange(cursor as int, i as int)),
                self@.wf(),
            decreases next - i,
        {
            let event = schedule.get(i);
            proof {
                let taken = schedule@.subrange(cursor as int, i + 1);
                assert(taken.drop_last() =~= schedule@.subrange(cursor as int, i as int));
                assert(taken.last() == event);
            }
            self.automate(event);
            i = i + 1;
        }
        next
    }

    /// Whether the two values may be offered to `next_frame`.
    pub fn accepts(&self, stepped_gain: Scalar, stepped_fuzz: Scalar) -> (r: bool)
        ensures
            r == self@.accepts(stepped_gain, stepped_fuzz),
    {
        self.gain.accepts(stepped_gain) && self.fuzz.accepts(stepped_fuzz)
    }

    /// Draws the parameter values of the next sample frame. Each smoother goes one sample
    /// further, once for the frame, however many channels the frame has. `stepped_gain` and
    /// `stepped_fuzz` are the values one step further that the caller has calculated; each
    /// smoother uses or ignores the one offered to it as `Smoother::next` says.
    pub fn next_frame(&mut self, stepped_gain: Scalar, stepped_fuzz: Scalar) -> (frame: Frame)
        requires
            old(self)@.accepts(stepped_gain, stepped_fuzz),
        ensures
            frame == old(self)@.frame(stepped_gain, stepped_fuzz),
            final(self)@ == old(self)@.next_frame(stepped_gain, stepped_fuzz),
            final(self)@.wf(),
    {
        proof {
            use_type_invariant(&*self);
        }
        let mut gain = self.gain;
        let mut fuzz = self.fuzz;
        let frame = Frame { gain: gain.next(stepped_gain), fuzz: fuzz.next(stepped_fuzz) };
        *self = Fuzz { params: self.params, gain, fuzz, sample_rate: self.sample_rate };
        frame
    }

    /// The smoother of the gain.
    pub fn gain(&self) -> (r: Smoother)
        ensures
            r@ == self@.gain,
    {
        self.gain
    }

    /// The smoother of the drive amount.
    pub fn fuzz(&self) -> (r: Smoother)
        ensures
            r@ == self@.fuzz,
    {
        self.fuzz
    }

    /// The sample rate of the session; zero until the engine is initialized.
    pub fn sample_rate(&self) -> (r: u32)
        ensures
            r == self@.sample_rate,
    {
        self.sample_rate
    }
}

/// Applying a list of events is applying its first part and then the rest.
pub proof fn law_apply_in_parts(m: FuzzModel, first: Seq<AutomationEvent>, rest: Seq<AutomationEvent>)
    ensures
        m.apply(first + rest) == m.apply(first).apply(rest),
    decreases rest.len(),
{
    if rest.len() == 0 {
        assert(first + rest =~= first);
    } else {
        law_apply_in_parts(m, first, rest.drop_last());
        assert((first + rest).drop_last() =~= first + rest.drop_last());
        assert((first + rest).last() == rest.last());
    }
}

/// Events keep the engine well formed, and each event leaves the target of its parameter
/// inside the parameter's range.
pub proof fn law_apply_keeps_wf(m: FuzzModel, events: Seq<AutomationEvent>)
    requires
        m.wf(),
    ensures
        m.apply(events).wf(),
        m.apply(events).params == m.params,
        m.apply(events).sample_rate == m.sample_rate,
    decreases events.len(),
{
    if events.len() > 0 {
        law_apply_keeps_wf(m, events.drop_last());
        let before = m.apply(events.drop_last());
        law_set_target_keeps_wf(before.gain, events.last().value, before.sample_rate);
        law_set_target_keeps_wf(before.fuzz, events.last().value, before.sample_rate);
    }
}

} // verus!
