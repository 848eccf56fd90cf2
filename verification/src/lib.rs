//! The control core of a fuzz distortion effect, verified with Verus.
//!
//! The effect drives a signal up by a drive amount, limits it from above and multiplies it by a
//! gain. Both parameters follow the host's automation; the gain does so smoothly, the change
//! spread over a fixed time. This crate holds everything that is decided along the way:
//!
//! - which channel layouts the effect works with ([`engine::Fuzz::accepts_bus_config`]),
//! - how the parameters are described and what values they may take ([`params`], [`range`]),
//! - when a change takes place within a block ([`automation`]),
//! - how long an interpolation lasts, when it restarts and when it lands on its target
//!   ([`smoothing`]),
//! - which samples the limiter touches ([`shaper`]).
//!
//! It holds no arithmetic on samples or parameter values. Those are single-precision numbers,
//! which this crate keeps as bit patterns that it orders and selects but never calculates with
//! ([`scalar`]). The caller does the sums and products and hands the results in; every
//! contract holds for whatever numbers it hands in.

pub mod automation;
pub mod bus;
pub mod engine;
pub mod params;
pub mod range;
pub mod scalar;
pub mod shaper;
pub mod smoothing;
