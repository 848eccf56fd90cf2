//! What a host offers for a processing session.

use vstd::prelude::*;

verus! {

/// A channel layout that a host proposes.
#[derive(Clone, Copy, Debug, PartialEq, Eq, Structural)]
pub struct BusConfig {
    pub num_input_channels: u32,
    pub num_output_channels: u32,
}

impl BusConfig {
    /// A layout is symmetrical when it has as many inputs as outputs, and at least one.
    pub open spec fn symmetrical(self) -> bool {
        self.num_input_channels == self.num_output_channels && self.num_input_channels > 0
    }
}

/// The format in which a host delivers blocks.
#[derive(Clone, Copy, Debug, PartialEq, Eq, Structural)]
pub struct BufferConfig {
    /// Samples per second.
    pub sample_rate: u32,
    /// The most frames that one block holds.
    pub max_buffer_size: u32,
}

} // verus!
