//! Low-frequency oscillator shapes.

use vstd::prelude::*;

verus! {

/// LFO waveform shapes
#[derive(Debug, Clone, Copy, PartialEq, Eq, Structural)]
pub enum LfoShape {
    Sine,
    Triangle,
    Saw,
    Square,
    SampleAndHold,
}

/// State the sample-and-hold generator of every LFO starts from.
pub fn initial_rng_state() -> (state: u64)
    ensures
        state == 12345,
{
    12345
}

} // verus!
