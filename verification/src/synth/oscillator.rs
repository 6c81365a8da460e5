//! Waveforms, and the integer state of the noise generator.
//!
//! Noise waveforms draw from a 64-bit xorshift generator. Its state update
//! is whole-number arithmetic and lives here; scaling a state to a sample
//! is left to the caller.

use vstd::prelude::*;

verus! {

/// Waveform types
#[derive(Debug, Clone, Copy, PartialEq, Eq, Structural)]
pub enum Waveform {
    Sine,
    Triangle,
    Saw,
    Square,
    /// White noise (uniform random)
    WhiteNoise,
    /// Pink noise (1/f, more natural sounding)
    PinkNoise,
    /// Brown noise (1/f^2, deep rumble)
    BrownNoise,
}

impl Waveform {
    /// Whether samples are drawn from the noise generator rather than
    /// computed from the phase.
    pub open spec fn noisy(self) -> bool {
        self == Waveform::WhiteNoise || self == Waveform::PinkNoise || self
            == Waveform::BrownNoise
    }

    /// Whether this is one of the noise waveforms.
    pub fn is_noise(self) -> (noisy: bool)
        ensures
            noisy == self.noisy(),
    {
        match self {
            Waveform::WhiteNoise => true,
            Waveform::PinkNoise => true,
            Waveform::BrownNoise => true,
            _ => false,
        }
    }
}

/// One round of the generator: shift left by 13, right by 7, left by 17,
/// each folded into the state with exclusive or.
pub open spec fn xorshift64(state: u64) -> u64 {
    let a = state ^ (state << 13);
    let b = a ^ (a >> 7);
    b ^ (b << 17)
}

/// The state an oscillator starts from, given the seed drawn from its
/// initial frequency: the seed itself, or 1 where it would be 0.
pub open spec fn seeded(raw: u64) -> u64 {
    if raw == 0 {
        1
    } else {
        raw
    }
}

/// Initial generator state for a raw seed.
pub fn seed_state(raw: u64) -> (state: u64)
    ensures
        state == seeded(raw),
        state != 0,
{
    if raw == 0 {
        1
    } else {
        raw
    }
}

/// Advances the generator by one round.
pub fn next_state(state: u64) -> (next: u64)
    ensures
        next == xorshift64(state),
{
    let mut x: u64 = state;
    x ^= x << 13;
    x ^= x >> 7;
    x ^= x << 17;
    x
}

/// The generator never falls into the all-zero state, from which it could
/// not leave: a nonzero state is followed by a nonzero state.
pub proof fn lemma_state_stays_nonzero(state: u64)
    requires
        state != 0,
    ensures
        xorshift64(state) != 0,
{
    let a = state ^ (state << 13);
    let b = a ^ (a >> 7);
    assert(state != 0 ==> (state ^ (state << 13)) != 0) by (bit_vector);
    assert(a != 0 ==> (a ^ (a >> 7)) != 0) by (bit_vector);
    assert(b != 0 ==> (b ^ (b << 17)) != 0) by (bit_vector);
}

/// Two oscillators seeded alike run through the same states.
pub proof fn lemma_same_seed_same_noise(first: u64, second: u64)
    requires
        seeded(first) == seeded(second),
    ensures
        xorshift64(seeded(first)) == xorshift64(seeded(second)),
{
}

} // verus!
