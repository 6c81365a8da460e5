//! Engine-side pieces: MIDI framing and the mixer's routing decisions.

pub mod latest;
pub mod midi;
pub mod mixer;

pub use midi::{MidiConfig, MidiMessage};
