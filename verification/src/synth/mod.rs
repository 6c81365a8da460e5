//! Discrete state of the synthesis primitives.

pub mod drone;
pub mod envelope;
pub mod filter;
pub mod lfo;
pub mod oscillator;

pub use drone::DroneParam;
pub use envelope::EnvelopeStage;
pub use filter::FilterType;
pub use lfo::LfoShape;
pub use oscillator::Waveform;
