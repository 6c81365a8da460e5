//! Drift turns live data streams into ambient sound.
//!
//! This crate holds the discrete core of the signal pipeline: rhythm
//! generation, musical scales, mapper pipelines, MIDI framing, the envelope
//! stage machine, the noise generator's integer state, parameter-name
//! resolution, the routing decisions of the mixer and the plain data of the
//! configuration and the data sources.
//!
//! What a function returns is stated in its contract and proved. The
//! exceptions are a few thin wrappers around string functions of the
//! standard library and around `urlencoding`, whose contracts are taken on
//! trust and say so.

pub mod config;
pub mod engine;
pub mod mapping;
pub mod sources;
pub mod synth;
pub mod text;
pub mod viz;
