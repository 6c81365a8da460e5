//! Configuration schema: the plain structures the engine is built from.

use crate::text::str_eq;
use vstd::prelude::*;

verus! {

/// Audio output configuration.
#[derive(Debug, Clone)]
pub struct AudioConfig {
    /// Sample rate in Hz (default: 44100)
    pub sample_rate: u32,
    /// Buffer size in samples (default: 512)
    pub buffer_size: usize,
    /// Output device name (None = default device)
    pub device: Option<String>,
    /// Output file path (for recording)
    pub output_file: Option<String>,
}

/// Why an audio configuration is rejected.
#[derive(Debug, Clone, Copy, PartialEq, Eq, Structural)]
pub enum AudioConfigError {
    /// Sample rate outside 8000..=192000 Hz.
    SampleRate,
    /// Buffer size outside 64..=8192 samples.
    BufferSize,
}

/// What `AudioConfig::validate` returns for the given settings.
pub open spec fn audio_verdict(sample_rate: u32, buffer_size: usize) -> Result<
    (),
    AudioConfigError,
> {
    if sample_rate < 8000 || sample_rate > 192000 {
        Err(AudioConfigError::SampleRate)
    } else if buffer_size < 64 || buffer_size > 8192 {
        Err(AudioConfigError::BufferSize)
    } else {
        Ok(())
    }
}

impl AudioConfig {
    /// Checks the sample rate first, then the buffer size.
    pub fn validate(&self) -> (verdict: Result<(), AudioConfigError>)
        ensures
            verdict == audio_verdict(self.sample_rate, self.buffer_size),
    {
        if self.sample_rate < 8000 || self.sample_rate > 192000 {
            return Err(AudioConfigError::SampleRate);
        }
        if self.buffer_size < 64 || self.buffer_size > 8192 {
            return Err(AudioConfigError::BufferSize);
        }
        Ok(())
    }
}

pub fn default_sample_rate() -> (rate: u32)
    ensures
        rate == 44100,
{
    44100
}

pub fn default_buffer_size() -> (size: usize)
    ensures
        size == 512,
{
    512
}

pub fn default_key() -> (key: String)
    ensures
        key@ == "C"@,
{
    "C".to_string()
}

pub fn default_scale() -> (scale: String)
    ensures
        scale@ == "minor_pentatonic"@,
{
    "minor_pentatonic".to_string()
}

pub fn default_enabled() -> (enabled: bool)
    ensures
        enabled,
{
    true
}

/// Types of data sources.
#[derive(Debug, Clone, Copy, PartialEq, Eq, Structural)]
pub enum SourceKind {
    /// Weather data from API
    Weather,
    /// Local system metrics
    System,
    /// Git repository events
    Git,
    /// Price data from API
    Price,
}

/// Types of voices (sound generators).
#[derive(Debug, Clone, Copy, PartialEq, Eq, Structural)]
pub enum VoiceKind {
    /// Sustained tones
    Drone,
    /// Short triggers
    Percussion,
    /// Melodic patterns
    Melody,
    /// Noise and grain
    Texture,
}

/// Types of mapping functions.
#[derive(Debug, Clone, Copy, PartialEq, Eq, Structural)]
pub enum MappingKind {
    /// Linear interpolation (default)
    Linear,
    /// Logarithmic scaling
    Logarithmic,
    /// Exponential scaling
    Exponential,
    /// Threshold trigger
    Threshold,
    /// Quantize to scale degrees
    Quantize,
}

impl Default for MappingKind {
    fn default() -> (kind: MappingKind)
        ensures
            kind == MappingKind::Linear,
    {
        MappingKind::Linear
    }
}

/// Whether `name` is the name of one of the sources.
pub open spec fn is_known_source(sources: Seq<String>, name: Seq<char>) -> bool {
    exists|i: int| 0 <= i < sources.len() && (#[trigger] sources[i])@ == name
}

/// Whether a source of that name is configured.
pub fn has_source(sources: &Vec<String>, name: &str) -> (known: bool)
    ensures
        known == is_known_source(sources@, name@),
{
    let mut i: usize = 0;
    while i < sources.len()
        invariant
            i <= sources.len(),
            forall|k: int| 0 <= k < i ==> (#[trigger] sources@[k])@ != name@,
        decreases sources.len() - i,
    {
        if str_eq(sources[i].as_str(), name) {
            return true;
        }
        i += 1;
    }
    false
}

/// The first layer that refers to a source that is not configured, given
/// the names of the sources and, layer by layer, the source each layer
/// listens to. `None` where every layer refers to a configured source.
pub fn first_unknown_source(sources: &Vec<String>, layer_sources: &Vec<String>) -> (unknown:
    Option<usize>)
    ensures
        match unknown {
            Some(layer) => {
                &&& layer < layer_sources@.len()
                &&& !is_known_source(sources@, layer_sources@[layer as int]@)
                &&& forall|j: int|
                    0 <= j < layer ==> is_known_source(sources@, (#[trigger] layer_sources@[j])@)
            },
            None => forall|j: int|
                0 <= j < layer_sources@.len() ==> is_known_source(
                    sources@,
                    (#[trigger] layer_sources@[j])@,
                ),
        },
{
    let mut layer: usize = 0;
    while layer < layer_sources.len()
        invariant
            layer <= layer_sources.len(),
            forall|j: int|
                0 <= j < layer ==> is_known_source(sources@, (#[trigger] layer_sources@[j])@),
        decreases layer_sources.len() - layer,
    {
        if !has_source(sources, layer_sources[layer].as_str()) {
            return Some(layer);
        }
        layer += 1;
    }
    None
}

} // verus!
