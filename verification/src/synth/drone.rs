//! Parameter names of the drone voice and the range each is kept in.

use crate::text::str_eq;
use vstd::prelude::*;

verus! {

/// A parameter of the drone voice.
#[derive(Debug, Clone, Copy, PartialEq, Eq, Structural)]
pub enum DroneParam {
    Pitch,
    Amplitude,
    FilterCutoff,
    FilterResonance,
    FilterLfoRate,
    FilterLfoDepth,
    VibratoRate,
    VibratoDepth,
    NoiseMix,
    SubMix,
    Attack,
    Decay,
    Sustain,
    Release,
}

/// The parameter a name stands for; `None` for a name the voice ignores.
pub open spec fn param_named(name: Seq<char>) -> Option<DroneParam> {
    if name == "pitch"@ || name == "frequency"@ {
        Some(DroneParam::Pitch)
    } else if name == "amplitude"@ || name == "volume"@ {
        Some(DroneParam::Amplitude)
    } else if name == "filter"@ || name == "filter_cutoff"@ || name == "cutoff"@ {
        Some(DroneParam::FilterCutoff)
    } else if name == "filter_resonance"@ || name == "resonance"@ || name == "q"@ {
        Some(DroneParam::FilterResonance)
    } else if name == "filter_lfo_rate"@ || name == "filter_lfo_freq"@ {
        Some(DroneParam::FilterLfoRate)
    } else if name == "filter_lfo_depth"@ {
        Some(DroneParam::FilterLfoDepth)
    } else if name == "vibrato_rate"@ || name == "pitch_lfo_rate"@ {
        Some(DroneParam::VibratoRate)
    } else if name == "vibrato_depth"@ || name == "pitch_lfo_depth"@ {
        Some(DroneParam::VibratoDepth)
    } else if name == "noise_mix"@ || name == "noise"@ {
        Some(DroneParam::NoiseMix)
    } else if name == "sub_mix"@ || name == "sub"@ {
        Some(DroneParam::SubMix)
    } else if name == "attack"@ {
        Some(DroneParam::Attack)
    } else if name == "decay"@ {
        Some(DroneParam::Decay)
    } else if name == "sustain"@ {
        Some(DroneParam::Sustain)
    } else if name == "release"@ {
        Some(DroneParam::Release)
    } else {
        None
    }
}

/// A closed range in thousandths of the parameter's unit.
#[derive(Debug, Clone, Copy, PartialEq, Eq, Structural)]
pub struct MilliRange {
    pub low: u32,
    pub high: u32,
}

impl DroneParam {
    /// The range a written value is clamped to, in thousandths: Hz for
    /// pitch, cutoff, rates and the filter LFO depth, cents for the vibrato
    /// depth, seconds for the envelope times, and plain ratios otherwise.
    pub open spec fn range(self) -> MilliRange {
        match self {
            DroneParam::Pitch => MilliRange { low: 20_000, high: 20_000_000 },
            DroneParam::Amplitude => MilliRange { low: 0, high: 1_000 },
            DroneParam::FilterCutoff => MilliRange { low: 20_000, high: 20_000_000 },
            DroneParam::FilterResonance => MilliRange { low: 100, high: 20_000 },
            DroneParam::FilterLfoRate => MilliRange { low: 10, high: 20_000 },
            DroneParam::FilterLfoDepth => MilliRange { low: 0, high: 5_000_000 },
            DroneParam::VibratoRate => MilliRange { low: 100, high: 20_000 },
            DroneParam::VibratoDepth => MilliRange { low: 0, high: 100_000 },
            DroneParam::NoiseMix => MilliRange { low: 0, high: 1_000 },
            DroneParam::SubMix => MilliRange { low: 0, high: 1_000 },
            DroneParam::Attack => MilliRange { low: 1, high: 10_000 },
            DroneParam::Decay => MilliRange { low: 1, high: 10_000 },
            DroneParam::Sustain => MilliRange { low: 0, high: 1_000 },
            DroneParam::Release => MilliRange { low: 1, high: 30_000 },
        }
    }

    /// Whether the voice reports the parameter back when asked for it.
    /// The envelope times and level can be written but not read.
    pub open spec fn readable(self) -> bool {
        !(self == DroneParam::Attack || self == DroneParam::Decay || self == DroneParam::Sustain
            || self == DroneParam::Release)
    }

    /// Resolves a parameter name. Unknown names resolve to nothing, so
    /// that a write under such a name can be ignored.
    pub fn from_name(name: &str) -> (param: Option<DroneParam>)
        ensures
            param == param_named(name@),
    {
        if str_eq(name, "pitch") || str_eq(name, "frequency") {
            Some(DroneParam::Pitch)
        } else if str_eq(name, "amplitude") || str_eq(name, "volume") {
            Some(DroneParam::Amplitude)
        } else if str_eq(name, "filter") || str_eq(name, "filter_cutoff") || str_eq(
            name,
            "cutoff",
        ) {
            Some(DroneParam::FilterCutoff)
        } else if str_eq(name, "filter_resonance") || str_eq(name, "resonance") || str_eq(
            name,
            "q",
        ) {
            Some(DroneParam::FilterResonance)
        } else if str_eq(name, "filter_lfo_rate") || str_eq(name, "filter_lfo_freq") {
            Some(DroneParam::FilterLfoRate)
        } else if str_eq(name, "filter_lfo_depth") {
            Some(DroneParam::FilterLfoDepth)
        } else if str_eq(name, "vibrato_rate") || str_eq(name, "pitch_lfo_rate") {
            Some(DroneParam::VibratoRate)
        } else if str_eq(name, "vibrato_depth") || str_eq(name, "pitch_lfo_depth") {
            Some(DroneParam::VibratoDepth)
        } else if str_eq(name, "noise_mix") || str_eq(name, "noise") {
            Some(DroneParam::NoiseMix)
        } else if str_eq(name, "sub_mix") || str_eq(name, "sub") {
            Some(DroneParam::SubMix)
        } else if str_eq(name, "attack") {
            Some(DroneParam::Attack)
        } else if str_eq(name, "decay") {
            Some(DroneParam::Decay)
        } else if str_eq(name, "sustain") {
            Some(DroneParam::Sustain)
        } else if str_eq(name, "release") {
            Some(DroneParam::Release)
        } else {
            None
        }
    }

    /// The range a written value is clamped to, in thousandths.
    pub fn clamp_range(self) -> (range: MilliRange)
        ensures
            range == self.range(),
            range.low <= range.high,
    {
        match self {
            DroneParam::Pitch => MilliRange { low: 20_000, high: 20_000_000 },
            DroneParam::Amplitude => MilliRange { low: 0, high: 1_000 },
            DroneParam::FilterCutoff => MilliRange { low: 20_000, high: 20_000_000 },
            DroneParam::FilterResonance => MilliRange { low: 100, high: 20_000 },
            DroneParam::FilterLfoRate => MilliRange { low: 10, high: 20_000 },
            DroneParam::FilterLfoDepth => MilliRange { low: 0, high: 5_000_000 },
            DroneParam::VibratoRate => MilliRange { low: 100, high: 20_000 },
            DroneParam::VibratoDepth => MilliRange { low: 0, high: 100_000 },
            DroneParam::NoiseMix => MilliRange { low: 0, high: 1_000 },
            DroneParam::SubMix => MilliRange { low: 0, high: 1_000 },
            DroneParam::Attack => MilliRange { low: 1, high: 10_000 },
            DroneParam::Decay => MilliRange { low: 1, high: 10_000 },
            DroneParam::Sustain => MilliRange { low: 0, high: 1_000 },
            DroneParam::Release => MilliRange { low: 1, high: 30_000 },
        }
    }

    /// Whether the voice reports the parameter back when asked for it.
    pub fn is_readable(self) -> (readable: bool)
        ensures
            readable == self.readable(),
    {
        match self {
            DroneParam::Attack => false,
            DroneParam::Decay => false,
            DroneParam::Sustain => false,
            DroneParam::Release => false,
            _ => true,
        }
    }
}

} // verus!
