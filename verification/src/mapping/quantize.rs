//! Musical scales: the semitone offsets a frequency may be snapped to.

use crate::text::{lowercase_of, str_eq, to_lowercase};
use vstd::prelude::*;

verus! {

/// Musical scale definition (intervals in semitones from root).
#[derive(Debug, Clone)]
pub struct Scale {
    name: String,
    intervals: Vec<u8>,
}

/// A scale as plain values: its name and its offsets from the root.
pub struct ScaleSpec {
    pub name: Seq<char>,
    pub intervals: Seq<u8>,
}

pub open spec fn minor_pentatonic_spec() -> ScaleSpec {
    ScaleSpec { name: "minor_pentatonic"@, intervals: seq![0u8, 3u8, 5u8, 7u8, 10u8] }
}

pub open spec fn major_pentatonic_spec() -> ScaleSpec {
    ScaleSpec { name: "major_pentatonic"@, intervals: seq![0u8, 2u8, 4u8, 7u8, 9u8] }
}

pub open spec fn minor_spec() -> ScaleSpec {
    ScaleSpec { name: "minor"@, intervals: seq![0u8, 2u8, 3u8, 5u8, 7u8, 8u8, 10u8] }
}

pub open spec fn major_spec() -> ScaleSpec {
    ScaleSpec { name: "major"@, intervals: seq![0u8, 2u8, 4u8, 5u8, 7u8, 9u8, 11u8] }
}

pub open spec fn dorian_spec() -> ScaleSpec {
    ScaleSpec { name: "dorian"@, intervals: seq![0u8, 2u8, 3u8, 5u8, 7u8, 9u8, 10u8] }
}

pub open spec fn whole_tone_spec() -> ScaleSpec {
    ScaleSpec { name: "whole_tone"@, intervals: seq![0u8, 2u8, 4u8, 6u8, 8u8, 10u8] }
}

/// The scale a lowercase name stands for, if any.
pub open spec fn scale_named(lowered: Seq<char>) -> Option<ScaleSpec> {
    if lowered == "pentatonic"@ || lowered == "minor_pentatonic"@ || lowered
        == "minorpentatonic"@ {
        Some(minor_pentatonic_spec())
    } else if lowered == "major_pentatonic"@ || lowered == "majorpentatonic"@ {
        Some(major_pentatonic_spec())
    } else if lowered == "minor"@ || lowered == "natural_minor"@ {
        Some(minor_spec())
    } else if lowered == "major"@ {
        Some(major_spec())
    } else if lowered == "dorian"@ {
        Some(dorian_spec())
    } else if lowered == "whole_tone"@ || lowered == "wholetone"@ {
        Some(whole_tone_spec())
    } else {
        None
    }
}

/// Whether an optional scale is the one the table gives.
pub open spec fn matches_spec(found: Option<Scale>, expected: Option<ScaleSpec>) -> bool {
    match (found, expected) {
        (Some(scale), Some(spec)) => scale@ == spec,
        (None, None) => true,
        _ => false,
    }
}

impl View for Scale {
    type V = ScaleSpec;

    closed spec fn view(&self) -> ScaleSpec {
        ScaleSpec { name: self.name@, intervals: self.intervals@ }
    }
}

impl Scale {
    /// Create a new scale.
    pub fn new(name: &str, intervals: Vec<u8>) -> (scale: Self)
        ensures
            scale@ == (ScaleSpec { name: name@, intervals: intervals@ }),
    {
        Scale { name: name.to_string(), intervals }
    }

    /// Minor pentatonic scale: root, minor third, fourth, fifth, minor seventh
    pub fn minor_pentatonic() -> (scale: Self)
        ensures
            scale@ == minor_pentatonic_spec(),
    {
        Self::new("minor_pentatonic", vec![0, 3, 5, 7, 10])
    }

    /// Major pentatonic scale: root, major second, major third, fifth, major sixth
    pub fn major_pentatonic() -> (scale: Self)
        ensures
            scale@ == major_pentatonic_spec(),
    {
        Self::new("major_pentatonic", vec![0, 2, 4, 7, 9])
    }

    /// Natural minor scale
    pub fn minor() -> (scale: Self)
        ensures
            scale@ == minor_spec(),
    {
        Self::new("minor", vec![0, 2, 3, 5, 7, 8, 10])
    }

    /// Major scale
    pub fn major() -> (scale: Self)
        ensures
            scale@ == major_spec(),
    {
        Self::new("major", vec![0, 2, 4, 5, 7, 9, 11])
    }

    /// Dorian mode
    pub fn dorian() -> (scale: Self)
        ensures
            scale@ == dorian_spec(),
    {
        Self::new("dorian", vec![0, 2, 3, 5, 7, 9, 10])
    }

    /// Whole tone scale
    pub fn whole_tone() -> (scale: Self)
        ensures
            scale@ == whole_tone_spec(),
    {
        Self::new("whole_tone", vec![0, 2, 4, 6, 8, 10])
    }

    /// Get the scale a name that is already lowercase stands for.
    pub fn from_lowercase_name(lowered: &str) -> (found: Option<Self>)
        ensures
            matches_spec(found, scale_named(lowered@)),
    {
        if str_eq(lowered, "pentatonic") || str_eq(lowered, "minor_pentatonic") || str_eq(
            lowered,
            "minorpentatonic",
        ) {
            Some(Self::minor_pentatonic())
        } else if str_eq(lowered, "major_pentatonic") || str_eq(lowered, "majorpentatonic") {
            Some(Self::major_pentatonic())
        } else if str_eq(lowered, "minor") || str_eq(lowered, "natural_minor") {
            Some(Self::minor())
        } else if str_eq(lowered, "major") {
            Some(Self::major())
        } else if str_eq(lowered, "dorian") {
            Some(Self::dorian())
        } else if str_eq(lowered, "whole_tone") || str_eq(lowered, "wholetone") {
            Some(Self::whole_tone())
        } else {
            None
        }
    }

    /// Get scale by name, ignoring case.
    pub fn from_name(name: &str) -> (found: Option<Self>)
        ensures
            matches_spec(found, scale_named(lowercase_of(name@))),
    {
        let lowered = to_lowercase(name);
        Self::from_lowercase_name(lowered.as_str())
    }

    /// Get the name of this scale.
    pub fn name(&self) -> (name: &str)
        ensures
            name@ == self@.name,
    {
        self.name.as_str()
    }

    /// Get the intervals.
    pub fn intervals(&self) -> (intervals: &[u8])
        ensures
            intervals@ == self@.intervals,
    {
        self.intervals.as_slice()
    }
}

} // verus!
