//! Threshold directions: which crossings make a threshold mapper fire.

use vstd::prelude::*;

verus! {

/// Direction of threshold crossing that triggers an event.
#[derive(Debug, Clone, Copy, PartialEq, Eq, Structural)]
pub enum ThresholdDirection {
    /// Trigger when value rises above threshold
    Rising,
    /// Trigger when value falls below threshold
    Falling,
    /// Trigger on both rising and falling crossings
    Both,
}

impl ThresholdDirection {
    /// Whether a mapper with this direction fires, given what was observed
    /// on the upper and on the lower side of its threshold.
    pub open spec fn selects(self, upward: bool, downward: bool) -> bool {
        match self {
            ThresholdDirection::Rising => upward,
            ThresholdDirection::Falling => downward,
            ThresholdDirection::Both => upward || downward,
        }
    }

    /// Decides whether to fire.
    ///
    /// For a level mapper `upward` says that the input is at or above the
    /// upper threshold and `downward` that it is at or below the lower one;
    /// for an edge mapper they say that the input has just crossed it.
    pub fn fires(self, upward: bool, downward: bool) -> (fired: bool)
        ensures
            fired == self.selects(upward, downward),
    {
        match self {
            ThresholdDirection::Rising => upward,
            ThresholdDirection::Falling => downward,
            ThresholdDirection::Both => upward || downward,
        }
    }
}

} // verus!
