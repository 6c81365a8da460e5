//! Filter responses.

use vstd::prelude::*;

verus! {

/// Filter type
#[derive(Debug, Clone, Copy, PartialEq, Eq, Structural)]
pub enum FilterType {
    /// Low-pass filter (cuts high frequencies)
    LowPass,
    /// High-pass filter (cuts low frequencies)
    HighPass,
    /// Band-pass filter (passes a frequency band)
    BandPass,
}

} // verus!
