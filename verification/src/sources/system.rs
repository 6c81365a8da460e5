//! System source settings.

use vstd::prelude::*;

verus! {

/// Configuration for system source
#[derive(Debug, Clone, Copy, PartialEq, Eq, Structural)]
pub struct SystemConfig {
    /// Poll interval in milliseconds
    pub interval_ms: u64,
}

impl SystemConfig {
    /// Create config from the `interval_ms` setting, `None` where it is
    /// absent or no whole number: the interval defaults to one second.
    pub fn from_settings(interval_ms: Option<u64>) -> (config: SystemConfig)
        ensures
            config.interval_ms == match interval_ms {
                Some(ms) => ms,
                None => 1000,
            },
    {
        match interval_ms {
            Some(ms) => SystemConfig { interval_ms: ms },
            None => SystemConfig { interval_ms: 1000 },
        }
    }
}

impl Default for SystemConfig {
    fn default() -> (config: SystemConfig)
        ensures
            config.interval_ms == 1000,
    {
        SystemConfig { interval_ms: 1000 }
    }
}

} // verus!
