//! Startup configuration: destination path and capture interval.

use vstd::prelude::*;

verus! {

/// Smallest accepted capture interval, in seconds.
pub const MIN_INTERVAL_SECS: u64 = 1;

/// Largest accepted capture interval, in seconds.
pub const MAX_INTERVAL_SECS: u64 = 60;

/// Capture interval used when none is given, in seconds.
pub const DEFAULT_INTERVAL_SECS: u64 = 1;

/// Fixed period of the liveness check, in seconds.
pub const LIVENESS_PERIOD_SECS: u64 = 10;

/// A startup-time validation failure; the process must exit before any
/// engine is constructed.
#[derive(Clone, Copy, Debug, PartialEq, Eq, Structural)]
pub enum ConfigError {
    IntervalOutOfRange,
}

/// The capture interval must lie between one second and one minute.
pub open spec fn interval_in_range(secs: u64) -> bool {
    MIN_INTERVAL_SECS <= secs && secs <= MAX_INTERVAL_SECS
}

/// Validates the requested capture interval: accepted exactly when it lies
/// in the allowed range, rejected otherwise.
pub fn validate_interval(secs: u64) -> (r: Result<u64, ConfigError>)
    ensures
        interval_in_range(secs) ==> r == Ok::<u64, ConfigError>(secs),
        !interval_in_range(secs) ==> r == Err::<u64, ConfigError>(ConfigError::IntervalOutOfRange),
{
    if MIN_INTERVAL_SECS <= secs && secs <= MAX_INTERVAL_SECS {
        Ok(secs)
    } else {
        Err(ConfigError::IntervalOutOfRange)
    }
}

/// Validated startup settings: where snapshots go and how often they are
/// taken.
pub struct Settings {
    /// Path of the destination file.
    pub destination: String,
    /// Seconds between two capture ticks; always in the allowed range.
    pub interval_secs: u64,
}

impl Settings {
    /// Builds the settings, rejecting an out-of-range interval before
    /// anything else starts.
    pub fn new(destination: String, interval_secs: u64) -> (r: Result<Settings, ConfigError>)
        ensures
            interval_in_range(interval_secs) ==> (r matches Ok(s)
                && s.destination@ == destination@
                && s.interval_secs == interval_secs),
            !interval_in_range(interval_secs) ==> (r matches Err(e)
                && e == ConfigError::IntervalOutOfRange),
    {
        match validate_interval(interval_secs) {
            Ok(secs) => Ok(Settings { destination, interval_secs: secs }),
            Err(e) => Err(e),
        }
    }
}

} // verus!
