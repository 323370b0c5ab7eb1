//! The monitor's settings: the polling interval and the low-battery threshold.
use vstd::prelude::*;
use core::time::Duration;

verus! {

/// The duration of `secs` whole seconds.
pub uninterp spec fn duration_of_secs(secs: u64) -> Duration;

/// Relies on Duration::from_secs: the duration of that many whole seconds,
/// which depends on the argument alone.
pub assume_specification[ core::time::Duration::from_secs ](secs: u64) -> (r: Duration)
    ensures
        r == duration_of_secs(secs),
;

/// The settings, loaded once at startup: seconds between two polls and the
/// low-battery threshold in percent.
pub struct Config {
    pub interval: u64,
    pub low_pct: usize,
}

/// The polling interval used when none is configured, in seconds.
pub fn default_interval() -> (r: u64)
    ensures
        r == 10,
{
    10
}

/// The low-battery threshold used when none is configured, in percent.
pub fn default_low_pct() -> (r: usize)
    ensures
        r == 15,
{
    15
}

impl Default for Config {
    fn default() -> (r: Config)
        ensures
            r.interval == 10,
            r.low_pct == 15,
    {
        Config { interval: default_interval(), low_pct: default_low_pct() }
    }
}

impl Config {
    /// Settings with the given interval (seconds) and threshold (percent).
    pub fn new(interval: u64, low_pct: usize) -> (r: Config)
        ensures
            r.interval == interval,
            r.low_pct == low_pct,
    {
        Config { interval, low_pct }
    }

    /// The time to wait between two polls.
    pub fn interval(&self) -> (r: Duration)
        ensures
            r == duration_of_secs(self.interval),
    {
        Duration::from_secs(self.interval)
    }
}

} // verus!
