//! Polling configuration.

use vstd::prelude::*;
use std::time::Duration;
use crate::protocol::pid::Pid;

verus! {

/// The duration of `ms` milliseconds (`Duration::from_millis`).
pub uninterp spec fn millis_duration(ms: u64) -> Duration;

/// `Duration::from_millis`: the duration of `ms` milliseconds, named by
/// `millis_duration`.
#[verifier::external_body]
fn duration_from_millis(ms: u64) -> (d: Duration)
    ensures
        d == millis_duration(ms),
{
    Duration::from_millis(ms)
}

/// `Duration::clone`: a duration is `Copy`, so its clone is the same value.
pub assume_specification[ <Duration as Clone>::clone ](d: &Duration) -> (r: Duration)
    ensures
        r == *d,
;

/// Configuration for a polling session.
#[derive(Debug, Clone)]
pub struct PollConfig {
    /// PIDs to poll each cycle.
    pub pids: Vec<Pid>,
    /// Interval between poll cycles.
    pub interval: Duration,
    /// Whether to read battery voltage each cycle.
    pub read_voltage: bool,
}

impl PollConfig {
    /// Create a poll config with the default interval (250 ms) that also
    /// reads battery voltage.
    pub fn new(pids: Vec<Pid>) -> (c: Self)
        ensures
            c.pids@ == pids@,
            c.interval == millis_duration(250),
            c.read_voltage,
    {
        PollConfig { pids, interval: duration_from_millis(250), read_voltage: true }
    }

    /// Set the polling interval.
    pub fn with_interval(self, interval: Duration) -> (c: Self)
        ensures
            c.pids@ == self.pids@,
            c.interval == interval,
            c.read_voltage == self.read_voltage,
    {
        let mut c = self;
        c.interval = interval;
        c
    }

    /// Set whether to read battery voltage.
    pub fn with_voltage(self, read_voltage: bool) -> (c: Self)
        ensures
            c.pids@ == self.pids@,
            c.interval == self.interval,
            c.read_voltage == read_voltage,
    {
        let mut c = self;
        c.read_voltage = read_voltage;
        c
    }
}

} // verus!
