//! Sampling configuration: counter width, plausibility bound, failure
//! threshold and polling interval.
//!
//! The interface surface accepts no configuration, so a session runs with
//! fixed defaults; the fields are the designated extension points.

use vstd::prelude::*;

verus! {

/// Modulus of the default hardware energy counter: the counters are
/// 32 bits wide and wrap at this value.
pub const DEFAULT_COUNTER_MODULUS: u64 = 0x1_0000_0000;

/// Default upper bound on how far a counter can plausibly advance per
/// millisecond; anything faster marks the sample as suspect.
pub const DEFAULT_MAX_COUNTER_RATE: u64 = 1000000;

/// Default number of consecutive read failures after which a domain is
/// disabled for the remainder of the session.
pub const DEFAULT_FAILURE_THRESHOLD: u32 = 3;

/// Default polling interval of the sampling loop, in milliseconds.
pub const DEFAULT_INTERVAL_MILLIS: u64 = 100;

/// Fixed parameters of one sampling session.
#[derive(Clone, Copy, Debug)]
pub struct SamplingConfig {
    /// The counter wraps modulo this value; always positive.
    pub modulus: u64,
    /// Largest plausible counter advance per millisecond.
    pub max_counter_rate: u64,
    /// A domain is disabled after this many consecutive read failures.
    pub failure_threshold: u32,
    /// Interval between two polls of the counter reader, in milliseconds.
    pub interval_millis: u64,
}

impl SamplingConfig {
    /// A configuration is well formed when the counter has a positive
    /// modulus, the failure threshold can be reached, and the loop
    /// actually waits between polls.
    pub open spec fn wf(self) -> bool {
        &&& self.modulus > 0
        &&& self.failure_threshold > 0
        &&& self.interval_millis > 0
    }

    /// The default configuration as a specification-level value.
    pub open spec fn default_spec() -> SamplingConfig {
        SamplingConfig {
            modulus: DEFAULT_COUNTER_MODULUS,
            max_counter_rate: DEFAULT_MAX_COUNTER_RATE,
            failure_threshold: DEFAULT_FAILURE_THRESHOLD,
            interval_millis: DEFAULT_INTERVAL_MILLIS,
        }
    }
}

impl Default for SamplingConfig {
    /// The built-in defaults used when no configuration is supplied.
    fn default() -> (c: SamplingConfig)
        ensures
            c == SamplingConfig::default_spec(),
            c.wf(),
    {
        SamplingConfig {
            modulus: DEFAULT_COUNTER_MODULUS,
            max_counter_rate: DEFAULT_MAX_COUNTER_RATE,
            failure_threshold: DEFAULT_FAILURE_THRESHOLD,
            interval_millis: DEFAULT_INTERVAL_MILLIS,
        }
    }
}

} // verus!
