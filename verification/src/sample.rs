//! Data carried through the sampling pipeline: raw counter readings and
//! the energy samples derived from them.

use vstd::prelude::*;
use crate::config::SamplingConfig;
use crate::counter::suspect_spec;

verus! {

/// Identifier of one measurable power rail (package, DRAM, ...). The set
/// of domains is discovered once at start time and is immutable for the
/// session.
pub type DomainId = u32;

/// One successful read of a domain's raw hardware counter.
#[derive(Clone, Copy, Debug, PartialEq, Eq, Structural)]
pub struct RawReading {
    /// The domain the counter belongs to.
    pub domain: DomainId,
    /// The raw counter value; wraps modulo the configured modulus.
    pub counter: u64,
    /// When the counter was read, in milliseconds of a monotonic clock.
    pub timestamp: u64,
}

/// Result of one attempt to read a domain's counter.
#[derive(Clone, Copy, Debug, PartialEq, Eq, Structural)]
pub enum ReadOutcome {
    /// The counter was read.
    Read(RawReading),
    /// The read failed; the domain is skipped this iteration.
    Failed,
}

/// Energy spent by one domain over one polling interval, derived from two
/// successive raw readings by wraparound-aware subtraction.
#[derive(Clone, Copy, Debug, PartialEq, Eq, Structural)]
pub struct EnergySample {
    /// The domain the energy was measured on.
    pub domain: DomainId,
    /// Counter units spent over the interval; never negative and always
    /// below the counter modulus.
    pub delta: u64,
    /// Timestamp of the earlier of the two readings.
    pub interval_start: u64,
    /// Timestamp of the later of the two readings.
    pub interval_end: u64,
    /// Set when the interval admits more than one counter wrap, or when
    /// the delta exceeds the largest energy the interval allows; such a
    /// sample is degraded rather than silently wrong.
    pub suspect: bool,
}

/// Invariant of an emitted sample: its interval is ordered, its delta is
/// below the counter modulus, and unless the sample is marked suspect the
/// delta is bounded by the maximum possible energy for the interval
/// length.
pub open spec fn sample_wf(s: EnergySample, cfg: SamplingConfig) -> bool {
    &&& s.interval_start <= s.interval_end
    &&& s.delta < cfg.modulus
    &&& !s.suspect ==> s.delta <= (s.interval_end - s.interval_start) * cfg.max_counter_rate
}

/// The sample derived from a previous and a current reading of the same
/// domain.
pub open spec fn sample_of(prev: RawReading, curr: RawReading, cfg: SamplingConfig) -> EnergySample {
    let delta = crate::counter::wrap_delta_spec(
        prev.counter as int,
        curr.counter as int,
        cfg.modulus as int,
    );
    let elapsed = curr.timestamp - prev.timestamp;
    EnergySample {
        domain: curr.domain,
        delta: delta as u64,
        interval_start: prev.timestamp,
        interval_end: curr.timestamp,
        suspect: suspect_spec(delta, elapsed, cfg.max_counter_rate as int, cfg.modulus as int),
    }
}

} // verus!
