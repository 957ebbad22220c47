//! Per-domain sampling state: the previous-reading baseline, the run of
//! consecutive read failures, and whether the domain has been demoted.

use vstd::prelude::*;
use crate::config::SamplingConfig;
use crate::counter::{is_suspect, wrap_delta_spec, wrapping_delta};
use crate::sample::{sample_of, sample_wf, DomainId, EnergySample, RawReading, ReadOutcome};

verus! {

/// Sampling state of one domain for the lifetime of one session.
#[derive(Clone, Copy, Debug)]
pub struct DomainTracker {
    /// The domain this tracker samples.
    pub domain: DomainId,
    /// The most recent successful reading, used as the subtraction
    /// baseline; `None` until the first reading seeds it.
    pub prev: Option<RawReading>,
    /// Consecutive read failures since the last successful reading.
    pub consecutive_failures: u32,
    /// Set once the failure threshold is reached; a disabled domain is
    /// skipped for the remainder of the session.
    pub disabled: bool,
}

/// The tracker a fresh session starts with: no baseline, no failures.
pub open spec fn fresh_tracker(domain: DomainId) -> DomainTracker {
    DomainTracker { domain, prev: Option::None, consecutive_failures: 0, disabled: false }
}

/// Invariant of a tracker: its baseline belongs to its own domain and is
/// in counter range, and the failure count never passes the threshold
/// (once the threshold is reached the tracker is disabled and the count
/// freezes).
pub open spec fn tracker_wf(t: DomainTracker, cfg: SamplingConfig) -> bool {
    &&& (t.prev matches Option::Some(p) ==> p.domain == t.domain && p.counter < cfg.modulus)
    &&& t.consecutive_failures <= cfg.failure_threshold
    &&& (!t.disabled ==> t.consecutive_failures < cfg.failure_threshold)
}

/// What the sampling loop may hand a tracker: a reading, if any, is for
/// the tracker's own domain, in counter range, and no earlier than the
/// baseline (the clock is monotonic).
pub open spec fn read_ok(outcome: ReadOutcome, t: DomainTracker, cfg: SamplingConfig) -> bool {
    outcome matches ReadOutcome::Read(r) ==> {
        &&& r.domain == t.domain
        &&& r.counter < cfg.modulus
        &&& (t.prev matches Option::Some(p) ==> p.timestamp <= r.timestamp)
    }
}

/// The tracker after one loop iteration: a successful reading becomes the
/// new baseline and clears the failure run; a failure lengthens the run
/// and demotes the domain at the threshold; a disabled tracker is left
/// untouched.
pub open spec fn tracker_step_spec(
    t: DomainTracker,
    outcome: ReadOutcome,
    cfg: SamplingConfig,
) -> DomainTracker {
    if t.disabled {
        t
    } else {
        match outcome {
            ReadOutcome::Read(r) => DomainTracker {
                domain: t.domain,
                prev: Option::Some(r),
                consecutive_failures: 0,
                disabled: false,
            },
            ReadOutcome::Failed => {
                let runs = (t.consecutive_failures + 1) as u32;
                DomainTracker {
                    domain: t.domain,
                    prev: t.prev,
                    consecutive_failures: runs,
                    disabled: runs >= cfg.failure_threshold,
                }
            },
        }
    }
}

/// The sample one loop iteration emits, if any: only an enabled tracker
/// with a seeded baseline and a successful reading produces one. The very
/// first reading after start only seeds the baseline.
pub open spec fn emit_spec(
    t: DomainTracker,
    outcome: ReadOutcome,
    cfg: SamplingConfig,
) -> Option<EnergySample> {
    if t.disabled {
        Option::None
    } else {
        match outcome {
            ReadOutcome::Read(r) => match t.prev {
                Option::Some(p) => Option::Some(sample_of(p, r, cfg)),
                Option::None => Option::None,
            },
            ReadOutcome::Failed => Option::None,
        }
    }
}

impl DomainTracker {
    /// A fresh tracker for one discovered domain.
    pub fn new(domain: DomainId) -> (t: DomainTracker)
        ensures
            t == fresh_tracker(domain),
    {
        DomainTracker { domain, prev: None, consecutive_failures: 0, disabled: false }
    }

    /// Feeds one read outcome to the tracker and returns the energy
    /// sample it emits, if any.
    pub fn step(&mut self, outcome: ReadOutcome, cfg: &SamplingConfig) -> (emitted: Option<
        EnergySample,
    >)
        requires
            cfg.wf(),
            tracker_wf(*old(self), *cfg),
            read_ok(outcome, *old(self), *cfg),
        ensures
            *final(self) == tracker_step_spec(*old(self), outcome, *cfg),
            emitted == emit_spec(*old(self), outcome, *cfg),
            tracker_wf(*final(self), *cfg),
            emitted matches Option::Some(s) ==> sample_wf(s, *cfg),
    {
        if self.disabled {
            return None;
        }
        match outcome {
            ReadOutcome::Read(r) => {
                let emitted = match self.prev {
                    Some(p) => {
                        let delta = wrapping_delta(p.counter, r.counter, cfg.modulus);
                        let elapsed = r.timestamp - p.timestamp;
                        let suspect = is_suspect(delta, elapsed, cfg.max_counter_rate, cfg.modulus);
                        Some(
                            EnergySample {
                                domain: self.domain,
                                delta,
                                interval_start: p.timestamp,
                                interval_end: r.timestamp,
                                suspect,
                            },
                        )
                    },
                    None => None,
                };
                self.prev = Some(r);
                self.consecutive_failures = 0;
                emitted
            },
            ReadOutcome::Failed => {
                let runs = self.consecutive_failures + 1;
                self.consecutive_failures = runs;
                if runs >= cfg.failure_threshold {
                    self.disabled = true;
                }
                None
            },
        }
    }
}

/// Wraparound correctness through the sampling pipeline: when a domain's
/// counter wraps between two consecutive reads (the new value is below
/// the baseline), the emitted sample's energy delta is exactly
/// `(modulus - prev) + curr` and is never negative.
pub proof fn lemma_wraparound_sample(t: DomainTracker, r: RawReading, cfg: SamplingConfig)
    requires
        cfg.wf(),
        tracker_wf(t, cfg),
        read_ok(ReadOutcome::Read(r), t, cfg),
        !t.disabled,
        t.prev is Some,
        r.counter < t.prev.unwrap().counter,
    ensures
        emit_spec(t, ReadOutcome::Read(r), cfg) is Some,
        emit_spec(t, ReadOutcome::Read(r), cfg).unwrap().delta == (cfg.modulus
            - t.prev.unwrap().counter) + r.counter,
        emit_spec(t, ReadOutcome::Read(r), cfg).unwrap().delta >= 0,
{
    let p = t.prev.unwrap();
    crate::counter::lemma_wraparound_delta(p.counter as int, r.counter as int, cfg.modulus as int);
    assert(wrap_delta_spec(p.counter as int, r.counter as int, cfg.modulus as int) < cfg.modulus);
}

} // verus!
