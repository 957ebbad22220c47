use rapl_interface::config::{
    SamplingConfig, DEFAULT_COUNTER_MODULUS, DEFAULT_FAILURE_THRESHOLD, DEFAULT_INTERVAL_MILLIS,
    DEFAULT_MAX_COUNTER_RATE,
};
use rapl_interface::controller::{Controller, DomainAccess, DomainProbe};
use rapl_interface::counter::{is_suspect, wrapping_delta};
use rapl_interface::sample::{RawReading, ReadOutcome};
use rapl_interface::status::StatusCode;
use rapl_interface::tracker::DomainTracker;

fn reading(domain: u32, counter: u64, timestamp: u64) -> ReadOutcome {
    ReadOutcome::Read(RawReading { domain, counter, timestamp })
}

#[test]
fn default_config_values() {
    let cfg = SamplingConfig::default();
    assert_eq!(cfg.modulus, DEFAULT_COUNTER_MODULUS);
    assert_eq!(cfg.modulus, 1 << 32);
    assert_eq!(cfg.max_counter_rate, DEFAULT_MAX_COUNTER_RATE);
    assert_eq!(cfg.failure_threshold, DEFAULT_FAILURE_THRESHOLD);
    assert_eq!(cfg.interval_millis, DEFAULT_INTERVAL_MILLIS);
}

#[test]
fn delta_without_wrap_is_plain_difference() {
    assert_eq!(wrapping_delta(100, 250, DEFAULT_COUNTER_MODULUS), 150);
    assert_eq!(wrapping_delta(0, 0, DEFAULT_COUNTER_MODULUS), 0);
    assert_eq!(wrapping_delta(42, 42, DEFAULT_COUNTER_MODULUS), 0);
}

#[test]
fn delta_across_wrap_goes_through_the_wrap_point() {
    // near-maximum to near-zero: exactly (modulus - prev) + curr
    let prev = DEFAULT_COUNTER_MODULUS - 0x100;
    let curr = 0x40;
    assert_eq!(
        wrapping_delta(prev, curr, DEFAULT_COUNTER_MODULUS),
        (DEFAULT_COUNTER_MODULUS - prev) + curr
    );
    assert_eq!(wrapping_delta(prev, curr, DEFAULT_COUNTER_MODULUS), 0x140);
}

#[test]
fn suspect_when_interval_admits_more_than_one_wrap() {
    // rate 10 per ms over 100 ms can cover the whole modulus of 1000
    assert!(is_suspect(5, 100, 10, 1000));
    // delta exceeding the largest energy the interval allows
    assert!(is_suspect(51, 5, 10, 1000));
    // an ordinary sample is not suspect
    assert!(!is_suspect(50, 5, 10, 1000));
}

#[test]
fn first_reading_seeds_without_emitting() {
    let cfg = SamplingConfig::default();
    let mut t = DomainTracker::new(0);
    assert!(t.prev.is_none());
    let emitted = t.step(reading(0, 500, 10), &cfg);
    assert!(emitted.is_none());
    let baseline = t.prev.expect("baseline must be seeded");
    assert_eq!(baseline.counter, 500);
    assert_eq!(baseline.timestamp, 10);
}

#[test]
fn second_reading_emits_a_sample() {
    let cfg = SamplingConfig::default();
    let mut t = DomainTracker::new(3);
    assert!(t.step(reading(3, 1000, 10), &cfg).is_none());
    let sample = t.step(reading(3, 1600, 110), &cfg).expect("a seeded tracker emits");
    assert_eq!(sample.domain, 3);
    assert_eq!(sample.delta, 600);
    assert_eq!(sample.interval_start, 10);
    assert_eq!(sample.interval_end, 110);
    assert!(!sample.suspect);
}

#[test]
fn wrapped_sample_through_the_tracker() {
    let cfg = SamplingConfig::default();
    let mut t = DomainTracker::new(1);
    assert!(t.step(reading(1, DEFAULT_COUNTER_MODULUS - 1, 0), &cfg).is_none());
    let sample = t.step(reading(1, 9, 100), &cfg).expect("wrap emits a sample");
    assert_eq!(sample.delta, 10);
    assert!(!sample.suspect);
}

#[test]
fn read_failures_demote_the_domain_at_the_threshold() {
    let cfg = SamplingConfig {
        modulus: DEFAULT_COUNTER_MODULUS,
        max_counter_rate: DEFAULT_MAX_COUNTER_RATE,
        failure_threshold: 2,
        interval_millis: 1,
    };
    let mut t = DomainTracker::new(0);
    assert!(t.step(ReadOutcome::Failed, &cfg).is_none());
    assert!(!t.disabled);
    assert_eq!(t.consecutive_failures, 1);
    assert!(t.step(ReadOutcome::Failed, &cfg).is_none());
    assert!(t.disabled);
    // a disabled tracker stays disabled and emits nothing more
    assert!(t.step(reading(0, 100, 5), &cfg).is_none());
    assert!(t.disabled);
}

#[test]
fn a_successful_reading_clears_the_failure_run() {
    let cfg = SamplingConfig::default();
    let mut t = DomainTracker::new(0);
    assert!(t.step(ReadOutcome::Failed, &cfg).is_none());
    assert_eq!(t.consecutive_failures, 1);
    assert!(t.step(reading(0, 7, 1), &cfg).is_none());
    assert_eq!(t.consecutive_failures, 0);
    assert!(!t.disabled);
}

#[test]
fn one_domain_failure_does_not_stop_the_others() {
    let mut c = Controller::new();
    let probes = vec![
        DomainProbe { domain: 0, access: DomainAccess::Accessible },
        DomainProbe { domain: 1, access: DomainAccess::Accessible },
    ];
    assert_eq!(c.start(&probes), StatusCode::Success);
    let seed = vec![reading(0, 100, 10), reading(1, 200, 10)];
    assert!(c.sampling_step(&seed).is_empty());
    let second = vec![ReadOutcome::Failed, reading(1, 260, 110)];
    let samples = c.sampling_step(&second);
    assert_eq!(samples.len(), 1);
    assert_eq!(samples[0].domain, 1);
    assert_eq!(samples[0].delta, 60);
}

#[test]
fn end_to_end_single_domain_session() {
    let mut c = Controller::new();
    let probes = vec![DomainProbe { domain: 0, access: DomainAccess::Accessible }];
    assert_eq!(c.start(&probes), StatusCode::Success);
    // one interval elapses: seed, then a real delta is published
    assert!(c.sampling_step(&vec![reading(0, 1000, 0)]).is_empty());
    let samples = c.sampling_step(&vec![reading(0, 1800, 100)]);
    assert_eq!(samples.len(), 1);
    assert_eq!(samples[0].delta, 800);
    assert_eq!(samples[0].interval_start, 0);
    assert_eq!(samples[0].interval_end, 100);
    c.stop();
    assert_eq!(c.session_domains(), Vec::<u32>::new());
}
