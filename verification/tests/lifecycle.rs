use rapl_interface::controller::{
    Controller, DomainAccess, DomainProbe, SamplingState, StartDecision, StopDecision,
};
use rapl_interface::sample::{RawReading, ReadOutcome};
use rapl_interface::status::StatusCode;

fn probe(domain: u32, access: DomainAccess) -> DomainProbe {
    DomainProbe { domain, access }
}

#[test]
fn start_with_one_accessible_domain_succeeds() {
    let mut c = Controller::new();
    let probes = vec![probe(0, DomainAccess::Accessible)];
    assert_eq!(c.start(&probes), StatusCode::Success);
    assert_eq!(c.state(), SamplingState::Running);
    assert_eq!(c.session_domains(), vec![0]);
}

#[test]
fn second_start_reports_already_active() {
    let mut c = Controller::new();
    let probes = vec![probe(0, DomainAccess::Accessible)];
    assert_eq!(c.start(&probes), StatusCode::Success);
    let domains_after_first = c.session_domains();
    // no intervening stop: the second start must not arm a second session
    assert_eq!(c.start(&probes), StatusCode::AlreadyRunning);
    assert_eq!(c.state(), SamplingState::Running);
    assert_eq!(c.session_domains(), domains_after_first);
}

#[test]
fn stop_when_stopped_is_noop() {
    let mut c = Controller::new();
    assert_eq!(c.state(), SamplingState::Stopped);
    c.stop();
    assert_eq!(c.state(), SamplingState::Stopped);
    c.stop();
    assert_eq!(c.state(), SamplingState::Stopped);
    assert_eq!(c.session_domains(), Vec::<u32>::new());
}

#[test]
fn start_denied_everywhere_reports_permission_denied() {
    let mut c = Controller::new();
    let probes = vec![
        probe(0, DomainAccess::PermissionDenied),
        probe(1, DomainAccess::PermissionDenied),
    ];
    assert_eq!(c.start(&probes), StatusCode::PermissionDenied);
    assert_eq!(c.state(), SamplingState::Stopped);
    assert_eq!(c.session_domains(), Vec::<u32>::new());
}

#[test]
fn start_with_no_domains_reports_none_available() {
    let mut c = Controller::new();
    let probes: Vec<DomainProbe> = Vec::new();
    assert_eq!(c.start(&probes), StatusCode::NoDomainsAvailable);
    assert_eq!(c.state(), SamplingState::Stopped);
}

#[test]
fn start_all_unsupported_reports_none_available() {
    let mut c = Controller::new();
    let probes = vec![probe(0, DomainAccess::Unsupported), probe(1, DomainAccess::Unsupported)];
    assert_eq!(c.start(&probes), StatusCode::NoDomainsAvailable);
    assert_eq!(c.state(), SamplingState::Stopped);
}

#[test]
fn mixed_probes_keep_only_accessible_domains() {
    let mut c = Controller::new();
    let probes = vec![
        probe(7, DomainAccess::PermissionDenied),
        probe(3, DomainAccess::Accessible),
        probe(9, DomainAccess::Unsupported),
        probe(5, DomainAccess::Accessible),
    ];
    assert_eq!(c.start(&probes), StatusCode::Success);
    assert_eq!(c.session_domains(), vec![3, 5]);
}

#[test]
fn split_halves_walk_the_full_state_path() {
    let mut c = Controller::new();
    assert_eq!(c.begin_start(), StartDecision::Proceed);
    assert_eq!(c.state(), SamplingState::Starting);
    // a concurrent start arriving between the halves is turned away
    assert_eq!(c.begin_start(), StartDecision::AlreadyActive);
    let probes = vec![probe(0, DomainAccess::Accessible)];
    assert_eq!(c.complete_start(&probes), StatusCode::Success);
    assert_eq!(c.state(), SamplingState::Running);
    assert_eq!(c.begin_stop(), StopDecision::Teardown);
    assert_eq!(c.state(), SamplingState::Stopping);
    c.complete_stop();
    assert_eq!(c.state(), SamplingState::Stopped);
    assert_eq!(c.session_domains(), Vec::<u32>::new());
}

#[test]
fn failed_start_falls_back_to_stopped() {
    let mut c = Controller::new();
    assert_eq!(c.begin_start(), StartDecision::Proceed);
    let probes = vec![probe(0, DomainAccess::PermissionDenied)];
    assert_eq!(c.complete_start(&probes), StatusCode::PermissionDenied);
    assert_eq!(c.state(), SamplingState::Stopped);
    // the controller is clean: a later start can still succeed
    let good = vec![probe(0, DomainAccess::Accessible)];
    assert_eq!(c.start(&good), StatusCode::Success);
}

#[test]
fn complete_start_outside_starting_is_internal_error() {
    let mut c = Controller::new();
    let probes = vec![probe(0, DomainAccess::Accessible)];
    assert_eq!(c.complete_start(&probes), StatusCode::InternalError);
    assert_eq!(c.state(), SamplingState::Stopped);
}

#[test]
fn stop_during_start_takes_precedence() {
    let mut c = Controller::new();
    assert_eq!(c.begin_start(), StartDecision::Proceed);
    assert_eq!(c.begin_stop(), StopDecision::Teardown);
    assert_eq!(c.state(), SamplingState::Stopping);
    c.complete_stop();
    assert_eq!(c.state(), SamplingState::Stopped);
}

#[test]
fn stop_tears_down_a_running_session() {
    let mut c = Controller::new();
    let probes = vec![probe(0, DomainAccess::Accessible)];
    assert_eq!(c.start(&probes), StatusCode::Success);
    let readings = vec![ReadOutcome::Read(RawReading { domain: 0, counter: 100, timestamp: 1 })];
    let seeded = c.sampling_step(&readings);
    assert!(seeded.is_empty());
    c.stop();
    assert_eq!(c.state(), SamplingState::Stopped);
    assert_eq!(c.session_domains(), Vec::<u32>::new());
}

#[test]
fn status_codes_are_distinct_integers() {
    assert_eq!(StatusCode::Success.as_i32(), 0);
    assert_eq!(StatusCode::AlreadyRunning.as_i32(), 1);
    assert_eq!(StatusCode::PermissionDenied.as_i32(), 2);
    assert_eq!(StatusCode::NoDomainsAvailable.as_i32(), 3);
    assert_eq!(StatusCode::InternalError.as_i32(), 4);
}
