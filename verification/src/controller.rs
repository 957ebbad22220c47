//! The process-wide lifecycle controller.
//!
//! The controller owns the sampling session: the state machine
//! Stopped → Starting → Running → Stopping → Stopped, and the per-domain
//! trackers that exist exactly while a session does. Callers reach it
//! only through `start`/`stop` (or their begin/complete halves) while
//! holding exclusive access, so every observable transition is one of the
//! serialized steps modelled here. The caller performs the outside work
//! between the two halves: probing domain permissions before
//! `complete_start`, and joining the sampling loop before
//! `complete_stop`.

use vstd::prelude::*;
use crate::config::SamplingConfig;
use crate::sample::{sample_wf, DomainId, EnergySample, ReadOutcome};
use crate::status::StatusCode;
use crate::tracker::{
    emit_spec, fresh_tracker, read_ok, tracker_step_spec, tracker_wf, DomainTracker,
};

verus! {

/// Phase of the process-wide sampling session. Exactly one instance of
/// this state exists per controller, and transitions happen only under
/// exclusive access.
#[derive(Clone, Copy, Debug, PartialEq, Eq, Structural)]
pub enum SamplingState {
    /// No session exists; `start` may create one.
    Stopped,
    /// A `start` is probing domains; no sampling loop exists yet.
    Starting,
    /// The session is live and the sampling loop is armed.
    Running,
    /// A `stop` is tearing the session down.
    Stopping,
}

/// Whether a discovered domain's counter can be read, as found by the
/// start-time probe.
#[derive(Clone, Copy, Debug, PartialEq, Eq, Structural)]
pub enum DomainAccess {
    /// The counter was read successfully.
    Accessible,
    /// The interface exists but access was denied for lack of privilege.
    PermissionDenied,
    /// The interface is not available on this machine.
    Unsupported,
}

/// One discovered power domain together with the outcome of the
/// start-time permission probe on it.
#[derive(Clone, Copy, Debug, PartialEq, Eq, Structural)]
pub struct DomainProbe {
    /// The probed domain.
    pub domain: DomainId,
    /// What the probe found.
    pub access: DomainAccess,
}

/// What `begin_start` decided.
#[derive(Clone, Copy, Debug, PartialEq, Eq, Structural)]
pub enum StartDecision {
    /// The controller was Stopped and is now Starting; the caller must
    /// probe the domains and call `complete_start`.
    Proceed,
    /// A session is already active (or being started or stopped); the
    /// call changed nothing.
    AlreadyActive,
}

/// What `begin_stop` decided.
#[derive(Clone, Copy, Debug, PartialEq, Eq, Structural)]
pub enum StopDecision {
    /// The controller is now Stopping; the caller must signal the
    /// sampling loop, wait for it to exit, then call `complete_stop`.
    Teardown,
    /// The controller was already Stopped; the call changed nothing.
    AlreadyStopped,
}

/// Mathematical model of the controller: its lifecycle state, the
/// trackers of the current session (empty when no session exists), and
/// the session configuration.
#[verifier::ext_equal]
pub struct ControllerModel {
    /// The lifecycle state.
    pub state: SamplingState,
    /// The per-domain trackers; the session handle is exactly this set
    /// together with a non-Stopped state.
    pub trackers: Seq<DomainTracker>,
    /// The fixed session configuration.
    pub cfg: SamplingConfig,
}

/// Invariant of the controller: the configuration is well formed, a
/// session (a non-empty tracker set) exists only while Running or
/// Stopping, a Running session has at least one domain, and every
/// tracker is well formed.
pub open spec fn model_wf(m: ControllerModel) -> bool {
    &&& m.cfg.wf()
    &&& (m.state is Stopped || m.state is Starting) ==> m.trackers.len() == 0
    &&& m.state is Running ==> m.trackers.len() > 0
    &&& forall|i: int| 0 <= i < m.trackers.len() ==> tracker_wf(#[trigger] m.trackers[i], m.cfg)
}

/// The edges of the lifecycle diagram: Stopped → Starting → Running,
/// Running/Starting → Stopping → Stopped, a failed start falling back
/// from Starting to Stopped, and staying in place. Every serialized
/// operation moves the state along one of these edges.
pub open spec fn valid_transition(pre: SamplingState, post: SamplingState) -> bool {
    ||| pre == post
    ||| (pre is Stopped && post is Starting)
    ||| (pre is Starting && (post is Running || post is Stopping || post is Stopped))
    ||| (pre is Running && post is Stopping)
    ||| (pre is Stopping && post is Stopped)
}

/// The domains of the probes that found their counter accessible, in
/// probe order.
pub open spec fn accessible_domains(probes: Seq<DomainProbe>) -> Seq<DomainId>
    decreases probes.len(),
{
    if probes.len() == 0 {
        Seq::empty()
    } else {
        let rest = accessible_domains(probes.drop_last());
        if probes.last().access is Accessible {
            rest.push(probes.last().domain)
        } else {
            rest
        }
    }
}

/// Some probe found a domain whose counter exists but may not be read.
pub open spec fn any_permission_denied(probes: Seq<DomainProbe>) -> bool {
    exists|i: int| 0 <= i < probes.len() && probes[i].access is PermissionDenied
}

/// The tracker set a fresh session starts with: one fresh tracker per
/// accessible domain, in order.
pub open spec fn fresh_trackers(domains: Seq<DomainId>) -> Seq<DomainTracker> {
    Seq::new(domains.len(), |i: int| fresh_tracker(domains[i]))
}

/// The model after `begin_start`: only a Stopped controller moves to
/// Starting; any other state is left untouched.
pub open spec fn begin_start_model(m: ControllerModel) -> ControllerModel {
    if m.state is Stopped {
        ControllerModel { state: SamplingState::Starting, trackers: m.trackers, cfg: m.cfg }
    } else {
        m
    }
}

/// The decision `begin_start` reports.
pub open spec fn begin_start_decision(m: ControllerModel) -> StartDecision {
    if m.state is Stopped {
        StartDecision::Proceed
    } else {
        StartDecision::AlreadyActive
    }
}

/// The model after `complete_start`: with at least one accessible domain
/// the session is created and the state becomes Running; with none the
/// state falls back to Stopped and no session is created. Outside the
/// Starting state the call changes nothing.
pub open spec fn complete_start_model(
    m: ControllerModel,
    probes: Seq<DomainProbe>,
) -> ControllerModel {
    if !(m.state is Starting) {
        m
    } else {
        let domains = accessible_domains(probes);
        if domains.len() > 0 {
            ControllerModel {
                state: SamplingState::Running,
                trackers: fresh_trackers(domains),
                cfg: m.cfg,
            }
        } else {
            ControllerModel { state: SamplingState::Stopped, trackers: m.trackers, cfg: m.cfg }
        }
    }
}

/// The status `complete_start` reports: Success exactly when a session
/// was created; PermissionDenied when domains were found but none may be
/// read; NoDomainsAvailable when the machine offers no usable domain at
/// all (none found, or the interface unsupported on every rail). A call
/// outside the Starting state is an invariant violation.
pub open spec fn complete_start_status(m: ControllerModel, probes: Seq<DomainProbe>) -> StatusCode {
    if !(m.state is Starting) {
        StatusCode::InternalError
    } else if accessible_domains(probes).len() > 0 {
        StatusCode::Success
    } else if any_permission_denied(probes) {
        StatusCode::PermissionDenied
    } else {
        StatusCode::NoDomainsAvailable
    }
}

/// The model after `begin_stop`: an already Stopped controller is left
/// untouched; anything else moves to Stopping with the session kept for
/// teardown.
pub open spec fn begin_stop_model(m: ControllerModel) -> ControllerModel {
    if m.state is Stopped {
        m
    } else {
        ControllerModel { state: SamplingState::Stopping, trackers: m.trackers, cfg: m.cfg }
    }
}

/// The decision `begin_stop` reports.
pub open spec fn begin_stop_decision(m: ControllerModel) -> StopDecision {
    if m.state is Stopped {
        StopDecision::AlreadyStopped
    } else {
        StopDecision::Teardown
    }
}

/// The model after `complete_stop`: a Stopping controller releases the
/// session and becomes Stopped; any other state is left untouched.
pub open spec fn complete_stop_model(m: ControllerModel) -> ControllerModel {
    if m.state is Stopping {
        ControllerModel { state: SamplingState::Stopped, trackers: Seq::empty(), cfg: m.cfg }
    } else {
        m
    }
}

/// The model after a full `start`: the composition of its two halves.
pub open spec fn start_model(m: ControllerModel, probes: Seq<DomainProbe>) -> ControllerModel {
    if !(m.state is Stopped) {
        m
    } else {
        complete_start_model(begin_start_model(m), probes)
    }
}

/// The status a full `start` reports.
pub open spec fn start_status(m: ControllerModel, probes: Seq<DomainProbe>) -> StatusCode {
    if !(m.state is Stopped) {
        StatusCode::AlreadyRunning
    } else {
        complete_start_status(begin_start_model(m), probes)
    }
}

/// The model after a full `stop`: the composition of its two halves.
pub open spec fn stop_model(m: ControllerModel) -> ControllerModel {
    complete_stop_model(begin_stop_model(m))
}

/// The model of a controller that has never started a session.
pub open spec fn initial_model(cfg: SamplingConfig) -> ControllerModel {
    ControllerModel { state: SamplingState::Stopped, trackers: Seq::empty(), cfg }
}

/// The samples one sampling iteration emits: for each tracker in order,
/// the sample its read outcome produces, if any.
pub open spec fn collect_samples(
    trackers: Seq<DomainTracker>,
    readings: Seq<ReadOutcome>,
    cfg: SamplingConfig,
    n: int,
) -> Seq<EnergySample>
    decreases n,
{
    if n <= 0 {
        Seq::empty()
    } else {
        let rest = collect_samples(trackers, readings, cfg, n - 1);
        match emit_spec(trackers[n - 1], readings[n - 1], cfg) {
            Option::Some(s) => rest.push(s),
            Option::None => rest,
        }
    }
}

/// The lifecycle controller. All access goes through one instance,
/// guarded by the caller's exclusive-access discipline; the exclusive
/// receiver of every operation is what serializes the transitions.
pub struct Controller {
    state: SamplingState,
    trackers: Vec<DomainTracker>,
    cfg: SamplingConfig,
}

impl View for Controller {
    type V = ControllerModel;

    closed spec fn view(&self) -> ControllerModel {
        ControllerModel { state: self.state, trackers: self.trackers@, cfg: self.cfg }
    }
}

impl Controller {
    /// The controller invariant, stated over the model.
    pub open spec fn wf(&self) -> bool {
        model_wf(self@)
    }

    /// A controller with the built-in default configuration and no
    /// session.
    pub fn new() -> (c: Controller)
        ensures
            c@ == initial_model(SamplingConfig::default_spec()),
            c.wf(),
    {
        let c = Controller {
            state: SamplingState::Stopped,
            trackers: Vec::new(),
            cfg: SamplingConfig::default(),
        };
        proof {
            assert(c@ =~= initial_model(SamplingConfig::default_spec()));
        }
        c
    }

    /// A controller with an explicit configuration; the configuration is
    /// an extension point, the exposed interface always uses the
    /// defaults.
    pub fn with_config(cfg: SamplingConfig) -> (c: Controller)
        requires
            cfg.wf(),
        ensures
            c@ == initial_model(cfg),
            c.wf(),
    {
        let c = Controller { state: SamplingState::Stopped, trackers: Vec::new(), cfg };
        proof {
            assert(c@ =~= initial_model(cfg));
        }
        c
    }

    /// The current lifecycle state.
    pub fn state(&self) -> (s: SamplingState)
        ensures
            s == self@.state,
    {
        self.state
    }

    /// The session configuration.
    pub fn config(&self) -> (cfg: SamplingConfig)
        ensures
            cfg == self@.cfg,
    {
        self.cfg
    }

    /// The domains of the current session, in tracker order.
    pub fn session_domains(&self) -> (domains: Vec<DomainId>)
        ensures
            domains@.len() == self@.trackers.len(),
            forall|i: int|
                0 <= i < domains@.len() ==> domains@[i] == self@.trackers[i].domain,
    {
        let mut domains: Vec<DomainId> = Vec::new();
        let mut i: usize = 0;
        while i < self.trackers.len()
            invariant
                i <= self.trackers@.len(),
                domains@.len() == i,
                forall|j: int| 0 <= j < i ==> domains@[j] == self.trackers@[j].domain,
            decreases self.trackers@.len() - i,
        {
            domains.push(self.trackers[i].domain);
            i += 1;
        }
        domains
    }

    /// First half of `start`: claims the transition Stopped → Starting,
    /// or reports that a session is already active without touching
    /// anything. The caller probes the domains next and then calls
    /// `complete_start`.
    pub fn begin_start(&mut self) -> (decision: StartDecision)
        requires
            old(self).wf(),
        ensures
            final(self).wf(),
            final(self)@ == begin_start_model(old(self)@),
            decision == begin_start_decision(old(self)@),
            valid_transition(old(self)@.state, final(self)@.state),
    {
        if self.state == SamplingState::Stopped {
            self.state = SamplingState::Starting;
            StartDecision::Proceed
        } else {
            StartDecision::AlreadyActive
        }
    }

    /// Second half of `start`: decides from the probe results whether a
    /// session is created. With at least one accessible domain the
    /// session's trackers are armed and the state becomes Running; with
    /// none the state falls back to Stopped and the failure is reported.
    /// Success is returned once the session is armed, before any sample
    /// is taken.
    pub fn complete_start(&mut self, probes: &Vec<DomainProbe>) -> (status: StatusCode)
        requires
            old(self).wf(),
        ensures
            final(self).wf(),
            final(self)@ == complete_start_model(old(self)@, probes@),
            status == complete_start_status(old(self)@, probes@),
            valid_transition(old(self)@.state, final(self)@.state),
    {
        if self.state != SamplingState::Starting {
            return StatusCode::InternalError;
        }
        let mut domains: Vec<DomainId> = Vec::new();
        let mut i: usize = 0;
        while i < probes.len()
            invariant
                i <= probes@.len(),
                domains@ == accessible_domains(probes@.take(i as int)),
            decreases probes@.len() - i,
        {
            proof {
                assert(probes@.take(i + 1).drop_last() =~= probes@.take(i as int));
                assert(probes@.take(i + 1).last() == probes@[i as int]);
            }
            if self.probe_is_accessible(&probes[i]) {
                domains.push(probes[i].domain);
            }
            i += 1;
        }
        proof {
            assert(probes@.take(probes@.len() as int) =~= probes@);
        }
        if domains.len() > 0 {
            let mut trackers: Vec<DomainTracker> = Vec::new();
            let mut j: usize = 0;
            while j < domains.len()
                invariant
                    j <= domains@.len(),
                    trackers@.len() == j,
                    forall|k: int| 0 <= k < j ==> trackers@[k] == fresh_tracker(domains@[k]),
                decreases domains@.len() - j,
            {
                trackers.push(DomainTracker::new(domains[j]));
                j += 1;
            }
            proof {
                assert(trackers@ =~= fresh_trackers(domains@));
            }
            self.trackers = trackers;
            self.state = SamplingState::Running;
            StatusCode::Success
        } else {
            self.state = SamplingState::Stopped;
            if self.any_denied(probes) {
                StatusCode::PermissionDenied
            } else {
                StatusCode::NoDomainsAvailable
            }
        }
    }

    /// Whether one probe found its domain accessible.
    fn probe_is_accessible(&self, probe: &DomainProbe) -> (accessible: bool)
        ensures
            accessible == probe.access is Accessible,
    {
        match probe.access {
            DomainAccess::Accessible => true,
            DomainAccess::PermissionDenied => false,
            DomainAccess::Unsupported => false,
        }
    }

    /// Whether some probe was denied for lack of privilege.
    fn any_denied(&self, probes: &Vec<DomainProbe>) -> (denied: bool)
        ensures
            denied == any_permission_denied(probes@),
    {
        let mut found = false;
        let mut i: usize = 0;
        while i < probes.len()
            invariant
                i <= probes@.len(),
                found == exists|j: int|
                    0 <= j < i && (#[trigger] probes@[j].access) is PermissionDenied,
            decreases probes@.len() - i,
        {
            match probes[i].access {
                DomainAccess::PermissionDenied => {
                    found = true;
                },
                _ => {},
            }
            i += 1;
        }
        found
    }

    /// First half of `stop`: claims the transition to Stopping, or
    /// reports that the controller is already Stopped without touching
    /// anything. The caller signals the sampling loop, waits for it to
    /// exit, and then calls `complete_stop`; the session is kept until
    /// that point.
    pub fn begin_stop(&mut self) -> (decision: StopDecision)
        requires
            old(self).wf(),
        ensures
            final(self).wf(),
            final(self)@ == begin_stop_model(old(self)@),
            decision == begin_stop_decision(old(self)@),
            valid_transition(old(self)@.state, final(self)@.state),
            old(self)@.state is Stopped ==> final(self)@ == old(self)@,
    {
        if self.state == SamplingState::Stopped {
            StopDecision::AlreadyStopped
        } else {
            self.state = SamplingState::Stopping;
            StopDecision::Teardown
        }
    }

    /// Second half of `stop`: releases the session and returns to
    /// Stopped, so that a subsequent `start` sees a fully clean state.
    pub fn complete_stop(&mut self)
        requires
            old(self).wf(),
        ensures
            final(self).wf(),
            final(self)@ == complete_stop_model(old(self)@),
            valid_transition(old(self)@.state, final(self)@.state),
    {
        if self.state == SamplingState::Stopping {
            self.state = SamplingState::Stopped;
            self.trackers = Vec::new();
            proof {
                assert(self@.trackers =~= Seq::<DomainTracker>::empty());
            }
        }
    }

    /// Full `start` for a caller that has already probed the domains:
    /// both halves under one exclusive access.
    pub fn start(&mut self, probes: &Vec<DomainProbe>) -> (status: StatusCode)
        requires
            old(self).wf(),
        ensures
            final(self).wf(),
            final(self)@ == start_model(old(self)@, probes@),
            status == start_status(old(self)@, probes@),
            !(old(self)@.state is Stopped) ==> final(self)@ == old(self)@ && status
                is AlreadyRunning,
            old(self)@.state is Stopped && accessible_domains(probes@).len() > 0 ==> status
                is Success && final(self)@.state is Running,
    {
        match self.begin_start() {
            StartDecision::AlreadyActive => StatusCode::AlreadyRunning,
            StartDecision::Proceed => self.complete_start(probes),
        }
    }

    /// Full `stop`: both halves under one exclusive access. Idempotent:
    /// on an already Stopped controller it changes nothing.
    pub fn stop(&mut self)
        requires
            old(self).wf(),
        ensures
            final(self).wf(),
            final(self)@ == stop_model(old(self)@),
            final(self)@.state is Stopped,
            final(self)@.trackers.len() == 0,
            old(self)@.state is Stopped ==> final(self)@ == old(self)@,
    {
        match self.begin_stop() {
            StopDecision::AlreadyStopped => {},
            StopDecision::Teardown => self.complete_stop(),
        }
    }

    /// One iteration of the sampling loop: feeds each tracker, in order,
    /// the outcome of reading its domain, and returns the energy samples
    /// emitted this iteration. Runs only while the session is live; a
    /// failed read never stops the other domains.
    pub fn sampling_step(&mut self, readings: &Vec<ReadOutcome>) -> (samples: Vec<EnergySample>)
        requires
            old(self).wf(),
            old(self)@.state is Running,
            readings@.len() == old(self)@.trackers.len(),
            forall|i: int|
                0 <= i < readings@.len() ==> read_ok(
                    #[trigger] readings@[i],
                    old(self)@.trackers[i],
                    old(self)@.cfg,
                ),
        ensures
            final(self).wf(),
            final(self)@.state == old(self)@.state,
            final(self)@.cfg == old(self)@.cfg,
            final(self)@.trackers.len() == old(self)@.trackers.len(),
            forall|i: int|
                0 <= i < readings@.len() ==> final(self)@.trackers[i] == tracker_step_spec(
                    old(self)@.trackers[i],
                    #[trigger] readings@[i],
                    old(self)@.cfg,
                ),
            samples@ == collect_samples(
                old(self)@.trackers,
                readings@,
                old(self)@.cfg,
                readings@.len() as int,
            ),
            forall|i: int|
                0 <= i < samples@.len() ==> sample_wf(#[trigger] samples@[i], old(self)@.cfg),
    {
        let ghost m0 = self@;
        let mut samples: Vec<EnergySample> = Vec::new();
        let n = readings.len();
        let mut i: usize = 0;
        while i < n
            invariant
                i <= n,
                n == readings@.len(),
                readings@.len() == m0.trackers.len(),
                self.state == m0.state,
                self.cfg == m0.cfg,
                m0.cfg.wf(),
                self.trackers@.len() == m0.trackers.len(),
                forall|j: int| i <= j < m0.trackers.len() ==> self.trackers@[j] == m0.trackers[j],
                forall|j: int|
                    0 <= j < i ==> self.trackers@[j] == tracker_step_spec(
                        m0.trackers[j],
                        #[trigger] readings@[j],
                        m0.cfg,
                    ),
                forall|j: int|
                    0 <= j < i ==> tracker_wf(#[trigger] self.trackers@[j], m0.cfg),
                forall|j: int|
                    0 <= j < m0.trackers.len() ==> tracker_wf(#[trigger] m0.trackers[j], m0.cfg),
                forall|j: int|
                    0 <= j < readings@.len() ==> read_ok(
                        #[trigger] readings@[j],
                        m0.trackers[j],
                        m0.cfg,
                    ),
                samples@ == collect_samples(m0.trackers, readings@, m0.cfg, i as int),
                forall|j: int|
                    0 <= j < samples@.len() ==> sample_wf(#[trigger] samples@[j], m0.cfg),
            decreases n - i,
        {
            let outcome = readings[i];
            let mut t = self.trackers[i];
            let emitted = t.step(outcome, &self.cfg);
            self.trackers[i] = t;
            match emitted {
                Some(s) => samples.push(s),
                None => {},
            }
            i += 1;
        }
        samples
    }
}

} // verus!
