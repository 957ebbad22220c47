//! The library's general guarantees, stated and proved once over the
//! controller's mathematical model.
//!
//! Concurrent callers are serialized by the controller's exclusive-access
//! discipline, so every observable history is a sequence of the model
//! steps below; the lemmas therefore speak for arbitrary interleavings of
//! `start` and `stop`.

use vstd::prelude::*;
use crate::controller::{
    accessible_domains, any_permission_denied, begin_start_model, begin_stop_model,
    complete_start_model, complete_stop_model, fresh_trackers, initial_model, model_wf,
    start_model, start_status, stop_model, valid_transition, ControllerModel, DomainProbe,
};
use crate::tracker::{fresh_tracker, tracker_wf};

verus! {

/// One serialized lifecycle operation on the controller.
pub enum ControlEvent {
    /// `begin_start`: a caller asked for a session.
    StartRequested,
    /// `complete_start` with the given probe results.
    StartCompleted {
        /// The probe results the start decided on.
        probes: Seq<DomainProbe>,
    },
    /// `begin_stop`: a caller asked for teardown.
    StopRequested,
    /// `complete_stop`: the sampling loop has exited.
    StopCompleted,
}

/// The model after one serialized operation.
pub open spec fn step_model(m: ControllerModel, event: ControlEvent) -> ControllerModel {
    match event {
        ControlEvent::StartRequested => begin_start_model(m),
        ControlEvent::StartCompleted { probes } => complete_start_model(m, probes),
        ControlEvent::StopRequested => begin_stop_model(m),
        ControlEvent::StopCompleted => complete_stop_model(m),
    }
}

/// The model after a whole sequence of serialized operations.
pub open spec fn run_model(m: ControllerModel, events: Seq<ControlEvent>) -> ControllerModel
    decreases events.len(),
{
    if events.len() == 0 {
        m
    } else {
        run_model(step_model(m, events[0]), events.drop_first())
    }
}

/// Every serialized lifecycle operation preserves the controller
/// invariant and moves the state along an edge of the lifecycle diagram.
/// Since operations serialize under exclusive access, these edges are
/// exactly the transitions any caller can ever observe: no caller sees
/// an intermediate or skipped state.
pub proof fn lemma_step_valid(m: ControllerModel, event: ControlEvent)
    requires
        model_wf(m),
    ensures
        model_wf(step_model(m, event)),
        valid_transition(m.state, step_model(m, event).state),
{
    match event {
        ControlEvent::StartCompleted { probes } => {
            if m.state is Starting {
                let domains = accessible_domains(probes);
                if domains.len() > 0 {
                    assert forall|i: int|
                        0 <= i < fresh_trackers(domains).len() implies tracker_wf(
                        #[trigger] fresh_trackers(domains)[i],
                        m.cfg,
                    ) by {
                        assert(fresh_trackers(domains)[i] == fresh_tracker(domains[i]));
                    }
                }
            }
        },
        _ => {},
    }
}

/// For every sequence of serialized `start`/`stop` operations, from any
/// well-formed controller, the invariant holds throughout: the state
/// always lies on a valid path through
/// {Stopped, Starting, Running, Stopping}.
pub proof fn lemma_run_preserves_wf(m: ControllerModel, events: Seq<ControlEvent>)
    requires
        model_wf(m),
    ensures
        model_wf(run_model(m, events)),
    decreases events.len(),
{
    if events.len() > 0 {
        lemma_step_valid(m, events[0]);
        lemma_run_preserves_wf(step_model(m, events[0]), events.drop_first());
    }
}

/// A second `start` with no intervening `stop` reports the session as
/// already active and leaves the controller untouched: no second
/// sampling loop is ever armed.
pub proof fn lemma_second_start_already_active(
    m: ControllerModel,
    probes1: Seq<DomainProbe>,
    probes2: Seq<DomainProbe>,
)
    requires
        model_wf(m),
        m.state is Stopped,
        accessible_domains(probes1).len() > 0,
    ensures
        start_status(m, probes1) is Success,
        start_model(m, probes1).state is Running,
        start_status(start_model(m, probes1), probes2) is AlreadyRunning,
        start_model(start_model(m, probes1), probes2) == start_model(m, probes1),
{
}

/// `stop` on a controller that is already Stopped is a no-op: the model
/// comes back unchanged, so the call can return immediately.
pub proof fn lemma_stop_when_stopped_is_noop(m: ControllerModel)
    requires
        model_wf(m),
        m.state is Stopped,
    ensures
        stop_model(m) == m,
{
}

/// After `stop` the controller holds no session: it is exactly the
/// clean initial state again, so a subsequent `start` finds nothing left
/// over. Since a sampling step runs only on a Running controller, no
/// sample can be emitted once `stop` has returned; the caller of `stop`
/// blocks until the sampling loop has exited before completing it,
/// which carries this guarantee to real time at the boundary.
pub proof fn lemma_no_session_after_stop(m: ControllerModel)
    requires
        model_wf(m),
    ensures
        stop_model(m).state is Stopped,
        stop_model(m).trackers.len() == 0,
        model_wf(stop_model(m)),
        stop_model(m) == initial_model(m.cfg),
{
    assert(stop_model(m) =~= initial_model(m.cfg));
}

/// `start` on a machine with no accessible domain fails fast: no session
/// is created, the state remains Stopped, and the status distinguishes a
/// privilege problem (some domain found but denied) from a machine
/// without usable domains.
pub proof fn lemma_start_without_access(m: ControllerModel, probes: Seq<DomainProbe>)
    requires
        model_wf(m),
        m.state is Stopped,
        accessible_domains(probes).len() == 0,
    ensures
        start_model(m, probes) == m,
        start_model(m, probes).state is Stopped,
        any_permission_denied(probes) ==> start_status(m, probes) is PermissionDenied,
        !any_permission_denied(probes) ==> start_status(m, probes) is NoDomainsAvailable,
{
    assert(start_model(m, probes) =~= m);
}

} // verus!
