//! Status codes reported to foreign callers of `start` and `stop`.

use vstd::prelude::*;

verus! {

/// Outcome of a lifecycle operation as seen by a foreign caller.
///
/// `AlreadyRunning` is a non-fatal, success-adjacent status: a second
/// `start` without an intervening `stop` changes nothing.
#[derive(Clone, Copy, Debug, PartialEq, Eq, Structural)]
pub enum StatusCode {
    /// The session was started and the sampling loop is armed.
    Success,
    /// A session is already active; the call had no effect.
    AlreadyRunning,
    /// Domains exist but none could be read for lack of privilege.
    PermissionDenied,
    /// No power domain is available on this machine.
    NoDomainsAvailable,
    /// An invariant was violated; the session must be fully stopped
    /// and restarted.
    InternalError,
}

impl StatusCode {
    /// The integer that stands for this status at the foreign boundary.
    pub open spec fn code_spec(self) -> i32 {
        match self {
            StatusCode::Success => 0,
            StatusCode::AlreadyRunning => 1,
            StatusCode::PermissionDenied => 2,
            StatusCode::NoDomainsAvailable => 3,
            StatusCode::InternalError => 4,
        }
    }

    /// Converts the status into the integer handed across the foreign
    /// boundary.
    pub fn as_i32(self) -> (code: i32)
        ensures
            code == self.code_spec(),
    {
        match self {
            StatusCode::Success => 0,
            StatusCode::AlreadyRunning => 1,
            StatusCode::PermissionDenied => 2,
            StatusCode::NoDomainsAvailable => 3,
            StatusCode::InternalError => 4,
        }
    }
}

/// Every outcome has an integer code of its own: no two distinct statuses
/// share a code, so no outcome is silently dropped at the boundary.
pub proof fn lemma_status_codes_distinct(a: StatusCode, b: StatusCode)
    ensures
        a.code_spec() == b.code_spec() ==> a == b,
{
}

} // verus!
