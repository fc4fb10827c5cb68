//! Error model for the OS-call facade.
//!
//! Every OS-boundary failure is wrapped into a generic error carrying the
//! platform error code, tagged with the operation that failed. Nothing is
//! retried: kernel-reported failures in this domain are not transient.

use vstd::prelude::*;

verus! {

/// The failing operation behind an [`OsError`].
#[derive(Clone, Copy, Debug, PartialEq, Eq, Structural)]
pub enum FailureKind {
    /// Opening a process handle failed: the id was out of range or the OS
    /// declined to create the handle.
    HandleOpenFailed,
    /// The reactor's blocking multiplex wait itself failed; fatal.
    MultiplexFailure,
    /// Sending a signal through a process handle failed.
    SignalSendFailed,
    /// Querying the final exit status failed after readiness was observed.
    StatusQueryFailed,
}

/// A generic OS-boundary failure: the operation that failed and the
/// platform error code reported for it.
#[derive(Clone, Copy, Debug, PartialEq, Eq, Structural)]
pub struct OsError {
    pub kind: FailureKind,
    pub code: i32,
}

impl OsError {
    pub fn new(kind: FailureKind, code: i32) -> (r: OsError)
        ensures
            r == (OsError { kind, code }),
    {
        OsError { kind, code }
    }

    pub fn kind(&self) -> (r: FailureKind)
        ensures
            r == self.kind,
    {
        self.kind
    }

    pub fn code(&self) -> (r: i32)
        ensures
            r == self.code,
    {
        self.code
    }
}

/// Interprets the return value of an OS call that signals failure by
/// returning -1 and leaving the cause in the platform error code: any other
/// return value is the call's successful result.
pub fn syscall_outcome(kind: FailureKind, ret: i32, errno: i32) -> (r: Result<i32, OsError>)
    ensures
        ret == -1 ==> r == Err::<i32, OsError>(OsError { kind, code: errno }),
        ret != -1 ==> r == Ok::<i32, OsError>(ret),
{
    if ret == -1 {
        Err(OsError { kind, code: errno })
    } else {
        Ok(ret)
    }
}

} // verus!
