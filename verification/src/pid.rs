//! The process-handle wrapper and the decision half of the OS-call
//! facade.
//!
//! Opening a handle, sending a signal and querying an exit status are OS
//! calls made by the runtime around this crate; what is decided *about*
//! them — whether a child's id fits the platform's signed process-id
//! type, and what a raw return value means — is here, over plain values.

use crate::error::{syscall_outcome, FailureKind, OsError};
use crate::future::PidFuture;
use vstd::prelude::*;

verus! {

/// Largest value of the platform's signed process-id type.
pub const PID_MAX: u32 = 0x7fff_ffff;

/// A descriptor referring to a process; it becomes readable when the
/// process has exited. Owned by one waiter until consumed.
#[derive(Clone, Copy, Debug, PartialEq, Eq, Structural)]
pub struct PidFd {
    pub fd: i32,
}

impl PidFd {
    /// Validates a child's process id: ids beyond the signed range are
    /// rejected up front as a failed open — no OS call is made and the
    /// background reactor is never started for them.
    pub fn checked_id(id: u32) -> (r: Result<i32, OsError>)
        ensures
            id <= PID_MAX ==> r == Ok::<i32, OsError>(id as i32),
            id > PID_MAX ==> r == Err::<i32, OsError>(
                OsError { kind: FailureKind::HandleOpenFailed, code: 0 },
            ),
    {
        if id <= PID_MAX {
            Ok(id as i32)
        } else {
            Err(OsError { kind: FailureKind::HandleOpenFailed, code: 0 })
        }
    }

    /// Decision half of opening a handle: -1 from the open call is a
    /// failed open carrying the platform error code; any other return
    /// value is the new handle's descriptor.
    pub fn open_result(ret: i32, errno: i32) -> (r: Result<PidFd, OsError>)
        ensures
            ret == -1 ==> r == Err::<PidFd, OsError>(
                OsError { kind: FailureKind::HandleOpenFailed, code: errno },
            ),
            ret != -1 ==> r == Ok::<PidFd, OsError>(PidFd { fd: ret }),
    {
        match syscall_outcome(FailureKind::HandleOpenFailed, ret, errno) {
            Ok(fd) => Ok(PidFd { fd }),
            Err(e) => Err(e),
        }
    }

    /// Decision half of sending a signal through the handle: -1 is a
    /// failed send carrying the platform error code. Independent of the
    /// wait path; never retried.
    pub fn signal_result(ret: i32, errno: i32) -> (r: Result<(), OsError>)
        ensures
            ret == -1 ==> r == Err::<(), OsError>(
                OsError { kind: FailureKind::SignalSendFailed, code: errno },
            ),
            ret != -1 ==> r is Ok,
    {
        match syscall_outcome(FailureKind::SignalSendFailed, ret, errno) {
            Ok(_) => Ok(()),
            Err(e) => Err(e),
        }
    }

    /// Decision half of querying the final exit status: -1 is a failed
    /// query carrying the platform error code; otherwise the raw status
    /// the OS filled in is the result.
    pub fn wait_result(ret: i32, errno: i32, raw_status: i32) -> (r: Result<i32, OsError>)
        ensures
            ret == -1 ==> r == Err::<i32, OsError>(
                OsError { kind: FailureKind::StatusQueryFailed, code: errno },
            ),
            ret != -1 ==> r == Ok::<i32, OsError>(raw_status),
    {
        match syscall_outcome(FailureKind::StatusQueryFailed, ret, errno) {
            Ok(_) => Ok(raw_status),
            Err(e) => Err(e),
        }
    }

    pub fn as_raw_fd(&self) -> (r: i32)
        ensures
            r == self.fd,
    {
        self.fd
    }

    /// Turns the handle into its awaitable completion object, initially
    /// unregistered; the first poll registers it with the reactor.
    pub fn into_future(self) -> (f: PidFuture)
        ensures
            f.fd == self.fd,
            f.state is Unregistered,
    {
        PidFuture::new(self.fd)
    }
}

} // verus!
