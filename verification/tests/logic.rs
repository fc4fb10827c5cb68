use pidfd::error::{syscall_outcome, FailureKind, OsError};
use pidfd::future::{FutureState, PidFuture, PollAction};
use pidfd::pid::{PidFd, PID_MAX};
use pidfd::reactor::{multiplex_outcome, Action, Reactor};
use pidfd::table::{Entry, Table};

#[test]
fn checked_id_accepts_small_ids() {
    assert_eq!(PidFd::checked_id(0), Ok(0));
    assert_eq!(PidFd::checked_id(1), Ok(1));
    assert_eq!(PidFd::checked_id(4242), Ok(4242));
}

#[test]
fn checked_id_accepts_largest_pid() {
    assert_eq!(PidFd::checked_id(PID_MAX), Ok(i32::MAX));
}

#[test]
fn checked_id_rejects_out_of_range_ids() {
    let expected = Err(OsError {
        kind: FailureKind::HandleOpenFailed,
        code: 0,
    });
    assert_eq!(PidFd::checked_id(PID_MAX + 1), expected);
    assert_eq!(PidFd::checked_id(u32::MAX), expected);
}

#[test]
fn syscall_outcome_wraps_failures_with_errno() {
    assert_eq!(
        syscall_outcome(FailureKind::MultiplexFailure, -1, 4),
        Err(OsError {
            kind: FailureKind::MultiplexFailure,
            code: 4,
        })
    );
    assert_eq!(syscall_outcome(FailureKind::MultiplexFailure, 0, 4), Ok(0));
    assert_eq!(syscall_outcome(FailureKind::MultiplexFailure, 17, 0), Ok(17));
}

#[test]
fn os_error_reports_kind_and_code() {
    let e = OsError::new(FailureKind::SignalSendFailed, 13);
    assert_eq!(e.kind(), FailureKind::SignalSendFailed);
    assert_eq!(e.code(), 13);
}

#[test]
fn open_result_carries_the_descriptor_or_the_code() {
    match PidFd::open_result(5, 0) {
        Ok(fd) => assert_eq!(fd.as_raw_fd(), 5),
        Err(_) => panic!("open_result(5, 0) must succeed"),
    }
    assert_eq!(
        PidFd::open_result(-1, 22),
        Err(OsError {
            kind: FailureKind::HandleOpenFailed,
            code: 22,
        })
    );
}

#[test]
fn signal_result_is_independent_of_the_wait_path() {
    assert_eq!(PidFd::signal_result(0, 0), Ok(()));
    assert_eq!(
        PidFd::signal_result(-1, 3),
        Err(OsError {
            kind: FailureKind::SignalSendFailed,
            code: 3,
        })
    );
}

#[test]
fn wait_result_hands_back_the_raw_status() {
    assert_eq!(PidFd::wait_result(0, 0, 0), Ok(0));
    assert_eq!(PidFd::wait_result(1, 0, 9), Ok(9));
    assert_eq!(
        PidFd::wait_result(-1, 10, 0),
        Err(OsError {
            kind: FailureKind::StatusQueryFailed,
            code: 10,
        })
    );
}

#[test]
fn table_registers_and_looks_up_entries() {
    let mut t = Table::new();
    assert_eq!(t.len(), 0);
    assert!(!t.contains(3));
    t.register(3, 7);
    t.register(4, 8);
    assert_eq!(t.len(), 2);
    assert!(t.contains(3));
    assert!(t.contains(4));
    assert_eq!(t.get(0), Entry { fd: 3, token: 7 });
    assert_eq!(t.get(1), Entry { fd: 4, token: 8 });
}

#[test]
fn table_overwrites_token_on_repeated_registration() {
    let mut t = Table::new();
    t.register(3, 7);
    t.register(3, 9);
    assert_eq!(t.len(), 1);
    assert_eq!(t.get(0), Entry { fd: 3, token: 9 });
}

#[test]
fn table_unregister_returns_the_token() {
    let mut t = Table::new();
    t.register(3, 7);
    t.register(4, 8);
    assert_eq!(t.unregister(3), Some(7));
    assert_eq!(t.len(), 1);
    assert_eq!(t.get(0), Entry { fd: 4, token: 8 });
}

#[test]
fn table_unregister_of_absent_handle_is_a_noop() {
    let mut t = Table::new();
    t.register(4, 8);
    assert_eq!(t.unregister(3), None);
    assert_eq!(t.len(), 1);
    assert_eq!(t.get(0), Entry { fd: 4, token: 8 });
}

#[test]
fn table_unregister_twice_is_a_noop_both_times() {
    let mut t = Table::new();
    t.register(3, 7);
    assert_eq!(t.unregister(3), Some(7));
    assert_eq!(t.unregister(3), None);
    assert_eq!(t.len(), 0);
    assert_eq!(t.unregister(3), None);
}

#[test]
fn reactor_waitset_starts_with_the_wake_end() {
    let mut r = Reactor::new(9);
    r.register(3, 0);
    r.register(4, 1);
    assert_eq!(r.waitset(), vec![9, 3, 4]);
}

#[test]
fn reactor_drains_the_wake_channel_first() {
    let mut r = Reactor::new(9);
    r.register(3, 0);
    // Even with a handle ready, the signaled wake channel wins; the table
    // keeps the entry for the next scan.
    assert_eq!(r.dispatch(&vec![9, 3]), Action::DrainWake);
    assert_eq!(r.len(), 1);
    assert!(r.contains(3));
}

#[test]
fn reactor_completes_the_first_ready_entry() {
    let mut r = Reactor::new(9);
    r.register(3, 0);
    r.register(4, 1);
    r.register(5, 2);
    assert_eq!(r.dispatch(&vec![4, 5]), Action::Complete { fd: 4, token: 1 });
    assert_eq!(r.len(), 2);
    assert!(!r.contains(4));
    assert!(r.contains(3));
    assert!(r.contains(5));
}

#[test]
fn reactor_rescans_when_nothing_relevant_is_ready() {
    let mut r = Reactor::new(9);
    r.register(3, 0);
    assert_eq!(r.dispatch(&vec![]), Action::Rescan);
    assert_eq!(r.dispatch(&vec![77]), Action::Rescan);
    assert_eq!(r.len(), 1);
}

#[test]
fn cancelled_handle_is_never_completed() {
    let mut r = Reactor::new(9);
    r.register(3, 0);
    r.register(4, 1);
    // The waiter for handle 3 is dropped before completion.
    assert_eq!(r.unregister(3), Some(0));
    // A later synthetic readiness report for 3 completes nothing.
    assert_eq!(r.dispatch(&vec![3]), Action::Rescan);
    // With another handle ready too, only that one is completed.
    assert_eq!(r.dispatch(&vec![3, 4]), Action::Complete { fd: 4, token: 1 });
    assert_eq!(r.len(), 0);
}

#[test]
fn unregister_after_the_reactor_consumed_the_entry_is_a_noop() {
    let mut r = Reactor::new(9);
    r.register(3, 0);
    assert_eq!(r.dispatch(&vec![3]), Action::Complete { fd: 3, token: 0 });
    // The waiter is dropped afterwards and cancels; both calls find nothing.
    assert_eq!(r.unregister(3), None);
    assert_eq!(r.unregister(3), None);
    assert_eq!(r.len(), 0);
}

#[test]
fn five_waits_complete_in_readiness_order() {
    // Five handles registered in spawn order; their processes exit in the
    // reverse order (the last-spawned sleeps shortest). Completion follows
    // readiness, not registration order.
    let mut r = Reactor::new(9);
    for (i, fd) in [101, 102, 103, 104, 105].iter().enumerate() {
        r.register(*fd, i as u64);
    }
    let mut completed = Vec::new();
    for fd in [105, 104, 103, 102, 101] {
        match r.dispatch(&vec![fd]) {
            Action::Complete { fd, .. } => completed.push(fd),
            other => panic!("expected a completion, got {:?}", other),
        }
    }
    assert_eq!(completed, vec![105, 104, 103, 102, 101]);
    assert_eq!(r.len(), 0);
}

#[test]
fn future_registers_on_first_poll_only() {
    let mut f = PidFuture::new(3);
    assert_eq!(f.state, FutureState::Unregistered);
    assert_eq!(f.poll_step(false, false), PollAction::Register);
    assert_eq!(f.state, FutureState::Registered);
    assert_eq!(f.poll_step(false, false), PollAction::KeepWaiting);
    assert_eq!(f.state, FutureState::Registered);
}

#[test]
fn future_refreshes_a_stale_waker() {
    let mut f = PidFuture::new(3);
    f.poll_step(false, false);
    // A different task polls now: the stored waker must be replaced, or
    // the new poller could wait forever.
    assert_eq!(f.poll_step(false, true), PollAction::RefreshWaker);
    assert_eq!(f.state, FutureState::Registered);
}

#[test]
fn future_resolves_once_the_flag_is_observed() {
    let mut f = PidFuture::new(3);
    assert_eq!(f.poll_step(false, false), PollAction::Register);
    assert_eq!(f.poll_step(true, false), PollAction::Resolve);
    assert_eq!(f.state, FutureState::Completed);
}

#[test]
fn future_never_reregisters_after_completion() {
    let mut f = PidFuture::new(3);
    f.poll_step(false, false);
    f.poll_step(true, false);
    // Polling a completed waiter keeps resolving; it never registers or
    // signals again.
    assert_eq!(f.poll_step(true, false), PollAction::Resolve);
    assert_eq!(f.poll_step(true, true), PollAction::Resolve);
    assert_eq!(f.state, FutureState::Completed);
}

#[test]
fn future_resolves_without_registering_when_flag_is_already_set() {
    // The reactor may set the flag between polls of other machinery; a
    // first poll that already sees it resolves at once.
    let mut f = PidFuture::new(3);
    assert_eq!(f.poll_step(true, false), PollAction::Resolve);
    assert_eq!(f.state, FutureState::Completed);
}

#[test]
fn dropped_future_unregisters_only_mid_flight() {
    let mut f = PidFuture::new(3);
    assert!(!f.should_unregister(false));  // never registered
    f.poll_step(false, false);
    assert!(f.should_unregister(false));   // registered, flag unseen
    assert!(!f.should_unregister(true));   // result already arrived
    let mut g = PidFuture::new(4);
    g.poll_step(false, false);
    g.poll_step(true, false);
    assert!(!g.should_unregister(true));   // completed
}

#[test]
fn into_future_starts_unregistered() {
    let fd = match PidFd::open_result(7, 0) {
        Ok(fd) => fd,
        Err(_) => panic!("open_result(7, 0) must succeed"),
    };
    assert_eq!(fd.as_raw_fd(), 7);
    let f = fd.into_future();
    assert_eq!(f.fd, 7);
    assert_eq!(f.state, FutureState::Unregistered);
}

#[test]
fn multiplex_outcome_is_fatal_only_on_failure() {
    assert_eq!(
        multiplex_outcome(-1, 9),
        Err(OsError {
            kind: FailureKind::MultiplexFailure,
            code: 9,
        })
    );
    assert_eq!(multiplex_outcome(0, 0), Ok(false));
    assert_eq!(multiplex_outcome(1, 0), Ok(true));
    assert_eq!(multiplex_outcome(3, 0), Ok(true));
}
