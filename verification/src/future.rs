//! The per-process completion future, as a state machine over plain
//! values.
//!
//! The surrounding runtime reads the shared completion flag and compares
//! wakers; this module decides, from the machine's state and those two
//! observations, what a poll does: register with the reactor, refresh the
//! stored waker, keep waiting, or resolve. The flag is written by the
//! reactor alone and transitions false to true exactly once, never back.

use vstd::prelude::*;

verus! {

/// Lifecycle of one waiter: unregistered until its first poll, registered
/// while the reactor watches its handle, completed once the flag has been
/// observed true. `Completed` is terminal.
#[derive(Clone, Copy, Debug, PartialEq, Eq, Structural)]
pub enum FutureState {
    Unregistered,
    Registered,
    Completed,
}

/// What one poll asks the runtime to do.
#[derive(Clone, Copy, Debug, PartialEq, Eq, Structural)]
pub enum PollAction {
    /// First poll: enqueue (handle, fresh flag, current waker) with the
    /// reactor and signal the wake channel; stay pending.
    Register,
    /// A different task is polling now: overwrite the stored waker with
    /// the current one; stay pending.
    RefreshWaker,
    /// Already registered and the flag is still false; stay pending.
    KeepWaiting,
    /// The flag has been observed true: remove any leftover registration
    /// (a no-op if the reactor already consumed it) and report the final
    /// exit status.
    Resolve,
}

/// The state after one poll that observed `completed` on the flag.
pub open spec fn step_state(s: FutureState, completed: bool) -> FutureState {
    if completed || s is Completed {
        FutureState::Completed
    } else {
        FutureState::Registered
    }
}

/// The action of one poll that observed `completed` on the flag and
/// `waker_stale` on the waker comparison.
pub open spec fn step_action(s: FutureState, completed: bool, waker_stale: bool) -> PollAction {
    if completed || s is Completed {
        PollAction::Resolve
    } else if s is Unregistered {
        PollAction::Register
    } else if waker_stale {
        PollAction::RefreshWaker
    } else {
        PollAction::KeepWaiting
    }
}

/// One pending wait on a process handle.
pub struct PidFuture {
    /// The watched process handle's descriptor; exclusively owned by this
    /// waiter until it resolves or is dropped.
    pub fd: i32,
    pub state: FutureState,
}

impl PidFuture {
    pub fn new(fd: i32) -> (f: PidFuture)
        ensures
            f.fd == fd,
            f.state is Unregistered,
    {
        PidFuture { fd, state: FutureState::Unregistered }
    }

    /// One poll. `completed` is the value just read from the shared
    /// completion flag; `waker_stale` says whether the stored waker would
    /// fail to wake the task polling now.
    pub fn poll_step(&mut self, completed: bool, waker_stale: bool) -> (a: PollAction)
        ensures
            final(self).fd == old(self).fd,
            final(self).state == step_state(old(self).state, completed),
            a == step_action(old(self).state, completed, waker_stale),
    {
        if completed {
            self.state = FutureState::Completed;
            PollAction::Resolve
        } else {
            match self.state {
                FutureState::Unregistered => {
                    self.state = FutureState::Registered;
                    PollAction::Register
                },
                FutureState::Registered => {
                    if waker_stale {
                        PollAction::RefreshWaker
                    } else {
                        PollAction::KeepWaiting
                    }
                },
                FutureState::Completed => PollAction::Resolve,
            }
        }
    }

    /// Whether a waiter discarded now must remove its table entry: only
    /// when it is registered and the flag has not been observed true — a
    /// result that already arrived is never discarded by an extra removal,
    /// and removal itself is idempotent either way.
    pub fn should_unregister(&self, completed: bool) -> (r: bool)
        ensures
            r == (self.state is Registered && !completed),
    {
        match self.state {
            FutureState::Registered => !completed,
            _ => false,
        }
    }
}

/// Law (single resolution): a waiter registers exactly once and completes
/// exactly once. A poll asks to register precisely on the first poll that
/// has not yet seen the flag; no reachable later state is `Unregistered`
/// again; and once `Completed`, the machine stays `Completed` and never
/// re-registers or re-signals.
pub proof fn lemma_single_resolution(s: FutureState, completed: bool, waker_stale: bool)
    ensures
        step_action(s, completed, waker_stale) == PollAction::Register <==> (!completed
            && s is Unregistered),
        !(step_state(s, completed) is Unregistered),
        step_state(FutureState::Completed, completed) == FutureState::Completed,
        step_action(FutureState::Completed, completed, waker_stale) != PollAction::Register,
{
}

/// The machine's state after a whole run of polls, given the flag value
/// each poll observed (waker staleness never affects the state).
pub open spec fn state_after(s0: FutureState, flags: Seq<bool>) -> FutureState
    decreases flags.len(),
{
    if flags.len() == 0 {
        s0
    } else {
        state_after(step_state(s0, flags[0]), flags.drop_first())
    }
}

/// `Completed` is absorbing over whole runs, not just single steps.
pub proof fn lemma_completed_stays(flags: Seq<bool>)
    ensures
        state_after(FutureState::Completed, flags) == FutureState::Completed,
    decreases flags.len(),
{
    if flags.len() > 0 {
        lemma_completed_stays(flags.drop_first());
    }
}

/// Law (completion over a whole run): starting before completion, the
/// machine ends `Completed` precisely when some poll of the run observed
/// the flag true. With [`lemma_completed_stays`] and the flag's own
/// monotonicity (false to true once, never back), the transition into
/// `Completed` happens exactly once: at the first poll that observes the
/// flag.
pub proof fn lemma_completion_exactly_once(s0: FutureState, flags: Seq<bool>)
    requires
        !(s0 is Completed),
    ensures
        state_after(s0, flags) is Completed <==> flags.contains(true),
    decreases flags.len(),
{
    if flags.len() == 0 {
    } else {
        let rest = flags.drop_first();
        if flags[0] {
            lemma_completed_stays(rest);
            assert(flags.contains(true));
        } else {
            lemma_completion_exactly_once(step_state(s0, false), rest);
            assert(rest.contains(true) ==> flags.contains(true)) by {
                if rest.contains(true) {
                    let j = choose|j: int| 0 <= j < rest.len() && rest[j];
                    assert(flags[j + 1]);
                }
            }
            assert(flags.contains(true) ==> rest.contains(true)) by {
                if flags.contains(true) {
                    let j = choose|j: int| 0 <= j < flags.len() && flags[j];
                    assert(rest[j - 1]);
                }
            }
        }
    }
}

/// Law (no premature readiness): a poll resolves, or moves to `Completed`,
/// only when the completion flag has been observed true — on this poll or
/// on an earlier one. The flag in turn is set only by the reactor, and the
/// reactor sets it only for a handle the OS reported ready, so a waiter
/// never reports completion before its process exited.
pub proof fn lemma_no_premature_completion(s: FutureState, completed: bool, waker_stale: bool)
    ensures
        step_action(s, completed, waker_stale) == PollAction::Resolve ==> (completed
            || s is Completed),
        step_state(s, completed) is Completed ==> (completed || s is Completed),
{
}

} // verus!
