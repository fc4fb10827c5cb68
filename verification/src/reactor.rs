//! The reactor core's decision logic.
//!
//! A single background thread loops forever: it builds a wait-set from the
//! wake channel's read end followed by every registered handle, blocks in
//! the OS multiplex wait, and hands the set of descriptors reported ready
//! to [`Reactor::dispatch`], which decides what the wake means and updates
//! the table. The blocking call, the pipe and the thread live in the
//! runtime around this crate; everything the loop *decides* is here.

use crate::error::{syscall_outcome, FailureKind, OsError};
use crate::table::{contains_fd, distinct_fds, removes_entry, upserts_entry, Entry, Table};
use vstd::prelude::*;

verus! {

/// What one return from the multiplex wait means.
#[derive(Clone, Copy, Debug, PartialEq, Eq, Structural)]
pub enum Action {
    /// The wake channel signaled: a registration (or a cancellation-driven
    /// wakeup) arrived. Drain one byte and rebuild the wait-set.
    DrainWake,
    /// The entry for `fd` was ready and has been removed from the table:
    /// set its completion flag, then wake the waker kept under `token`.
    Complete { fd: i32, token: u64 },
    /// Nothing relevant was reported; rebuild the wait-set and block
    /// again.
    Rescan,
}

/// Whether some registered handle is among the descriptors reported
/// ready.
pub open spec fn some_entry_ready(s: Seq<Entry>, ready: Seq<i32>) -> bool {
    exists|i: int| 0 <= i < s.len() && ready.contains(s[i].fd)
}

/// Relates the table before and after a completion: the first entry (in
/// table order) whose handle was reported ready is `(fd, token)`, and
/// exactly that entry has been removed.
pub open spec fn completes_first_ready(
    pre: Seq<Entry>,
    ready: Seq<i32>,
    post: Seq<Entry>,
    fd: i32,
    token: u64,
) -> bool {
    exists|i: int|
        0 <= i < pre.len() && pre[i] == (Entry { fd, token }) && ready.contains(fd) && (forall|
            j: int,
        |
            0 <= j < i ==> !ready.contains(pre[j].fd)) && post == pre.remove(i)
}

/// The reactor's state: the registration table and the wake channel's
/// read end. The runtime owns the channel itself and the mutex around
/// this value; one process-wide instance backs every waiter.
pub struct Reactor {
    pub table: Table,
    pub wake_fd: i32,
}

impl Reactor {
    pub open spec fn entries(&self) -> Seq<Entry> {
        self.table@
    }

    /// The wake channel's read end, first in every wait-set.
    pub open spec fn wake(&self) -> i32 {
        self.wake_fd
    }

    pub open spec fn wf(&self) -> bool {
        self.table.wf()
    }

    pub fn new(wake_fd: i32) -> (r: Reactor)
        ensures
            r.entries() == Seq::<Entry>::empty(),
            r.wake() == wake_fd,
            r.wf(),
    {
        Reactor { table: Table::new(), wake_fd }
    }

    pub fn len(&self) -> (n: usize)
        ensures
            n == self.entries().len(),
    {
        self.table.len()
    }

    pub fn contains(&self, fd: i32) -> (r: bool)
        ensures
            r == contains_fd(self.entries(), fd),
    {
        self.table.contains(fd)
    }

    /// Enqueues an entry. The caller writes one byte to the wake channel
    /// *after* this returns — append first, then signal — so the reactor
    /// thread, once woken, is guaranteed to observe the new entry.
    pub fn register(&mut self, fd: i32, token: u64)
        requires
            old(self).wf(),
        ensures
            final(self).wf(),
            final(self).wake() == old(self).wake(),
            upserts_entry(old(self).entries(), final(self).entries(), fd, token),
            contains_fd(final(self).entries(), fd),
    {
        self.table.register(fd, token);
    }

    /// Idempotently removes any entry for `fd` (a no-op if absent), used
    /// for cancellation; hands back the removed entry's token so the
    /// runtime can drop the flag and waker kept under it.
    pub fn unregister(&mut self, fd: i32) -> (removed: Option<u64>)
        requires
            old(self).wf(),
        ensures
            final(self).wf(),
            final(self).wake() == old(self).wake(),
            removes_entry(old(self).entries(), final(self).entries(), fd),
            removed is Some <==> contains_fd(old(self).entries(), fd),
            removed matches Some(t) ==> exists|i: int|
                0 <= i < old(self).entries().len() && old(self).entries()[i] == (Entry {
                    fd,
                    token: t,
                }),
            !contains_fd(final(self).entries(), fd),
    {
        self.table.unregister(fd)
    }

    /// The wait-set for the next blocking multiplex call: the wake
    /// channel's read end first, then every registered handle, in table
    /// order (a fresh snapshot; the surrounding lock is released before
    /// blocking).
    pub fn waitset(&self) -> (w: Vec<i32>)
        ensures
            w@.len() == self.entries().len() + 1,
            w@[0] == self.wake(),
            forall|i: int| 0 <= i < self.entries().len() ==> w@[i + 1] == self.entries()[i].fd,
    {
        let mut w: Vec<i32> = Vec::new();
        w.push(self.wake_fd);
        let mut i: usize = 0;
        while i < self.table.len()
            invariant
                i <= self.entries().len(),
                w@.len() == i + 1,
                w@[0] == self.wake(),
                forall|j: int| 0 <= j < i as int ==> w@[j + 1] == self.entries()[j].fd,
            decreases self.entries().len() - i,
        {
            w.push(self.table.get(i).fd);
            i = i + 1;
        }
        w
    }

    /// Decides what a return from the multiplex wait means, given the
    /// descriptors reported ready. The wake channel takes priority; else
    /// the first registered handle reported ready is completed: its entry
    /// is removed here, and the caller then sets the flag and wakes the
    /// waker kept under the returned token. No ordering across distinct
    /// ready handles in the same wake is promised beyond "the first in
    /// table order is processed"; the loop re-runs at once for the rest.
    #[verifier::loop_isolation(false)]
    pub fn dispatch(&mut self, ready: &Vec<i32>) -> (a: Action)
        requires
            old(self).wf(),
        ensures
            final(self).wf(),
            final(self).wake() == old(self).wake(),
            ready@.contains(old(self).wake()) ==> a == Action::DrainWake && final(self).entries()
                == old(self).entries(),
            !ready@.contains(old(self).wake()) && some_entry_ready(old(self).entries(), ready@)
                ==> (a matches Action::Complete { fd, token } && completes_first_ready(
                old(self).entries(),
                ready@,
                final(self).entries(),
                fd,
                token,
            )),
            !ready@.contains(old(self).wake()) && !some_entry_ready(old(self).entries(), ready@)
                ==> a == Action::Rescan && final(self).entries() == old(self).entries(),
    {
        let ghost pre = self.entries();
        let ghost wfd = self.wake_fd;
        if fd_reported_ready(ready, self.wake_fd) {
            return Action::DrainWake;
        }
        let mut i: usize = 0;
        while i < self.table.len()
            invariant
                self.wf(),
                self.entries() == pre,
                self.wake_fd == wfd,
                i <= pre.len(),
                forall|j: int| 0 <= j < i as int ==> !ready@.contains(pre[j].fd),
            decreases pre.len() - i,
        {
            let e = self.table.get(i);
            if fd_reported_ready(ready, e.fd) {
                let removed = self.table.remove_at(i);
                proof {
                    assert(pre[i as int] == (Entry { fd: removed.fd, token: removed.token }));
                    assert(self.entries() == pre.remove(i as int));
                    assert(completes_first_ready(
                        pre,
                        ready@,
                        self.entries(),
                        removed.fd,
                        removed.token,
                    ));
                }
                return Action::Complete { fd: removed.fd, token: removed.token };
            }
            i = i + 1;
        }
        Action::Rescan
    }
}

/// Interprets the return value of the blocking multiplex wait itself:
/// -1 is an unrecoverable multiplex failure — the caller aborts the
/// process with a diagnostic, by design, since a silently stuck reactor
/// would hang every outstanding waiter; 0 reported nothing, so the loop
/// rebuilds the wait-set and blocks again; a positive count means some
/// descriptors are ready and worth dispatching.
pub fn multiplex_outcome(returned: i32, errno: i32) -> (r: Result<bool, OsError>)
    ensures
        returned == -1 ==> r == Err::<bool, OsError>(
            OsError { kind: FailureKind::MultiplexFailure, code: errno },
        ),
        returned != -1 ==> r == Ok::<bool, OsError>(returned >= 1),
{
    match syscall_outcome(FailureKind::MultiplexFailure, returned, errno) {
        Ok(n) => Ok(n >= 1),
        Err(e) => Err(e),
    }
}

/// Whether `fd` is among the descriptors reported ready.
fn fd_reported_ready(ready: &Vec<i32>, fd: i32) -> (r: bool)
    ensures
        r == ready@.contains(fd),
{
    let mut i: usize = 0;
    while i < ready.len()
        invariant
            i <= ready@.len(),
            forall|j: int| 0 <= j < i as int ==> ready@[j] != fd,
        decreases ready@.len() - i,
    {
        if ready[i] == fd {
            return true;
        }
        i = i + 1;
    }
    false
}

/// Law (completion requires readiness): the reactor completes a handle
/// only if that handle stood registered and the OS reported it ready.
/// Together with the future's own law that it resolves only on an
/// observed flag, no waiter ever completes before its process exited.
pub proof fn lemma_completion_requires_readiness(
    pre: Seq<Entry>,
    ready: Seq<i32>,
    post: Seq<Entry>,
    fd: i32,
    token: u64,
)
    requires
        completes_first_ready(pre, ready, post, fd, token),
    ensures
        ready.contains(fd),
        contains_fd(pre, fd),
{
    let i = choose|i: int|
        0 <= i < pre.len() && pre[i] == (Entry { fd, token }) && ready.contains(fd) && (forall|
            j: int,
        |
            0 <= j < i ==> !ready.contains(pre[j].fd)) && post == pre.remove(i);
    assert(pre[i].fd == fd);
}

/// Law (exactly-once delivery): completing a handle consumes its entry —
/// with distinct handles the table afterwards holds nothing for it, so
/// the reactor can never complete the same registration a second time,
/// and each entry is removed exactly once, by exactly one of the reactor
/// (on readiness) or the cancelling waiter.
pub proof fn lemma_completion_consumes_entry(
    pre: Seq<Entry>,
    ready: Seq<i32>,
    post: Seq<Entry>,
    fd: i32,
    token: u64,
)
    requires
        distinct_fds(pre),
        completes_first_ready(pre, ready, post, fd, token),
    ensures
        !contains_fd(post, fd),
{
    let i = choose|i: int|
        0 <= i < pre.len() && pre[i] == (Entry { fd, token }) && ready.contains(fd) && (forall|
            j: int,
        |
            0 <= j < i ==> !ready.contains(pre[j].fd)) && post == pre.remove(i);
    assert(pre[i].fd == fd);
    assert(removes_entry(pre, post, fd));
    crate::table::lemma_removal_leaves_no_entry(pre, post, fd);
}

/// Law (safe cancellation): once a handle's entry has been removed — a
/// dropped waiter cancelling before completion — a later readiness report
/// for that handle cannot complete it again: whatever the reactor
/// completes out of the remaining table is some other handle.
pub proof fn lemma_cancelled_handle_never_completes(
    s0: Seq<Entry>,
    s1: Seq<Entry>,
    s2: Seq<Entry>,
    ready: Seq<i32>,
    cancelled: i32,
    fd: i32,
    token: u64,
)
    requires
        distinct_fds(s0),
        removes_entry(s0, s1, cancelled),
        completes_first_ready(s1, ready, s2, fd, token),
    ensures
        fd != cancelled,
{
    crate::table::lemma_removal_leaves_no_entry(s0, s1, cancelled);
    lemma_completion_requires_readiness(s1, ready, s2, fd, token);
}

/// Law (liveness of a ready handle): a completion removes exactly one
/// entry, and a completion of some *other* handle leaves a still-ready
/// handle registered. A handle that stays ready is therefore completed
/// after at most as many dispatches as the table holds entries: each
/// round either completes it or strictly shrinks the table around it.
pub proof fn lemma_ready_handle_makes_progress(
    pre: Seq<Entry>,
    ready: Seq<i32>,
    post: Seq<Entry>,
    fd: i32,
    token: u64,
    watched: i32,
)
    requires
        distinct_fds(pre),
        completes_first_ready(pre, ready, post, fd, token),
        contains_fd(pre, watched),
        ready.contains(watched),
    ensures
        post.len() == pre.len() - 1,
        fd != watched ==> contains_fd(post, watched),
{
    let i = choose|i: int|
        0 <= i < pre.len() && pre[i] == (Entry { fd, token }) && ready.contains(fd) && (forall|
            j: int,
        |
            0 <= j < i ==> !ready.contains(pre[j].fd)) && post == pre.remove(i);
    pre.remove_ensures(i);
    if fd != watched {
        let k = choose|k: int| 0 <= k < pre.len() && pre[k].fd == watched;
        assert(k != i);
        if k < i {
            assert(post[k] == pre[k]);
        } else {
            assert(post[k - 1] == pre[k]);
        }
    }
}

/// Law (readiness, not registration order, drives completion): when the
/// wake channel is quiet and exactly one registered handle is reported
/// ready, dispatch completes exactly that handle, wherever it stands in
/// the table. Handles becoming ready one at a time therefore complete in
/// readiness order, independent of the order they were registered in.
pub proof fn lemma_completion_follows_readiness(
    s: Seq<Entry>,
    ready: Seq<i32>,
    post: Seq<Entry>,
    k: int,
    fd: i32,
    token: u64,
)
    requires
        distinct_fds(s),
        0 <= k < s.len(),
        ready.contains(s[k].fd),
        forall|j: int| 0 <= j < s.len() && j != k ==> !ready.contains(s[j].fd),
        completes_first_ready(s, ready, post, fd, token),
    ensures
        fd == s[k].fd,
        token == s[k].token,
        post == s.remove(k),
{
    let i = choose|i: int|
        0 <= i < s.len() && s[i] == (Entry { fd, token }) && ready.contains(fd) && (forall|j: int|
            0 <= j < i ==> !ready.contains(s[j].fd)) && post == s.remove(i);
    assert(ready.contains(s[i].fd));
    assert(i == k);
}

} // verus!
