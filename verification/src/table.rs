//! The registration table: an ordered collection of (handle, token)
//! entries, one per pending waiter.
//!
//! A token stands for the completion flag and waker that the surrounding
//! runtime keeps for the entry; the table itself holds only plain values.
//! A given handle appears at most once: registering an already-present
//! handle overwrites its token (the stored waker is replaced, never
//! accumulated), and removal is idempotent, so a cancellation racing with
//! the reactor's own removal of the same entry is harmless.

use vstd::prelude::*;

verus! {

/// One registration: a process handle and the token under which the
/// runtime keeps the entry's completion flag and waker.
#[derive(Clone, Copy, Debug, PartialEq, Eq, Structural)]
pub struct Entry {
    pub fd: i32,
    pub token: u64,
}

/// Whether some entry of `s` is for handle `fd`.
pub open spec fn contains_fd(s: Seq<Entry>, fd: i32) -> bool {
    exists|i: int| 0 <= i < s.len() && s[i].fd == fd
}

/// Every handle appears at most once.
pub open spec fn distinct_fds(s: Seq<Entry>) -> bool {
    forall|i: int, j: int| 0 <= i < j < s.len() ==> s[i].fd != s[j].fd
}

/// Relates a table before and after removing handle `fd`: the entry for
/// `fd` is gone and everything else is untouched; with no entry for `fd`
/// the table is unchanged.
pub open spec fn removes_entry(pre: Seq<Entry>, post: Seq<Entry>, fd: i32) -> bool {
    if contains_fd(pre, fd) {
        exists|i: int| 0 <= i < pre.len() && pre[i].fd == fd && post == pre.remove(i)
    } else {
        post == pre
    }
}

/// Relates a table before and after registering `(fd, token)`: a fresh
/// handle is appended; a handle already present has its token overwritten
/// in place.
pub open spec fn upserts_entry(pre: Seq<Entry>, post: Seq<Entry>, fd: i32, token: u64) -> bool {
    if contains_fd(pre, fd) {
        exists|i: int|
            0 <= i < pre.len() && pre[i].fd == fd && post == pre.update(
                i,
                Entry { fd, token },
            )
    } else {
        post == pre.push(Entry { fd, token })
    }
}

/// The mutex-guarded registration table (the lock lives in the runtime
/// around this crate; the table itself is plain data).
pub struct Table {
    pub entries: Vec<Entry>,
}

impl View for Table {
    type V = Seq<Entry>;

    open spec fn view(&self) -> Seq<Entry> {
        self.entries@
    }
}

impl Table {
    /// Well-formed: each handle registered at most once.
    pub open spec fn wf(&self) -> bool {
        distinct_fds(self@)
    }

    pub fn new() -> (t: Table)
        ensures
            t@ == Seq::<Entry>::empty(),
            t.wf(),
    {
        Table { entries: Vec::new() }
    }

    pub fn len(&self) -> (n: usize)
        ensures
            n == self@.len(),
    {
        self.entries.len()
    }

    pub fn get(&self, i: usize) -> (e: Entry)
        requires
            i < self@.len(),
        ensures
            e == self@[i as int],
    {
        self.entries[i]
    }

    /// Index of the first entry for `fd`, if any.
    fn index_of(&self, fd: i32) -> (r: Option<usize>)
        ensures
            r matches Some(i) ==> i < self@.len() && self@[i as int].fd == fd && (forall|j: int|
                0 <= j < i as int ==> self@[j].fd != fd),
            r is None ==> !contains_fd(self@, fd),
    {
        let mut i: usize = 0;
        while i < self.entries.len()
            invariant
                i <= self@.len(),
                forall|j: int| 0 <= j < i as int ==> self@[j].fd != fd,
            decreases self@.len() - i,
        {
            if self.entries[i].fd == fd {
                return Some(i);
            }
            i = i + 1;
        }
        None
    }

    pub fn contains(&self, fd: i32) -> (r: bool)
        ensures
            r == contains_fd(self@, fd),
    {
        match self.index_of(fd) {
            Some(_) => true,
            None => false,
        }
    }

    /// Registers `(fd, token)`: appends a fresh handle, or overwrites the
    /// token of an already-present one (the waker is replaced, never
    /// accumulated). The caller signals the wake channel *after* this
    /// returns, so the reactor, once woken, observes the new entry.
    pub fn register(&mut self, fd: i32, token: u64)
        requires
            old(self).wf(),
        ensures
            final(self).wf(),
            upserts_entry(old(self)@, final(self)@, fd, token),
            contains_fd(final(self)@, fd),
    {
        let ghost pre = self@;
        match self.index_of(fd) {
            Some(i) => {
                self.entries[i] = Entry { fd, token };
                proof {
                    assert(self@ == pre.update(i as int, Entry { fd, token }));
                    assert(self@[i as int].fd == fd);
                    assert forall|a: int, b: int| 0 <= a < b < self@.len() implies self@[a].fd
                        != self@[b].fd by {
                        assert(self@[a].fd == pre[a].fd);
                        assert(self@[b].fd == pre[b].fd);
                    }
                }
            },
            None => {
                self.entries.push(Entry { fd, token });
                proof {
                    assert(self@[pre.len() as int].fd == fd);
                    assert forall|a: int, b: int| 0 <= a < b < self@.len() implies self@[a].fd
                        != self@[b].fd by {
                        if b < pre.len() {
                        } else {
                            assert(self@[b].fd == fd);
                            assert(self@[a].fd == pre[a].fd);
                        }
                    }
                }
            },
        }
    }

    /// Removes the entry for `fd`, handing back its token; a no-op when no
    /// entry is present (already consumed by the reactor, or never
    /// registered), so removal is safe to attempt at any time.
    pub fn unregister(&mut self, fd: i32) -> (removed: Option<u64>)
        requires
            old(self).wf(),
        ensures
            final(self).wf(),
            removes_entry(old(self)@, final(self)@, fd),
            removed is Some <==> contains_fd(old(self)@, fd),
            removed matches Some(t) ==> exists|i: int|
                0 <= i < old(self)@.len() && old(self)@[i] == (Entry { fd, token: t }),
            !contains_fd(final(self)@, fd),
    {
        let ghost pre = self@;
        match self.index_of(fd) {
            Some(i) => {
                let e = self.entries.remove(i);
                proof {
                    lemma_remove_keeps_distinct(pre, i as int);
                    lemma_removed_fd_gone(pre, i as int, fd);
                    assert(removes_entry(pre, self@, fd));
                }
                Some(e.token)
            },
            None => None,
        }
    }

    /// Removes the entry at position `i` (the reactor's removal of a ready
    /// entry it has just located).
    pub(crate) fn remove_at(&mut self, i: usize) -> (e: Entry)
        requires
            old(self).wf(),
            i < old(self)@.len(),
        ensures
            final(self).wf(),
            e == old(self)@[i as int],
            final(self)@ == old(self)@.remove(i as int),
    {
        let ghost pre = self@;
        let e = self.entries.remove(i);
        proof {
            lemma_remove_keeps_distinct(pre, i as int);
        }
        e
    }
}

/// Removing one entry keeps the remaining handles distinct.
proof fn lemma_remove_keeps_distinct(s: Seq<Entry>, i: int)
    requires
        distinct_fds(s),
        0 <= i < s.len(),
    ensures
        distinct_fds(s.remove(i)),
{
    s.remove_ensures(i);
    let post = s.remove(i);
    assert forall|a: int, b: int| 0 <= a < b < post.len() implies post[a].fd != post[b].fd by {
        let a0: int = if a < i {
            a
        } else {
            a + 1
        };
        let b0: int = if b < i {
            b
        } else {
            b + 1
        };
        assert(post[a] == s[a0]);
        assert(post[b] == s[b0]);
    }
}

/// When handles are distinct, removing the one entry for `fd` leaves no
/// entry for `fd` behind.
proof fn lemma_removed_fd_gone(s: Seq<Entry>, i: int, fd: i32)
    requires
        distinct_fds(s),
        0 <= i < s.len(),
        s[i].fd == fd,
    ensures
        !contains_fd(s.remove(i), fd),
{
    s.remove_ensures(i);
    let post = s.remove(i);
    assert forall|k: int| 0 <= k < post.len() implies post[k].fd != fd by {
        if k < i {
            assert(post[k] == s[k]);
        } else {
            assert(post[k] == s[k + 1]);
        }
    }
}

/// With distinct handles, a removal leaves no entry for the removed
/// handle behind.
pub proof fn lemma_removal_leaves_no_entry(s0: Seq<Entry>, s1: Seq<Entry>, fd: i32)
    requires
        distinct_fds(s0),
        removes_entry(s0, s1, fd),
    ensures
        !contains_fd(s1, fd),
{
    if contains_fd(s0, fd) {
        let i = choose|i: int| 0 <= i < s0.len() && s0[i].fd == fd && s1 == s0.remove(i);
        lemma_removed_fd_gone(s0, i, fd);
    }
}

/// Law (idempotent removal): once a handle's entry has been removed —
/// whether by the reactor on readiness or by a cancelling future — a second
/// removal of the same handle finds nothing and changes nothing. This is
/// what makes the cancellation race against the reactor harmless.
pub proof fn lemma_unregister_idempotent(s0: Seq<Entry>, s1: Seq<Entry>, s2: Seq<Entry>, fd: i32)
    requires
        distinct_fds(s0),
        removes_entry(s0, s1, fd),
        removes_entry(s1, s2, fd),
    ensures
        !contains_fd(s1, fd),
        s2 == s1,
{
    lemma_removal_leaves_no_entry(s0, s1, fd);
}

} // verus!
