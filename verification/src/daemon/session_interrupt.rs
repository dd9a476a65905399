//! Per-session "pending interrupt" marker.
//!
//! Holds a single-use marker per session indicating that the user has
//! clicked the agent-window mask's stop button. The next
//! browser-input-dispatching call for that session is rejected;
//! passive reads and session-lifecycle calls do not consume the marker.
//!
//! The marker is single-use and has no expiry: it sits in the registry
//! until consumed by an input-dispatching call or until the session is
//! torn down.
//!
//! The registry is plain data here: the methods that change it take
//! `&mut self`, and a daemon that shares it between tasks wraps it in a
//! lock.

use vstd::hash_set::StringHashSet;
use vstd::prelude::*;

use crate::daemon::sessions::SessionId;

verus! {

/// The set of sessions with a pending interrupt.
pub struct SessionInterruptRegistry {
    inner: StringHashSet,
}

impl View for SessionInterruptRegistry {
    type V = Set<Seq<char>>;

    closed spec fn view(&self) -> Set<Seq<char>> {
        self.inner@
    }
}

impl SessionInterruptRegistry {
    /// A registry with no pending interrupt.
    pub fn new() -> (r: SessionInterruptRegistry)
        ensures
            r@ == Set::<Seq<char>>::empty(),
    {
        SessionInterruptRegistry { inner: StringHashSet::new() }
    }

    /// Number of sessions with a pending interrupt.
    pub fn len(&self) -> (r: usize)
        ensures
            r == self@.len(),
    {
        self.inner.len()
    }

    /// Mark `sid` as having a pending interrupt. Idempotent — repeated
    /// marks are a no-op (the marker is a single-use flag, not a
    /// counter).
    pub fn mark(&mut self, sid: &SessionId)
        ensures
            final(self)@ == old(self)@.insert(sid@),
    {
        self.inner.insert(sid.0.clone());
    }

    /// Whether `sid` currently has a pending interrupt marker.
    pub fn is_pending(&self, sid: &SessionId) -> (r: bool)
        ensures
            r == self@.contains(sid@),
    {
        self.inner.contains(sid.0.as_str())
    }

    /// Probe + consume. If `sid` has a pending interrupt, remove it and
    /// return `true`. Otherwise return `false` without modifying the
    /// registry.
    pub fn try_consume(&mut self, sid: &SessionId) -> (r: bool)
        ensures
            r == old(self)@.contains(sid@),
            final(self)@ == old(self)@.remove(sid@),
            !r ==> final(self)@ == old(self)@,
    {
        let r = self.inner.remove(sid.0.as_str());
        proof {
            if !r {
                assert(self@ =~= old(self)@);
            }
        }
        r
    }

    /// Drop any pending entry for `sid`. Every session-teardown path
    /// calls this so a session torn down while a signal was hot does not
    /// leak its entry.
    pub fn drop_session(&mut self, sid: &SessionId)
        ensures
            final(self)@ == old(self)@.remove(sid@),
    {
        self.inner.remove(sid.0.as_str());
    }
}

/// Marking is idempotent: marking a session twice leaves the same
/// registry as marking it once.
pub proof fn lemma_mark_is_idempotent(pending: Set<Seq<char>>, sid: Seq<char>)
    ensures
        pending.insert(sid).insert(sid) == pending.insert(sid),
{
    assert(pending.insert(sid).insert(sid) =~= pending.insert(sid));
}

/// A marker is single-use: after a mark, the first consume succeeds and
/// a second one fails, as does `is_pending` in between.
pub proof fn lemma_consume_is_single_use(pending: Set<Seq<char>>, sid: Seq<char>)
    ensures
        pending.insert(sid).contains(sid),
        !pending.insert(sid).remove(sid).contains(sid),
{
}

/// Dropping a session clears its marker: a consume right after a drop
/// fails, whether or not the session was marked.
pub proof fn lemma_drop_clears_marker(pending: Set<Seq<char>>, sid: Seq<char>)
    ensures
        !pending.insert(sid).remove(sid).contains(sid),
        !pending.remove(sid).contains(sid),
{
}

/// Sessions are independent: marking, consuming or dropping one session
/// leaves every other session's marker as it was.
pub proof fn lemma_sessions_are_independent(
    pending: Set<Seq<char>>,
    sid: Seq<char>,
    other: Seq<char>,
)
    requires
        sid != other,
    ensures
        pending.insert(sid).contains(other) == pending.contains(other),
        pending.remove(sid).contains(other) == pending.contains(other),
{
}

} // verus!
