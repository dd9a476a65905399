//! Per-RPC cancellation tokens for the daemon side.
//!
//! Long-running daemon-side handlers register an [`AbortToken`] in the
//! registry keyed by their wire `rpc_id` before they start waiting. A
//! later `cancel { rpc_id }` RPC looks the token up and trips it; the
//! handler then stops early and answers "cancelled".
//!
//! The registry is plain data here: registering, cancelling and
//! releasing are decided against its map of entries, and a daemon that
//! shares it between tasks wraps it in a lock and releases each
//! [`AbortGuard`] when the handler finishes. Each registration is told
//! apart by a number the registry hands out, so releasing an old guard
//! never removes a newer registration of the same id.

use std::sync::atomic::AtomicBool;
use std::sync::atomic::Ordering;
use std::sync::Arc;

use tokio::sync::Notify;
use vstd::hash_map::StringHashMap;
use vstd::prelude::*;

use crate::protocol::cancel::RpcId;

verus! {

#[verifier::external_type_specification]
#[verifier::external_body]
pub struct ExNotify(Notify);

/// Calls `tokio::sync::Notify::new`; nothing is stated of the new
/// notifier, which is opaque here.
#[verifier::external_body]
fn new_notify() -> (n: Notify) {
    Notify::new()
}

/// Calls `tokio::sync::Notify::notify_waiters`: wakes every task waiting
/// on `n` at this moment. Nothing about other tasks is stated.
#[verifier::external_body]
fn wake_waiters(n: &Notify) {
    n.notify_waiters()
}

#[derive(Debug, Clone, PartialEq, Eq)]
pub enum AbortRegisterError {
    /// A registration under this id is already live.
    DuplicateRpcId(RpcId),
}

struct AbortInner {
    cancelled: AtomicBool,
    notify: Notify,
}

/// A cancellation flag shared between a handler and the registry.
/// Clones share the flag.
#[derive(Clone)]
pub struct AbortToken {
    inner: Arc<AbortInner>,
}

impl AbortToken {
    /// A token that is not cancelled, with a notifier of its own. The
    /// flag lives in an `AtomicBool` whose value Verus does not track, so
    /// no clause states it.
    pub fn new() -> (r: AbortToken) {
        AbortToken {
            inner: Arc::new(AbortInner { cancelled: AtomicBool::new(false), notify: new_notify() }),
        }
    }

    /// Trip the token: set the flag first, so a waiter that checks the
    /// flag after this sees it, then wake the current waiters.
    pub fn cancel(&self) {
        self.inner.cancelled.store(true, Ordering::SeqCst);
        wake_waiters(&self.inner.notify);
    }

    /// Whether the token has been tripped. Other tasks may trip it at any
    /// time, and the flag's value is not tracked, so nothing is stated
    /// about the answer.
    pub fn is_cancelled(&self) -> (r: bool) {
        self.inner.cancelled.load(Ordering::SeqCst)
    }

    /// The notifier waiters listen on for `cancel`.
    pub fn notifier(&self) -> (r: &Notify)
        ensures
            *r == self.notify(),
    {
        &self.inner.notify
    }

    /// The token's own notifier, which `cancel` wakes and clones share.
    pub closed spec fn notify(&self) -> Notify {
        self.inner.notify
    }
}

/// One live registration: which registration it is, and its token.
struct Registration {
    serial: u64,
    token: AbortToken,
}

/// The live registrations, keyed by RPC id.
pub struct AbortRegistry {
    entries: StringHashMap<Registration>,
    next_serial: u64,
}

/// Proof that a registration is live: its id, which registration it is,
/// and the handler's copy of the token. Hand it back to
/// [`AbortRegistry::release`] when the work ends.
pub struct AbortGuard {
    rpc_id: RpcId,
    serial: u64,
    token: AbortToken,
}

impl AbortGuard {
    /// The token the handler watches.
    pub fn token(&self) -> (r: &AbortToken)
        ensures
            *r == self.registered_token(),
    {
        &self.token
    }

    /// The token this guard's registration holds.
    pub closed spec fn registered_token(&self) -> AbortToken {
        self.token
    }

    /// The RPC id this guard registered.
    pub fn rpc_id(&self) -> (r: &RpcId)
        ensures
            r@ == self@.0,
    {
        &self.rpc_id
    }
}

impl View for AbortGuard {
    /// The RPC id and the registration number.
    type V = (Seq<char>, u64);

    closed spec fn view(&self) -> (Seq<char>, u64) {
        (self.rpc_id@, self.serial)
    }
}

impl View for AbortRegistry {
    /// Each live RPC id with the number of its registration.
    type V = Map<Seq<char>, u64>;

    closed spec fn view(&self) -> Map<Seq<char>, u64> {
        Map::new(
            |k: Seq<char>| self.entries@.contains_key(k),
            |k: Seq<char>| self.entries@[k].serial,
        )
    }
}

impl AbortRegistry {
    /// A hash map holds finitely many entries.
    #[verifier::type_invariant]
    spec fn finitely_many(self) -> bool {
        self.entries@.dom().finite()
    }

    /// The token registered under `id`, which `cancel(id)` trips.
    pub closed spec fn token_of(&self, id: Seq<char>) -> AbortToken {
        self.entries@[id].token
    }

    /// A registry with no registration.
    pub fn new() -> (r: AbortRegistry)
        ensures
            r@ == Map::<Seq<char>, u64>::empty(),
            r@.dom().finite(),
    {
        let r = AbortRegistry { entries: StringHashMap::new(), next_serial: 0 };
        assert(r@ =~= Map::<Seq<char>, u64>::empty());
        r
    }

    /// Number of live registrations.
    pub fn len(&self) -> (r: usize)
        ensures
            r == self@.len(),
            self@.dom().finite(),
    {
        proof {
            use_type_invariant(self);
        }
        assert(self@.dom() =~= self.entries@.dom());
        self.entries.len()
    }

    /// Whether no registration is live.
    pub fn is_empty(&self) -> (r: bool)
        ensures
            r == (self@.len() == 0),
    {
        self.len() == 0
    }

    /// Whether a registration under `rpc_id` is live.
    pub fn contains(&self, rpc_id: &RpcId) -> (r: bool)
        ensures
            r == self@.contains_key(rpc_id@),
    {
        self.entries.contains_key(rpc_id.as_str())
    }

    /// Register a fresh token under `rpc_id`. A live registration under
    /// the same id is kept and the new one refused.
    pub fn register(&mut self, rpc_id: RpcId) -> (r: Result<AbortGuard, AbortRegisterError>)
        ensures
            old(self)@.dom().finite(),
            final(self)@.dom().finite(),
            match r {
                Ok(g) => {
                    &&& !old(self)@.contains_key(rpc_id@)
                    &&& g@.0 == rpc_id@
                    &&& final(self)@ == old(self)@.insert(rpc_id@, g@.1)
                    &&& final(self)@.len() == old(self)@.len() + 1
                    &&& final(self).token_of(rpc_id@) == g.registered_token()
                    &&& forall|k: Seq<char>|
                        old(self)@.contains_key(k) ==> #[trigger] final(self).token_of(k)
                            == old(self).token_of(k)
                },
                Err(AbortRegisterError::DuplicateRpcId(id)) => {
                    &&& old(self)@.contains_key(rpc_id@)
                    &&& id == rpc_id
                    &&& final(self)@ == old(self)@
                    &&& forall|k: Seq<char>|
                        old(self)@.contains_key(k) ==> #[trigger] final(self).token_of(k)
                            == old(self).token_of(k)
                },
            },
    {
        proof {
            use_type_invariant(&*self);
        }
        assert(self@.dom() =~= self.entries@.dom());
        if self.entries.contains_key(rpc_id.as_str()) {
            return Err(AbortRegisterError::DuplicateRpcId(rpc_id));
        }
        let serial = self.next_serial;
        self.next_serial = self.next_serial.wrapping_add(1);
        let token = AbortToken::new();
        let shared = AbortToken { inner: token.inner.clone() };
        let mut entries = StringHashMap::new();
        std::mem::swap(&mut entries, &mut self.entries);
        entries.insert(rpc_id.clone(), Registration { serial, token: shared });
        self.entries = entries;
        assert(self@ =~= old(self)@.insert(rpc_id@, serial));
        assert(self@.dom() =~= self.entries@.dom());
        Ok(AbortGuard { rpc_id, serial, token })
    }

    /// Cancel the token registered under `rpc_id`, if any. Returns
    /// `true` when a token was found and tripped, `false` otherwise.
    pub fn cancel(&self, rpc_id: &RpcId) -> (r: bool)
        ensures
            r == self@.contains_key(rpc_id@),
    {
        match self.entries.get(rpc_id.as_str()) {
            Some(entry) => {
                entry.token.cancel();
                true
            },
            None => false,
        }
    }

    /// End the registration `guard` stands for. Only that registration
    /// is removed: when the id has since been registered again, the
    /// newer registration stays.
    pub fn release(&mut self, guard: &AbortGuard)
        ensures
            old(self)@.dom().finite(),
            final(self)@.dom().finite(),
            forall|k: Seq<char>|
                final(self)@.contains_key(k) ==> #[trigger] final(self).token_of(k) == old(
                    self,
                ).token_of(k),
            if old(self)@.contains_key(guard@.0) && old(self)@[guard@.0] == guard@.1 {
                &&& final(self)@ == old(self)@.remove(guard@.0)
                &&& final(self)@.len() == old(self)@.len() - 1
            } else {
                final(self)@ == old(self)@
            },
    {
        proof {
            use_type_invariant(&*self);
        }
        assert(self@.dom() =~= self.entries@.dom());
        let current = match self.entries.get(guard.rpc_id.as_str()) {
            Some(entry) => entry.serial == guard.serial,
            None => false,
        };
        if current {
            let mut entries = StringHashMap::new();
            std::mem::swap(&mut entries, &mut self.entries);
            entries.remove(guard.rpc_id.as_str());
            self.entries = entries;
            assert(self@ =~= old(self)@.remove(guard@.0));
        }
        assert(self@.dom() =~= self.entries@.dom());
    }
}

/// Registering an unused id and releasing its guard leaves the registry
/// as it was.
pub proof fn lemma_register_then_release(live: Map<Seq<char>, u64>, rpc_id: Seq<char>, serial: u64)
    requires
        !live.contains_key(rpc_id),
    ensures
        live.insert(rpc_id, serial).remove(rpc_id) == live,
{
    assert(live.insert(rpc_id, serial).remove(rpc_id) =~= live);
}

} // verus!
