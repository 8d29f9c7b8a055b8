use std::collections::HashMap;
use std::sync::{Mutex, MutexGuard};

use vstd::prelude::*;

pub use crate::latest::record_latest;
use crate::latest::LatestWrite;
use crate::message::Message;
use crate::zid::ZId;

verus! {

#[verifier::external_type_specification]
#[verifier::external_body]
#[verifier::reject_recursive_types(T)]
pub struct ExMutex<T: ?Sized>(Mutex<T>);

#[verifier::external_type_specification]
#[verifier::external_body]
#[verifier::reject_recursive_types(T)]
pub struct ExMutexGuard<'a, T: ?Sized + 'a>(MutexGuard<'a, T>);

/// The lock guarding the messages was poisoned: a thread panicked while
/// holding it.
#[derive(Debug, Clone, Copy, PartialEq, Eq, Structural)]
pub struct PoisonedLockError;

/// The map that a mutex of messages was created holding. What it holds
/// later can change under a shared reference, from any thread, so only
/// what it held when it was made is named.
pub uninterp spec fn created_with(m: Mutex<HashMap<u128, Message>>) -> Map<u128, Message>;

/// Calls `std::sync::Mutex::new`, which makes a mutex holding `map`: the
/// contract claims that the new mutex was created holding `map`, and
/// nothing of what it holds later.
#[verifier::external_body]
fn mutex_new(map: HashMap<u128, Message>) -> (r: Mutex<HashMap<u128, Message>>)
    ensures
        created_with(r) == map@,
{
    Mutex::new(map)
}

/// Calls `std::sync::Mutex::lock`, mapping the poison error to
/// `PoisonedLockError`. Whether the lock is poisoned depends on the other
/// threads, so nothing is claimed of which result comes back. `lock` may
/// panic if the calling thread already holds the lock; this cannot be
/// stated here, and the library never calls it while holding a guard.
#[verifier::external_body]
fn mutex_lock(m: &Mutex<HashMap<u128, Message>>) -> (r: Result<
    MutexGuard<'_, HashMap<u128, Message>>,
    PoisonedLockError,
>) {
    m.lock().map_err(|_| PoisonedLockError)
}

/// Calls `DerefMut::deref_mut` of `std::sync::MutexGuard`: the map that the
/// lock guards. Other threads wrote it before the lock was taken, so
/// nothing is claimed of what it holds.
#[verifier::external_body]
fn guarded_map<'a, 'b>(g: &'b mut MutexGuard<'a, HashMap<u128, Message>>) -> (r: &'b mut HashMap<
    u128,
    Message,
>) {
    &mut *g
}

/// The latest message received from each peer, keyed by the peer's session
/// identifier, shared between threads behind a lock.
pub struct AtomicMessagesStore {
    storage: Mutex<HashMap<u128, Message>>,
}

impl AtomicMessagesStore {
    /// The messages the store held when it was made.
    pub closed spec fn initial_messages(&self) -> Map<u128, Message> {
        created_with(self.storage)
    }

    /// An empty store.
    pub fn new() -> (r: Self)
        ensures
            r.initial_messages() == Map::<u128, Message>::empty(),
    {
        let map: HashMap<u128, Message> = HashMap::new();
        AtomicMessagesStore { storage: mutex_new(map) }
    }

    /// Records `message` as the latest message of the peer `zid`, replacing
    /// any earlier one; fails only if the lock is poisoned, and then writes
    /// nothing. Besides the outcome it gives back a report naming this store
    /// and, on success, the write that `record_latest` made into the map the
    /// lock guards. A write can only be had from `record_latest`, which
    /// states it exactly; the map that the lock holds cannot itself be named
    /// for a mutex shared between threads.
    pub fn store(&self, zid: ZId, message: Message) -> (r: (Result<(), PoisonedLockError>, StoreReport))
        ensures
            r.1.store() == *self,
            r.0 is Ok ==> r.1.wrote(),
            r.0 is Ok ==> r.1.after() == r.1.before().insert(zid.value(), message),
            r.0 is Ok ==> r.1.before().dom().finite(),
            r.0 is Err ==> !r.1.wrote(),
    {
        let mut guard = match mutex_lock(&self.storage) {
            Ok(g) => g,
            Err(e) => {
                return (Err(e), StoreReport { store: Ghost(*self), write: None });
            },
        };
        let map = guarded_map(&mut guard);
        let write = record_latest(map, zid, message);
        (Ok(()), StoreReport { store: Ghost(*self), write: Some(write) })
    }
}

/// What one call of `AtomicMessagesStore::store` did: which store it was
/// called on and, when the lock was taken, the write it made.
pub struct StoreReport {
    store: Ghost<AtomicMessagesStore>,
    write: Option<LatestWrite>,
}

impl StoreReport {
    /// The store the call was made on.
    pub closed spec fn store(&self) -> AtomicMessagesStore {
        self.store@
    }

    /// Whether the call wrote into the guarded map.
    pub closed spec fn wrote(&self) -> bool {
        self.write is Some
    }

    /// The map before the write (meaningful when `wrote()`).
    pub closed spec fn before(&self) -> Map<u128, Message> {
        match self.write {
            Some(w) => w.before(),
            None => Map::empty(),
        }
    }

    /// The map after the write (meaningful when `wrote()`).
    pub closed spec fn after(&self) -> Map<u128, Message> {
        match self.write {
            Some(w) => w.after(),
            None => Map::empty(),
        }
    }

}

/// A successful store writes exactly one peer: `zid` afterwards maps to
/// `message`, every other peer keeps whatever it had (present or absent),
/// and the number of peers grows by one exactly when `zid` was new.
pub proof fn successful_store_replaces_only_its_peer(report: StoreReport, zid: ZId, message: Message)
    requires
        report.wrote(),
        report.after() == report.before().insert(zid.value(), message),
        report.before().dom().finite(),
    ensures
        report.after().contains_key(zid.value()),
        report.after()[zid.value()] == message,
        forall|k: u128|
            k != zid.value() ==> (#[trigger] report.after().contains_key(k)
                == report.before().contains_key(k)),
        forall|k: u128|
            k != zid.value() && report.before().contains_key(k) ==> #[trigger] report.after()[k]
                == report.before()[k],
        report.after().len() == if report.before().contains_key(zid.value()) {
            report.before().len()
        } else {
            report.before().len() + 1
        },
{
}

/// Two successful stores in a row (the second taking the map the first
/// left): for the same peer (the same session identifier) only the later message stays and the number of
/// peers does not change; for two different peers both messages stay.
pub proof fn consecutive_stores(
    first: StoreReport,
    second: StoreReport,
    zid1: ZId,
    message1: Message,
    zid2: ZId,
    message2: Message,
)
    requires
        first.after() == first.before().insert(zid1.value(), message1),
        second.after() == second.before().insert(zid2.value(), message2),
        second.before() == first.after(),
        first.before().dom().finite(),
    ensures
        zid1.value() == zid2.value() ==> second.after() == first.before().insert(zid2.value(), message2),
        zid1.value() == zid2.value() ==> second.after().len() == first.after().len(),
        zid1.value() != zid2.value() ==> second.after()[zid1.value()] == message1 && second.after()[zid2.value()]
            == message2,
        zid1.value() != zid2.value() ==> second.after().len() == first.before().len() + (if first.before().contains_key(zid1.value()) { 0int } else { 1int }) + (if first.before().contains_key(zid2.value()) { 0int } else { 1int }),
{
    if zid1.value() == zid2.value() {
        assert(second.after() =~= first.before().insert(zid2.value(), message2));
    }
}

} // verus!
