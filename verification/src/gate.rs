use vstd::prelude::*;
use vstd::rwlock::RwLock;

use crate::bid_management::{Bid, BidManagement};
use crate::bid_tracker::BidTracker;
use crate::errors::BidTrackerError;

verus! {

/// The access gate: the one shared, mutable ledger behind a reader-writer
/// lock. Every operation acquires the lock before touching the ledger and
/// releases it unconditionally afterwards, failing operations included, so
/// concurrent callers are linearized: each call observes the ledger as left
/// by some prefix of the serialized operations, never a partially applied
/// insert. The lock cannot be poisoned: one failing caller does not block
/// later callers from the ledger.
///
/// The catalog is fixed at construction and never changes, so membership of
/// an item in the catalog is the one fact about the shared state that every
/// caller can rely on without holding the lock; the contracts below are
/// phrased over it. Query results are consistent snapshots: exactly what the
/// corresponding `BidTracker` operation returned on the ledger state at the
/// query's linearization point.
pub struct AccessGate {
    catalog: Ghost<Set<u128>>,
    ledger: RwLock<BidManagement, spec_fn(BidManagement) -> bool>,
}

impl AccessGate {
    /// The fixed set of registered (biddable) item identifiers.
    pub closed spec fn catalog(self) -> Set<u128> {
        self.catalog@
    }

    /// Whatever the serialized history of operations, the guarded ledger
    /// stays well formed and keeps the catalog fixed at construction.
    #[verifier::type_invariant]
    spec fn gate_inv(self) -> bool {
        forall|ledger: BidManagement| #[trigger]
            self.ledger.inv(ledger) <==> (ledger.wf() && ledger.catalog() == self.catalog@)
    }

    /// Construct a gate around a fresh ledger that accepts bids exactly for
    /// the listed item identifiers (duplicates collapse).
    pub fn new(allowed_item_uuids: Vec<u128>) -> (gate: AccessGate)
        ensures
            gate.catalog() == allowed_item_uuids@.to_set(),
    {
        let ledger = BidManagement::new(allowed_item_uuids);
        let ghost catalog = ledger.catalog();
        let lock = RwLock::new(
            ledger,
            Ghost(|l: BidManagement| l.wf() && l.catalog() == catalog),
        );
        AccessGate { catalog: Ghost(catalog), ledger: lock }
    }

    /// Record a bid under mutual exclusion. Succeeds exactly when the bid's
    /// item is registered; a bid against an unregistered item is rejected
    /// with no state change.
    pub fn insert_bid(&self, bid: &Bid) -> (result: Result<(), BidTrackerError>)
        ensures
            result == (if self.catalog().contains(bid.item_uuid) {
                Ok::<(), BidTrackerError>(())
            } else {
                Err::<(), BidTrackerError>(BidTrackerError::ItemNotBiddable)
            }),
    {
        proof {
            use_type_invariant(self);
        }
        let (mut ledger, write_handle) = self.ledger.acquire_write();
        let result = ledger.insert_bid(bid);
        write_handle.release_write(ledger);
        result
    }

    /// The current winning bid of an item at the linearization point of this
    /// call. Fails with `ItemNotBiddable` whenever the item is unregistered,
    /// and also when it is registered but had no bids yet.
    pub fn current_winning_bid(&self, item_uuid: &u128) -> (result: Result<Bid, BidTrackerError>)
        ensures
            !self.catalog().contains(*item_uuid) ==> result == Err::<
                Bid,
                BidTrackerError,
            >(BidTrackerError::ItemNotBiddable),
            result matches Err(error) ==> error == BidTrackerError::ItemNotBiddable,
            result matches Ok(winner) ==> self.catalog().contains(*item_uuid)
                && winner.item_uuid == *item_uuid,
    {
        proof {
            use_type_invariant(self);
        }
        let read_handle = self.ledger.acquire_read();
        let result = read_handle.borrow().current_winning_bid(item_uuid);
        read_handle.release_read();
        result
    }

    /// The insertion-ordered bid history of an item at the linearization
    /// point of this call; empty for a registered item nobody has bid on.
    /// Fails with `ItemNotBiddable` exactly when the item is unregistered.
    pub fn get_bids(&self, item_uuid: &u128) -> (result: Result<Vec<Bid>, BidTrackerError>)
        ensures
            result is Ok <==> self.catalog().contains(*item_uuid),
            result matches Err(error) ==> error == BidTrackerError::ItemNotBiddable,
            result matches Ok(bids) ==> forall|i: int|
                0 <= i < bids@.len() ==> (#[trigger] bids@[i]).item_uuid == *item_uuid,
    {
        proof {
            use_type_invariant(self);
        }
        let read_handle = self.ledger.acquire_read();
        let result = read_handle.borrow().get_bids(item_uuid);
        read_handle.release_read();
        result
    }

    /// The insertion-ordered log of a user's accepted bids at the
    /// linearization point of this call, covering every item the user has
    /// bid on. Fails with `ItemNotBiddable` exactly when the user had never
    /// placed an accepted bid.
    pub fn get_bids_by_user(&self, user_uuid: &u128) -> (result: Result<Vec<Bid>, BidTrackerError>)
        ensures
            result matches Err(error) ==> error == BidTrackerError::ItemNotBiddable,
            result matches Ok(bids) ==> bids@.len() > 0 && forall|i: int|
                0 <= i < bids@.len() ==> (#[trigger] bids@[i]).user_uuid == *user_uuid,
    {
        proof {
            use_type_invariant(self);
        }
        let read_handle = self.ledger.acquire_read();
        let result = read_handle.borrow().get_bids_by_user(user_uuid);
        read_handle.release_read();
        result
    }
}

} // verus!
