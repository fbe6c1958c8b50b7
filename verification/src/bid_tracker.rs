use vstd::prelude::*;

use crate::bid_management::{winner_of, Bid};
use crate::errors::BidTrackerError;

verus! {

/// The abstract capability of a bid store: a fixed catalog of biddable items,
/// one mutating operation that records a bid, and three pure queries. The
/// in-memory ledger is the production implementation; the contracts below are
/// what any implementation owes its callers.
pub trait BidTracker: Sized {
    /// Internal consistency of the store; established by `new` and preserved
    /// by every operation.
    spec fn wf(&self) -> bool;

    /// The fixed set of registered (biddable) item identifiers.
    spec fn catalog(&self) -> Set<u128>;

    /// The insertion-ordered bid history of an item (empty when unregistered
    /// or not yet bid on).
    spec fn item_bids(&self, item_uuid: u128) -> Seq<Bid>;

    /// The set of users that have placed at least one accepted bid.
    spec fn users(&self) -> Set<u128>;

    /// The insertion-ordered log of a user's accepted bids (empty when the
    /// user has never bid).
    spec fn user_log(&self, user_uuid: u128) -> Seq<Bid>;

    /// Construct a store accepting bids exactly for the listed item
    /// identifiers (duplicates collapse), with every history empty and no
    /// recorded users.
    fn new(allowed_item_uuids: Vec<u128>) -> (tracker: Self)
        ensures
            tracker.wf(),
            tracker.catalog() == allowed_item_uuids@.to_set(),
            forall|item_uuid: u128| #[trigger] tracker.item_bids(item_uuid) == Seq::<Bid>::empty(),
            tracker.users() == Set::<u128>::empty(),
            forall|user_uuid: u128| #[trigger] tracker.user_log(user_uuid) == Seq::<Bid>::empty(),
    ;

    /// Record a bid. Succeeds exactly when the bid's item is registered; then
    /// the bid is appended to the item's history and to its user's log, and
    /// nothing else changes. A bid against an unregistered item is rejected
    /// with no state change at all (the user log is not touched either).
    fn insert_bid(&mut self, bid: &Bid) -> (result: Result<(), BidTrackerError>)
        requires
            old(self).wf(),
        ensures
            final(self).wf(),
            final(self).catalog() == old(self).catalog(),
            old(self).catalog().contains(bid.item_uuid) ==> {
                &&& result == Ok::<(), BidTrackerError>(())
                &&& final(self).item_bids(bid.item_uuid) == old(self).item_bids(
                    bid.item_uuid,
                ).push(*bid)
                &&& forall|item_uuid: u128|
                    item_uuid != bid.item_uuid ==> #[trigger] final(self).item_bids(item_uuid)
                        == old(self).item_bids(item_uuid)
                &&& final(self).users() == old(self).users().insert(bid.user_uuid)
                &&& final(self).user_log(bid.user_uuid) == old(self).user_log(
                    bid.user_uuid,
                ).push(*bid)
                &&& forall|user_uuid: u128|
                    user_uuid != bid.user_uuid ==> #[trigger] final(self).user_log(user_uuid)
                        == old(self).user_log(user_uuid)
            },
            !old(self).catalog().contains(bid.item_uuid) ==> {
                &&& result == Err::<(), BidTrackerError>(BidTrackerError::ItemNotBiddable)
                &&& *final(self) == *old(self)
            },
    ;

    /// The current winning bid of an item: a copy of the recorded bid with
    /// the greatest amount, the earliest such bid when amounts tie. Fails
    /// with `ItemNotBiddable` when the item is unregistered, and also when it
    /// is registered but has received no bids.
    fn current_winning_bid(&self, item_uuid: &u128) -> (result: Result<Bid, BidTrackerError>)
        requires
            self.wf(),
        ensures
            result == (if self.catalog().contains(*item_uuid) {
                match winner_of(self.item_bids(*item_uuid)) {
                    Some(winner) => Ok::<Bid, BidTrackerError>(winner),
                    None => Err::<Bid, BidTrackerError>(BidTrackerError::ItemNotBiddable),
                }
            } else {
                Err::<Bid, BidTrackerError>(BidTrackerError::ItemNotBiddable)
            }),
            result matches Ok(winner) ==> winner.item_uuid == *item_uuid && self.item_bids(
                *item_uuid,
            ).contains(winner),
    ;

    /// The full insertion-ordered bid history of a registered item, as
    /// copies; empty when the item is registered but unbid. Fails with
    /// `ItemNotBiddable` exactly when the item is unregistered.
    fn get_bids(&self, item_uuid: &u128) -> (result: Result<Vec<Bid>, BidTrackerError>)
        requires
            self.wf(),
        ensures
            match result {
                Ok(bids) => self.catalog().contains(*item_uuid) && bids@ == self.item_bids(
                    *item_uuid,
                ),
                Err(error) => !self.catalog().contains(*item_uuid) && error
                    == BidTrackerError::ItemNotBiddable,
            },
            result matches Ok(bids) ==> forall|i: int|
                0 <= i < bids@.len() ==> (#[trigger] bids@[i]).item_uuid == *item_uuid,
    ;

    /// The full insertion-ordered log of a user's accepted bids, as copies,
    /// covering every item the user has bid on. Fails with `ItemNotBiddable`
    /// exactly when the user has never placed an accepted bid.
    fn get_bids_by_user(&self, user_uuid: &u128) -> (result: Result<Vec<Bid>, BidTrackerError>)
        requires
            self.wf(),
        ensures
            match result {
                Ok(bids) => self.users().contains(*user_uuid) && bids@ == self.user_log(*user_uuid)
                    && bids@.len() > 0,
                Err(error) => !self.users().contains(*user_uuid) && error
                    == BidTrackerError::ItemNotBiddable,
            },
            result matches Ok(bids) ==> forall|i: int|
                0 <= i < bids@.len() ==> (#[trigger] bids@[i]).user_uuid == *user_uuid,
    ;
}

} // verus!
