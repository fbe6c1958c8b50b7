use vstd::prelude::*;

use crate::bid_tracker::BidTracker;
use crate::errors::BidTrackerError;
use crate::laws::{lemma_winner_is_earliest_max, winner_index};
use std::collections::HashMap;

verus! {

broadcast use vstd::std_specs::hash::group_hash_axioms;

/// A single bid: immutable once accepted. The item and user identifiers are
/// 128-bit values (UUIDs); the timestamp is caller-supplied and not used for
/// ordering; the amount is an order key, larger meaning a higher bid.
#[derive(Clone, Copy, Debug, PartialEq, Eq, Structural)]
pub struct Bid {
    pub item_uuid: u128,
    pub user_uuid: u128,
    pub timestamp: i64,
    pub amount: u64,
}

/// The winning bid of a bid history: the bid with the strictly greatest
/// amount, where a later bid of equal amount does not displace an earlier one.
pub open spec fn winner_of(bids: Seq<Bid>) -> Option<Bid>
    decreases bids.len(),
{
    if bids.len() == 0 {
        None
    } else {
        match winner_of(bids.drop_last()) {
            None => Some(bids.last()),
            Some(w) => if bids.last().amount > w.amount {
                Some(bids.last())
            } else {
                Some(w)
            },
        }
    }
}

/// The state of one registered item: its append-only bid history in insertion
/// order, and a copy of the current winning bid (absent while unbid).
#[derive(Debug)]
pub struct ItemBidState {
    pub item_uuid: u128,
    pub bids: Vec<Bid>,
    pub current_winning_bid: Option<Bid>,
}

impl ItemBidState {
    /// Every recorded bid targets this item, and the cached winner is exactly
    /// the winner of the recorded history.
    pub open spec fn wf(self) -> bool {
        &&& self.current_winning_bid == winner_of(self.bids@)
        &&& forall|i: int|
            0 <= i < self.bids@.len() ==> (#[trigger] self.bids@[i]).item_uuid == self.item_uuid
    }
}

/// The ledger: per-item bid state for a fixed catalog of registered items,
/// and per-user bid logs created lazily on a user's first accepted bid.
#[derive(Debug)]
pub struct BidManagement {
    items: HashMap<u128, ItemBidState>,
    user_bids: HashMap<u128, Vec<Bid>>,
}

impl BidTracker for BidManagement {
    closed spec fn wf(&self) -> bool {
        &&& forall|item_uuid: u128|
            self.items@.dom().contains(item_uuid) ==> {
                let state = #[trigger] self.items@[item_uuid];
                state.item_uuid == item_uuid && state.wf()
            }
        &&& forall|user_uuid: u128|
            self.user_bids@.dom().contains(user_uuid) ==> {
                let log = (#[trigger] self.user_bids@[user_uuid])@;
                log.len() > 0 && forall|i: int|
                    0 <= i < log.len() ==> (#[trigger] log[i]).user_uuid == user_uuid
            }
    }

    closed spec fn catalog(&self) -> Set<u128> {
        self.items@.dom()
    }

    closed spec fn item_bids(&self, item_uuid: u128) -> Seq<Bid> {
        if self.items@.dom().contains(item_uuid) {
            self.items@[item_uuid].bids@
        } else {
            Seq::empty()
        }
    }

    closed spec fn users(&self) -> Set<u128> {
        self.user_bids@.dom()
    }

    closed spec fn user_log(&self, user_uuid: u128) -> Seq<Bid> {
        if self.user_bids@.dom().contains(user_uuid) {
            self.user_bids@[user_uuid]@
        } else {
            Seq::empty()
        }
    }

    fn new(allowed_item_uuids: Vec<u128>) -> (tracker: Self) {
        let mut items: HashMap<u128, ItemBidState> = HashMap::new();
        let mut idx: usize = 0;
        while idx < allowed_item_uuids.len()
            invariant
                idx <= allowed_item_uuids@.len(),
                forall|x: u128|
                    #[trigger] items@.dom().contains(x) <==> exists|j: int|
                        0 <= j < idx && allowed_item_uuids@[j] == x,
                forall|x: u128|
                    items@.dom().contains(x) ==> {
                        let state = #[trigger] items@[x];
                        &&& state.item_uuid == x
                        &&& state.bids@ == Seq::<Bid>::empty()
                        &&& state.current_winning_bid is None
                    },
            decreases allowed_item_uuids@.len() - idx,
        {
            let item_uuid = allowed_item_uuids[idx];
            let state = ItemBidState {
                item_uuid,
                bids: Vec::new(),
                current_winning_bid: None,
            };
            items.insert(item_uuid, state);
            proof {
                assert forall|x: u128| #[trigger] items@.dom().contains(x) implies exists|j: int|
                    0 <= j < idx + 1 && allowed_item_uuids@[j] == x by {
                    if x == item_uuid {
                        assert(allowed_item_uuids@[idx as int] == x);
                    }
                }
            }
            idx = idx + 1;
        }
        let tracker = BidManagement { items, user_bids: HashMap::new() };
        proof {
            assert(tracker.catalog() =~= allowed_item_uuids@.to_set());
            assert forall|item_uuid: u128| #[trigger]
                tracker.item_bids(item_uuid) == Seq::<Bid>::empty() by {
                if tracker.items@.dom().contains(item_uuid) {
                    assert(tracker.items@[item_uuid].bids@ == Seq::<Bid>::empty());
                }
            }
        }
        tracker
    }

    fn insert_bid(&mut self, bid: &Bid) -> (result: Result<(), BidTrackerError>) {
        if !self.items.contains_key(&bid.item_uuid) {
            return Err(BidTrackerError::ItemNotBiddable);
        }
        let ghost prior = *self;
        let mut state = self.items.remove(&bid.item_uuid).unwrap();
        state.bids.push(*bid);
        proof {
            assert(state.bids@.drop_last() =~= prior.items@[bid.item_uuid].bids@);
        }
        match state.current_winning_bid {
            Some(current) => {
                if current.amount < bid.amount {
                    state.current_winning_bid = Some(*bid);
                }
            },
            None => {
                state.current_winning_bid = Some(*bid);
            },
        }
        let ghost new_state = state;
        self.items.insert(bid.item_uuid, state);
        let mut log = match self.user_bids.remove(&bid.user_uuid) {
            Some(log) => log,
            None => Vec::new(),
        };
        log.push(*bid);
        proof {
            if prior.user_bids@.dom().contains(bid.user_uuid) {
                assert(log@ =~= prior.user_bids@[bid.user_uuid]@.push(*bid));
            }
        }
        let ghost new_log = log;
        self.user_bids.insert(bid.user_uuid, log);
        proof {
            assert(self.items@ =~= prior.items@.insert(bid.item_uuid, new_state));
            assert(self.user_bids@ =~= prior.user_bids@.insert(bid.user_uuid, new_log));
            assert(self.catalog() =~= prior.catalog());
            assert(self.users() =~= prior.users().insert(bid.user_uuid));
            assert(new_state.wf()) by {
                assert(winner_of(new_state.bids@) == new_state.current_winning_bid);
            }
        }
        Ok(())
    }

    fn current_winning_bid(&self, item_uuid: &u128) -> (result: Result<Bid, BidTrackerError>) {
        match self.items.get(item_uuid) {
            Some(state) => match state.current_winning_bid {
                Some(winner) => {
                    proof {
                        let history = self.items@[*item_uuid].bids@;
                        assert(history.len() > 0) by {
                            assert(winner_of(history) is Some);
                        }
                        lemma_winner_is_earliest_max(history);
                        assert(self.item_bids(*item_uuid).contains(winner)) by {
                            assert(history[winner_index(history)] == winner);
                        }
                    }
                    Ok(winner)
                },
                None => Err(BidTrackerError::ItemNotBiddable),
            },
            None => Err(BidTrackerError::ItemNotBiddable),
        }
    }

    fn get_bids(&self, item_uuid: &u128) -> (result: Result<Vec<Bid>, BidTrackerError>) {
        match self.items.get(item_uuid) {
            Some(state) => {
                let bids = state.bids.clone();
                proof {
                    assert(bids@ =~= self.items@[*item_uuid].bids@);
                }
                Ok(bids)
            },
            None => Err(BidTrackerError::ItemNotBiddable),
        }
    }

    fn get_bids_by_user(&self, user_uuid: &u128) -> (result: Result<Vec<Bid>, BidTrackerError>) {
        match self.user_bids.get(user_uuid) {
            Some(log) => {
                let bids = log.clone();
                proof {
                    assert(bids@ =~= self.user_bids@[*user_uuid]@);
                }
                Ok(bids)
            },
            None => Err(BidTrackerError::ItemNotBiddable),
        }
    }
}

impl BidManagement {
    /// The number of registered items (the catalog size).
    pub fn item_count(&self) -> (count: usize)
        ensures
            count == self.catalog().len(),
    {
        self.items.len()
    }

    /// The number of users that have placed at least one accepted bid.
    pub fn user_count(&self) -> (count: usize)
        ensures
            count == self.users().len(),
    {
        self.user_bids.len()
    }
}

} // verus!
