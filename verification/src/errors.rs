use vstd::prelude::*;

verus! {

/// The single error kind of the ledger: an operation referenced an item
/// identifier outside the registered catalog, a winning-bid query targeted a
/// registered item with no bids yet, or a user query targeted a user with no
/// recorded bids.
#[derive(Clone, Copy, Debug, PartialEq, Eq, Structural)]
pub enum BidTrackerError {
    ItemNotBiddable,
}

} // verus!
