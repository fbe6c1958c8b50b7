use vstd::prelude::*;

use crate::bid_management::{winner_of, Bid};

verus! {

/// The position of the winning bid inside a bid history: the first index
/// whose amount no later bid strictly exceeds.
pub open spec fn winner_index(bids: Seq<Bid>) -> int
    decreases bids.len(),
{
    if bids.len() <= 1 {
        0
    } else {
        let prev = winner_index(bids.drop_last());
        if bids.last().amount > bids[prev].amount {
            bids.len() - 1
        } else {
            prev
        }
    }
}

/// The winning bid of a nonempty history is the earliest bid with the
/// greatest amount: it is one of the recorded bids, no bid exceeds its
/// amount, and every bid placed before it has a strictly smaller amount.
pub proof fn lemma_winner_is_earliest_max(bids: Seq<Bid>)
    requires
        bids.len() > 0,
    ensures
        ({
            let w = winner_index(bids);
            &&& 0 <= w < bids.len()
            &&& winner_of(bids) == Some(bids[w])
            &&& forall|i: int| 0 <= i < bids.len() ==> #[trigger] bids[i].amount <= bids[w].amount
            &&& forall|i: int| 0 <= i < w ==> #[trigger] bids[i].amount < bids[w].amount
        }),
    decreases bids.len(),
{
    let sub = bids.drop_last();
    let w = winner_index(bids);
    if sub.len() == 0 {
        assert(bids[0] == bids.last());
    } else {
        lemma_winner_is_earliest_max(sub);
        let prev = winner_index(sub);
        assert(sub[prev] == bids[prev]);
        assert forall|i: int| 0 <= i < bids.len() implies #[trigger] bids[i].amount
            <= bids[w].amount by {
            if i < bids.len() - 1 {
                assert(sub[i] == bids[i]);
            }
        }
        assert forall|i: int| 0 <= i < w implies #[trigger] bids[i].amount < bids[w].amount by {
            assert(sub[i] == bids[i]);
        }
    }
}

/// A later bid that does not strictly exceed the winner's amount never
/// displaces it: after inserting `first` and then `second` with
/// `second.amount <= first.amount` against one item, the winner is whatever
/// it was after `first`; on a previously unbid item that winner is `first`
/// itself.
pub proof fn lemma_no_greater_bid_keeps_winner(history: Seq<Bid>, first: Bid, second: Bid)
    requires
        second.amount <= first.amount,
    ensures
        winner_of(history.push(first).push(second)) == winner_of(history.push(first)),
        history.len() == 0 ==> winner_of(history.push(first).push(second)) == Some(first),
{
    let after_first = history.push(first);
    let after_both = after_first.push(second);
    assert(after_both.drop_last() =~= after_first);
    assert(after_first.drop_last() =~= history);
    match winner_of(history) {
        None => {
            assert(winner_of(after_first) == Some(first));
        },
        Some(previous) => {
            assert(winner_of(after_first).unwrap().amount >= first.amount);
        },
    }
}

/// A later bid with a strictly greater amount takes the win: on a previously
/// unbid item, inserting `first` and then `second` with
/// `second.amount > first.amount` makes `first` the winner after the first
/// insert and `second` the winner after both.
pub proof fn lemma_greater_bid_takes_winner(history: Seq<Bid>, first: Bid, second: Bid)
    requires
        history.len() == 0,
        second.amount > first.amount,
    ensures
        winner_of(history.push(first)) == Some(first),
        winner_of(history.push(first).push(second)) == Some(second),
{
    let after_first = history.push(first);
    let after_both = after_first.push(second);
    assert(after_both.drop_last() =~= after_first);
    assert(after_first.drop_last() =~= history);
    assert(winner_of(history) is None);
    assert(winner_of(after_first) == Some(first));
    assert(winner_of(after_both) == Some(second));
}

/// Any serialized order of bids with pairwise-distinct amounts — as with
/// concurrent bidders each using their own amount — crowns the unique bid
/// carrying the maximum amount: the winner is one of the recorded bids, no
/// bid exceeds its amount, and every other bid stays strictly below it.
pub proof fn lemma_distinct_amounts_unique_winner(history: Seq<Bid>)
    requires
        history.len() > 0,
        forall|i: int, j: int|
            #![trigger history[i].amount, history[j].amount]
            0 <= i < j < history.len() ==> history[i].amount != history[j].amount,
    ensures
        winner_of(history) is Some,
        history.contains(winner_of(history).unwrap()),
        forall|i: int|
            0 <= i < history.len() ==> #[trigger] history[i].amount <= winner_of(
                history,
            ).unwrap().amount,
        forall|i: int|
            0 <= i < history.len() && history[i] != winner_of(history).unwrap()
                ==> #[trigger] history[i].amount < winner_of(history).unwrap().amount,
{
    lemma_winner_is_earliest_max(history);
    let w = winner_index(history);
    assert(history.contains(history[w]));
    assert forall|i: int|
        0 <= i < history.len() && history[i] != winner_of(history).unwrap() implies #[trigger]
    history[i].amount < winner_of(history).unwrap().amount by {
        if i != w {
            assert(history[i].amount != history[w].amount);
        }
    }
}

} // verus!
