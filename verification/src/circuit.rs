//! The auction circuit: the functions the confidential cluster evaluates
//! on encrypted operands. The cluster runs them over secret shares in a
//! branch-free form, so no single party learns which comparison won; their
//! arithmetic meaning is the plain u64/u128 logic below, which this module
//! states and proves. Ties are decided by strict `>`: the first bidder to
//! reach a value keeps priority.

use vstd::prelude::*;

verus! {

/// One bid as the cluster sees it: the bidder identity split into two
/// 128-bit halves (the encryption scheme's plaintext width), plus the amount.
#[derive(Clone, Copy, PartialEq, Eq, Structural, Debug)]
pub struct Bid {
    pub bidder_lo: u128,
    pub bidder_hi: u128,
    pub amount: u64,
}

/// The running auction state the cluster folds bids into. It round-trips
/// through the ledger only as ciphertext; these fields are never visible
/// outside the cluster.
#[derive(Clone, Copy, PartialEq, Eq, Structural, Debug)]
pub struct AuctionState {
    pub highest_bid: u64,
    pub highest_bidder_lo: u128,
    pub highest_bidder_hi: u128,
    pub second_highest_bid: u64,
    pub bid_count: u8,
}

/// The revealed outcome of a resolution: winner identity (still in two
/// halves) and the amount the winner pays.
#[derive(Clone, Copy, PartialEq, Eq, Structural, Debug)]
pub struct AuctionResult {
    pub winner_lo: u128,
    pub winner_hi: u128,
    pub payment_amount: u64,
}

/// The two bid fields never cross: the highest bid dominates the runner-up.
pub open spec fn state_wf(s: AuctionState) -> bool {
    s.highest_bid >= s.second_highest_bid
}

/// The zero-valued state a fresh auction starts from.
pub open spec fn init_state() -> AuctionState {
    AuctionState {
        highest_bid: 0,
        highest_bidder_lo: 0,
        highest_bidder_hi: 0,
        second_highest_bid: 0,
        bid_count: 0,
    }
}

/// What folding one bid into the state means: a strictly greater amount
/// displaces the leader (demoting it to runner-up); an amount strictly
/// above the runner-up only raises the runner-up; the count always grows.
pub open spec fn fold_bid(bid: Bid, s: AuctionState) -> AuctionState {
    if bid.amount > s.highest_bid {
        AuctionState {
            highest_bid: bid.amount,
            highest_bidder_lo: bid.bidder_lo,
            highest_bidder_hi: bid.bidder_hi,
            second_highest_bid: s.highest_bid,
            bid_count: (s.bid_count + 1) as u8,
        }
    } else if bid.amount > s.second_highest_bid {
        AuctionState { second_highest_bid: bid.amount, bid_count: (s.bid_count + 1) as u8, ..s }
    } else {
        AuctionState { bid_count: (s.bid_count + 1) as u8, ..s }
    }
}

/// Folding a whole sequence of bids, oldest first, into a starting state.
pub open spec fn fold_bids(s0: AuctionState, bids: Seq<Bid>) -> AuctionState
    decreases bids.len(),
{
    if bids.len() == 0 {
        s0
    } else {
        fold_bid(bids.last(), fold_bids(s0, bids.drop_last()))
    }
}

/// The amounts of a sequence of bids, in bid order.
pub open spec fn amounts(bids: Seq<Bid>) -> Seq<u64> {
    bids.map_values(|b: Bid| b.amount)
}

/// The largest value in a sequence, or zero for an empty one.
pub open spec fn seq_max(s: Seq<u64>) -> u64
    decreases s.len(),
{
    if s.len() == 0 {
        0u64
    } else if s.last() > seq_max(s.drop_last()) {
        s.last()
    } else {
        seq_max(s.drop_last())
    }
}

/// The sequence with its first occurrence of `v` removed (unchanged when
/// `v` does not occur).
pub open spec fn remove_first(s: Seq<u64>, v: u64) -> Seq<u64>
    decreases s.len(),
{
    if s.len() == 0 {
        s
    } else if s.first() == v {
        s.drop_first()
    } else {
        seq![s.first()] + remove_first(s.drop_first(), v)
    }
}

proof fn lemma_seq_max_ge(s: Seq<u64>, i: int)
    requires
        0 <= i < s.len(),
    ensures
        s[i] <= seq_max(s),
    decreases s.len(),
{
    if i < s.len() - 1 {
        lemma_seq_max_ge(s.drop_last(), i);
    }
}

proof fn lemma_seq_max_in(s: Seq<u64>)
    requires
        s.len() > 0,
    ensures
        s.contains(seq_max(s)),
    decreases s.len(),
{
    if s.last() > seq_max(s.drop_last()) {
        assert(s[s.len() - 1] == seq_max(s));
    } else if s.len() == 1 {
        assert(s[0] == seq_max(s));
    } else {
        lemma_seq_max_in(s.drop_last());
        let j = choose|j: int|
            0 <= j < s.drop_last().len() && s.drop_last()[j] == seq_max(s.drop_last());
        assert(s[j] == seq_max(s));
    }
}

proof fn lemma_seq_max_push(s: Seq<u64>, a: u64)
    ensures
        seq_max(s.push(a)) == if a > seq_max(s) {
            a
        } else {
            seq_max(s)
        },
{
    assert(s.push(a).drop_last() =~= s);
    assert(s.push(a).last() == a);
}

proof fn lemma_remove_first_push_in(s: Seq<u64>, a: u64, v: u64)
    requires
        s.contains(v),
    ensures
        remove_first(s.push(a), v) == remove_first(s, v).push(a),
    decreases s.len(),
{
    let sp = s.push(a);
    assert(sp.first() == s.first());
    if s.first() == v {
        assert(sp.drop_first() =~= s.drop_first().push(a));
    } else {
        let j = choose|j: int| 0 <= j < s.len() && s[j] == v;
        assert(s.drop_first()[j - 1] == v);
        assert(s.drop_first().contains(v));
        lemma_remove_first_push_in(s.drop_first(), a, v);
        assert(sp.drop_first() =~= s.drop_first().push(a));
        assert(seq![s.first()] + remove_first(s.drop_first(), v).push(a) =~= (seq![s.first()]
            + remove_first(s.drop_first(), v)).push(a));
    }
}

proof fn lemma_remove_first_push_new(s: Seq<u64>, a: u64)
    requires
        !s.contains(a),
    ensures
        remove_first(s.push(a), a) == s,
    decreases s.len(),
{
    let sp = s.push(a);
    if s.len() == 0 {
        assert(sp.first() == a);
        assert(sp.drop_first() =~= s);
    } else {
        assert(s.first() != a);
        assert(forall|i: int| 0 <= i < s.drop_first().len() ==> s.drop_first()[i] == s[i + 1]);
        assert(!s.drop_first().contains(a));
        lemma_remove_first_push_new(s.drop_first(), a);
        assert(sp.first() != a);
        assert(sp.drop_first() =~= s.drop_first().push(a));
        assert(seq![s.first()] + s.drop_first() =~= s);
    }
}

/// After folding any sequence of bids from the fresh state, the tracked
/// highest bid is the maximum of the amounts, and the tracked runner-up is
/// the largest amount left once the first bid to reach that maximum is set
/// aside — the tie rule: the first bidder to reach a value keeps it.
pub proof fn lemma_fold_bids_top(bids: Seq<Bid>)
    ensures
        fold_bids(init_state(), bids).highest_bid == seq_max(amounts(bids)),
        fold_bids(init_state(), bids).second_highest_bid == seq_max(
            remove_first(amounts(bids), seq_max(amounts(bids))),
        ),
    decreases bids.len(),
{
    if bids.len() == 0 {
        assert(amounts(bids) =~= Seq::<u64>::empty());
    } else {
        let prev = bids.drop_last();
        lemma_fold_bids_top(prev);
        let st = fold_bids(init_state(), prev);
        let a = bids.last().amount;
        let sa = amounts(prev);
        assert(amounts(bids) =~= sa.push(a));
        let h = seq_max(sa);
        lemma_seq_max_push(sa, a);
        if a > h {
            assert(forall|i: int| 0 <= i < sa.len() ==> sa[i] <= h) by {
                assert forall|i: int| 0 <= i < sa.len() implies sa[i] <= h by {
                    lemma_seq_max_ge(sa, i);
                }
            }
            assert(!sa.contains(a));
            lemma_remove_first_push_new(sa, a);
        } else if sa.len() == 0 {
            assert(sa.push(a).first() == a);
            assert(sa.push(a).drop_first() =~= sa);
        } else {
            lemma_seq_max_in(sa);
            lemma_remove_first_push_in(sa, a, h);
            lemma_seq_max_push(remove_first(sa, h), a);
        }
    }
}

/// Folding preserves the well-formedness of the state.
pub proof fn lemma_fold_bids_wf(s0: AuctionState, bids: Seq<Bid>)
    requires
        state_wf(s0),
    ensures
        state_wf(fold_bids(s0, bids)),
    decreases bids.len(),
{
    if bids.len() > 0 {
        lemma_fold_bids_wf(s0, bids.drop_last());
    }
}

/// The tracked highest and runner-up bids never decrease, however many
/// bids are folded in.
pub proof fn lemma_fold_bids_monotone(s0: AuctionState, bids: Seq<Bid>)
    requires
        state_wf(s0),
    ensures
        fold_bids(s0, bids).highest_bid >= s0.highest_bid,
        fold_bids(s0, bids).second_highest_bid >= s0.second_highest_bid,
    decreases bids.len(),
{
    if bids.len() > 0 {
        lemma_fold_bids_wf(s0, bids.drop_last());
        lemma_fold_bids_monotone(s0, bids.drop_last());
    }
}

/// Builds the zero-valued starting state of an auction.
pub fn init_auction_state() -> (r: AuctionState)
    ensures
        r == init_state(),
        state_wf(r),
{
    AuctionState {
        highest_bid: 0,
        highest_bidder_lo: 0,
        highest_bidder_hi: 0,
        second_highest_bid: 0,
        bid_count: 0,
    }
}

/// Folds one bid into the state. The only mutating circuit operation:
/// both tracked bids are non-decreasing, the well-formedness of the state
/// is preserved, and ties leave the current leader in place.
pub fn place_bid(bid: Bid, state: AuctionState) -> (r: AuctionState)
    requires
        state.bid_count < 255,
        state_wf(state),
    ensures
        r == fold_bid(bid, state),
        r.highest_bid >= state.highest_bid,
        r.second_highest_bid >= state.second_highest_bid,
        r.bid_count == state.bid_count + 1,
        state_wf(r),
{
    let mut state = state;
    if bid.amount > state.highest_bid {
        state.second_highest_bid = state.highest_bid;
        state.highest_bid = bid.amount;
        state.highest_bidder_lo = bid.bidder_lo;
        state.highest_bidder_hi = bid.bidder_hi;
    } else if bid.amount > state.second_highest_bid {
        state.second_highest_bid = bid.amount;
    }
    state.bid_count = state.bid_count + 1;
    state
}

/// What a first-price resolution reveals: the highest bidder, paying its
/// own bid.
pub open spec fn first_price_result(state: AuctionState) -> AuctionResult {
    AuctionResult {
        winner_lo: state.highest_bidder_lo,
        winner_hi: state.highest_bidder_hi,
        payment_amount: state.highest_bid,
    }
}

/// What a second-price resolution reveals: still the highest bidder, but
/// paying the runner-up amount.
pub open spec fn second_price_result(state: AuctionState) -> AuctionResult {
    AuctionResult {
        winner_lo: state.highest_bidder_lo,
        winner_hi: state.highest_bidder_hi,
        payment_amount: state.second_highest_bid,
    }
}

/// Both payment rules crown the same winner; they differ only in what the
/// winner pays — the full bid under first price, the runner-up amount
/// under second price.
pub proof fn lemma_resolutions_agree_on_winner(state: AuctionState)
    ensures
        first_price_result(state).winner_lo == second_price_result(state).winner_lo,
        first_price_result(state).winner_hi == second_price_result(state).winner_hi,
        first_price_result(state).payment_amount == state.highest_bid,
        second_price_result(state).payment_amount == state.second_highest_bid,
{
}

/// Reveals the first-price outcome: the highest bidder pays its own bid.
pub fn first_winner(state: AuctionState) -> (r: AuctionResult)
    ensures
        r == first_price_result(state),
{
    AuctionResult {
        winner_lo: state.highest_bidder_lo,
        winner_hi: state.highest_bidder_hi,
        payment_amount: state.highest_bid,
    }
}

/// Reveals the second-price outcome: the highest bidder still wins, but
/// pays the runner-up amount (the Vickrey rule).
pub fn second_winner(state: AuctionState) -> (r: AuctionResult)
    ensures
        r == second_price_result(state),
{
    AuctionResult {
        winner_lo: state.highest_bidder_lo,
        winner_hi: state.highest_bidder_hi,
        payment_amount: state.second_highest_bid,
    }
}

} // verus!
