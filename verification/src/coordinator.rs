//! The auction coordinator: the on-ledger state machine. Every mutating
//! operation is split in two. The request half validates the guard against
//! the current record, builds the computation request, and changes nothing
//! durable. The apply half runs when the cluster's signed result comes
//! back: it authenticates the callback against the pending computation and
//! only then touches the record — all or nothing, so a computation that
//! never completes leaves the auction exactly as it was.

use vstd::prelude::*;
use crate::circuit::AuctionResult;
use crate::record::{
    AccountId, Auction, AuctionClosedEvent, AuctionCreatedEvent, AuctionResolvedEvent,
    AuctionStatus, AuctionType, BidPlacedEvent, ErrorCode, status_rank,
};
use crate::request::{
    CallbackAccountMeta, CircuitId, ComputationArg, ComputationRequest, circuit_name,
    comp_def_offset_for, comp_def_offset_of,
};

verus! {

/// Where the encrypted state blob sits inside the serialized auction
/// account: an 8-byte discriminator, the bump, the 32-byte authority, the
/// type, 8 bytes of minimum bid, 8 of end time, the status, the bid count
/// and the 16-byte nonce come first.
pub const ENCRYPTED_STATE_OFFSET: u32 = 76;

/// The blob's size: five 32-byte ciphertext blocks.
pub const ENCRYPTED_STATE_SIZE: u32 = 160;

/// The request half's record of one queued computation: the caller-chosen
/// offset the callback must answer to, which circuit was queued, and the
/// state version the computation was bound to.
#[derive(Clone, Copy, PartialEq, Eq, Structural, Debug)]
pub struct PendingComputation {
    pub computation_offset: u64,
    pub circuit: CircuitId,
    pub bound_nonce: u128,
}

/// The decoded output of a state-mutating computation: the re-encrypted
/// state and the fresh nonce that names its version.
#[derive(Clone, Copy, PartialEq, Eq, Debug)]
pub struct StateOutput {
    pub nonce: u128,
    pub ciphertexts: [[u8; 32]; 5],
}

/// A 32-byte block of zeroes, the placeholder blob before the cluster
/// returns the first real encrypted state.
pub open spec fn zero_block() -> Seq<u8> {
    Seq::new(32, |i: int| 0u8)
}

/// Whether every block of the blob is zeroed.
pub open spec fn zeroed_blob(cs: [[u8; 32]; 5]) -> bool {
    forall|i: int| 0 <= i < 5 ==> (#[trigger] cs@[i])@ == zero_block()
}

/// Creates the auction record and the request that asks the cluster for
/// the initial encrypted state. The record opens immediately; its blob
/// stays zeroed until the init callback is verified.
pub fn init_auction_state(
    computation_offset: u64,
    auction_type: AuctionType,
    min_bid: u64,
    end_time: i64,
    nonce: u128,
    authority: AccountId,
    auction_key: AccountId,
    bump: u8,
) -> (r: (Auction, PendingComputation, ComputationRequest))
    ensures
        r.0.bump == bump,
        r.0.authority == authority,
        r.0.auction_type == auction_type,
        r.0.min_bid == min_bid,
        r.0.end_time == end_time,
        r.0.status == AuctionStatus::Open,
        r.0.bid_count == 0,
        r.0.state_nonce == nonce,
        zeroed_blob(r.0.encrypted_state),
        r.1 == (PendingComputation {
            computation_offset,
            circuit: CircuitId::InitAuctionState,
            bound_nonce: nonce,
        }),
        r.2.circuit == CircuitId::InitAuctionState,
        r.2.comp_def_offset == comp_def_offset_of(circuit_name(CircuitId::InitAuctionState)),
        r.2.computation_offset == computation_offset,
        r.2.args@ == seq![ComputationArg::PlaintextU128(nonce)],
        r.2.callback_accounts@ == seq![
            (CallbackAccountMeta { pubkey: auction_key, is_writable: true }),
        ],
{
    let auction = Auction {
        bump,
        authority,
        auction_type,
        min_bid,
        end_time,
        status: AuctionStatus::Open,
        bid_count: 0,
        state_nonce: nonce,
        encrypted_state: [[0u8; 32]; 5],
    };
    proof {
        assert forall|i: int| 0 <= i < 5 implies (#[trigger] auction.encrypted_state@[i])@
            == zero_block() by {
            assert(auction.encrypted_state@[i]@ =~= zero_block());
        }
    }
    let pending = PendingComputation {
        computation_offset,
        circuit: CircuitId::InitAuctionState,
        bound_nonce: nonce,
    };
    let mut args: Vec<ComputationArg> = Vec::new();
    args.push(ComputationArg::PlaintextU128(nonce));
    let mut callback_accounts: Vec<CallbackAccountMeta> = Vec::new();
    callback_accounts.push(CallbackAccountMeta { pubkey: auction_key, is_writable: true });
    let request = ComputationRequest {
        circuit: CircuitId::InitAuctionState,
        comp_def_offset: comp_def_offset_for(CircuitId::InitAuctionState),
        computation_offset,
        args,
        callback_accounts,
    };
    proof {
        assert(request.args@ =~= seq![ComputationArg::PlaintextU128(nonce)]);
        assert(request.callback_accounts@ =~= seq![
            (CallbackAccountMeta { pubkey: auction_key, is_writable: true }),
        ]);
    }
    (auction, pending, request)
}

/// Applies the cluster's answer to the init request: only a verified
/// callback for the very computation that was queued, against the state
/// version it was bound to, installs the first encrypted state. Anything
/// else is an aborted computation and changes nothing.
pub fn init_auction_state_callback(
    auction: &mut Auction,
    auction_key: AccountId,
    pending: &PendingComputation,
    computation_offset: u64,
    output: Option<StateOutput>,
) -> (r: Result<AuctionCreatedEvent, ErrorCode>)
    requires
        pending.circuit == CircuitId::InitAuctionState,
    ensures
        r is Ok <==> (output is Some && computation_offset == pending.computation_offset
            && old(auction).state_nonce == pending.bound_nonce),
        r is Err ==> *final(auction) == *old(auction) && r->Err_0 == ErrorCode::AbortedComputation,
        r is Ok ==> *final(auction) == (Auction {
            encrypted_state: output->0.ciphertexts,
            state_nonce: output->0.nonce,
            ..*old(auction)
        }),
        r is Ok ==> r->Ok_0 == (AuctionCreatedEvent {
            auction: auction_key,
            authority: old(auction).authority,
            auction_type: old(auction).auction_type,
            min_bid: old(auction).min_bid,
            end_time: old(auction).end_time,
        }),
        status_rank(final(auction).status) >= status_rank(old(auction).status),
{
    let o = match output {
        Some(o) => o,
        None => { return Err(ErrorCode::AbortedComputation) },
    };
    if computation_offset != pending.computation_offset {
        return Err(ErrorCode::AbortedComputation);
    }
    if auction.state_nonce != pending.bound_nonce {
        return Err(ErrorCode::AbortedComputation);
    }
    auction.encrypted_state = o.ciphertexts;
    auction.state_nonce = o.nonce;
    Ok(AuctionCreatedEvent {
        auction: auction_key,
        authority: auction.authority,
        auction_type: auction.auction_type,
        min_bid: auction.min_bid,
        end_time: auction.end_time,
    })
}

/// Queues one bid. Only an open auction accepts bids; the request carries
/// the bidder's key-exchange key, the bid ciphertexts, and the current
/// state nonce that binds the fold to this exact state version. Nothing
/// durable changes until the callback is verified. The minimum bid is
/// advisory at this layer: the circuit folds whatever amount arrives.
pub fn place_bid(
    auction: &Auction,
    auction_key: AccountId,
    computation_offset: u64,
    encrypted_bidder_lo: [u8; 32],
    encrypted_bidder_hi: [u8; 32],
    encrypted_amount: [u8; 32],
    bidder_pubkey: [u8; 32],
    nonce: u128,
) -> (r: Result<(PendingComputation, ComputationRequest), ErrorCode>)
    ensures
        r is Ok <==> auction.status == AuctionStatus::Open,
        r is Err ==> r->Err_0 == ErrorCode::AuctionNotOpen,
        r is Ok ==> r->Ok_0.0 == (PendingComputation {
            computation_offset,
            circuit: CircuitId::PlaceBid,
            bound_nonce: auction.state_nonce,
        }),
        r is Ok ==> r->Ok_0.1.circuit == CircuitId::PlaceBid,
        r is Ok ==> r->Ok_0.1.comp_def_offset == comp_def_offset_of(
            circuit_name(CircuitId::PlaceBid),
        ),
        r is Ok ==> r->Ok_0.1.computation_offset == computation_offset,
        r is Ok ==> r->Ok_0.1.args@ == seq![
            ComputationArg::X25519Pubkey(bidder_pubkey),
            ComputationArg::PlaintextU128(nonce),
            ComputationArg::EncryptedU128(encrypted_bidder_lo),
            ComputationArg::EncryptedU128(encrypted_bidder_hi),
            ComputationArg::EncryptedU64(encrypted_amount),
            ComputationArg::PlaintextU128(auction.state_nonce),
            ComputationArg::Account(auction_key, ENCRYPTED_STATE_OFFSET, ENCRYPTED_STATE_SIZE),
        ],
        r is Ok ==> r->Ok_0.1.callback_accounts@ == seq![
            (CallbackAccountMeta { pubkey: auction_key, is_writable: true }),
        ],
{
    if !matches!(auction.status, AuctionStatus::Open) {
        return Err(ErrorCode::AuctionNotOpen);
    }
    let pending = PendingComputation {
        computation_offset,
        circuit: CircuitId::PlaceBid,
        bound_nonce: auction.state_nonce,
    };
    let mut args: Vec<ComputationArg> = Vec::new();
    args.push(ComputationArg::X25519Pubkey(bidder_pubkey));
    args.push(ComputationArg::PlaintextU128(nonce));
    args.push(ComputationArg::EncryptedU128(encrypted_bidder_lo));
    args.push(ComputationArg::EncryptedU128(encrypted_bidder_hi));
    args.push(ComputationArg::EncryptedU64(encrypted_amount));
    args.push(ComputationArg::PlaintextU128(auction.state_nonce));
    args.push(ComputationArg::Account(auction_key, ENCRYPTED_STATE_OFFSET, ENCRYPTED_STATE_SIZE));
    let mut callback_accounts: Vec<CallbackAccountMeta> = Vec::new();
    callback_accounts.push(CallbackAccountMeta { pubkey: auction_key, is_writable: true });
    let request = ComputationRequest {
        circuit: CircuitId::PlaceBid,
        comp_def_offset: comp_def_offset_for(CircuitId::PlaceBid),
        computation_offset,
        args,
        callback_accounts,
    };
    proof {
        assert(request.args@ =~= seq![
            ComputationArg::X25519Pubkey(bidder_pubkey),
            ComputationArg::PlaintextU128(nonce),
            ComputationArg::EncryptedU128(encrypted_bidder_lo),
            ComputationArg::EncryptedU128(encrypted_bidder_hi),
            ComputationArg::EncryptedU64(encrypted_amount),
            ComputationArg::PlaintextU128(auction.state_nonce),
            ComputationArg::Account(auction_key, ENCRYPTED_STATE_OFFSET, ENCRYPTED_STATE_SIZE),
        ]);
        assert(request.callback_accounts@ =~= seq![
            (CallbackAccountMeta { pubkey: auction_key, is_writable: true }),
        ]);
    }
    Ok((pending, request))
}

/// Applies a verified bid fold: installs the re-encrypted state, advances
/// the state nonce, and counts the bid. A callback that cannot be
/// verified, answers a different computation, or was bound to a state
/// version that has since moved on is an aborted computation and changes
/// nothing — a replayed callback fails here rather than double-apply.
pub fn place_bid_callback(
    auction: &mut Auction,
    auction_key: AccountId,
    pending: &PendingComputation,
    computation_offset: u64,
    output: Option<StateOutput>,
) -> (r: Result<BidPlacedEvent, ErrorCode>)
    requires
        pending.circuit == CircuitId::PlaceBid,
        old(auction).bid_count < 255,
    ensures
        r is Ok <==> (output is Some && computation_offset == pending.computation_offset
            && old(auction).state_nonce == pending.bound_nonce),
        r is Err ==> *final(auction) == *old(auction) && r->Err_0 == ErrorCode::AbortedComputation,
        r is Ok ==> *final(auction) == (Auction {
            encrypted_state: output->0.ciphertexts,
            state_nonce: output->0.nonce,
            bid_count: (old(auction).bid_count + 1) as u8,
            ..*old(auction)
        }),
        r is Ok ==> r->Ok_0 == (BidPlacedEvent {
            auction: auction_key,
            bid_count: (old(auction).bid_count + 1) as u8,
        }),
        status_rank(final(auction).status) >= status_rank(old(auction).status),
{
    let o = match output {
        Some(o) => o,
        None => { return Err(ErrorCode::AbortedComputation) },
    };
    if computation_offset != pending.computation_offset {
        return Err(ErrorCode::AbortedComputation);
    }
    if auction.state_nonce != pending.bound_nonce {
        return Err(ErrorCode::AbortedComputation);
    }
    auction.encrypted_state = o.ciphertexts;
    auction.state_nonce = o.nonce;
    auction.bid_count = auction.bid_count + 1;
    Ok(BidPlacedEvent { auction: auction_key, bid_count: auction.bid_count })
}

/// Closes the bidding window. Only the auction's authority may close, and
/// only an open auction closes; the status moves strictly forward.
pub fn close_auction(auction: &mut Auction, auction_key: AccountId, caller: AccountId) -> (r:
    Result<AuctionClosedEvent, ErrorCode>)
    ensures
        r is Ok <==> (caller == old(auction).authority && old(auction).status
            == AuctionStatus::Open),
        caller != old(auction).authority ==> r->Err_0 == ErrorCode::Unauthorized,
        caller == old(auction).authority && old(auction).status != AuctionStatus::Open
            ==> r->Err_0 == ErrorCode::AuctionNotOpen,
        r is Err ==> *final(auction) == *old(auction),
        r is Ok ==> *final(auction) == (Auction { status: AuctionStatus::Closed, ..*old(auction) }),
        r is Ok ==> r->Ok_0 == (AuctionClosedEvent {
            auction: auction_key,
            bid_count: old(auction).bid_count,
        }),
        status_rank(final(auction).status) >= status_rank(old(auction).status),
{
    if !(caller == auction.authority) {
        return Err(ErrorCode::Unauthorized);
    }
    if !matches!(auction.status, AuctionStatus::Open) {
        return Err(ErrorCode::AuctionNotOpen);
    }
    auction.status = AuctionStatus::Closed;
    Ok(AuctionClosedEvent { auction: auction_key, bid_count: auction.bid_count })
}

/// Queues the first-price resolution. Only the authority may resolve,
/// only once bidding is closed, and only for a first-price auction — each
/// other case fails fast without contacting the cluster.
pub fn first_winner(
    auction: &Auction,
    auction_key: AccountId,
    caller: AccountId,
    computation_offset: u64,
) -> (r: Result<(PendingComputation, ComputationRequest), ErrorCode>)
    ensures
        r is Ok <==> (caller == auction.authority && auction.status == AuctionStatus::Closed
            && auction.auction_type == AuctionType::FirstPrice),
        caller != auction.authority ==> r->Err_0 == ErrorCode::Unauthorized,
        caller == auction.authority && auction.status != AuctionStatus::Closed ==> r->Err_0
            == ErrorCode::AuctionNotClosed,
        caller == auction.authority && auction.status == AuctionStatus::Closed
            && auction.auction_type != AuctionType::FirstPrice ==> r->Err_0
            == ErrorCode::WrongAuctionType,
        r is Ok ==> r->Ok_0.0 == (PendingComputation {
            computation_offset,
            circuit: CircuitId::FirstWinner,
            bound_nonce: auction.state_nonce,
        }),
        r is Ok ==> r->Ok_0.1.circuit == CircuitId::FirstWinner,
        r is Ok ==> r->Ok_0.1.comp_def_offset == comp_def_offset_of(
            circuit_name(CircuitId::FirstWinner),
        ),
        r is Ok ==> r->Ok_0.1.computation_offset == computation_offset,
        r is Ok ==> r->Ok_0.1.args@ == seq![
            ComputationArg::PlaintextU128(auction.state_nonce),
            ComputationArg::Account(auction_key, ENCRYPTED_STATE_OFFSET, ENCRYPTED_STATE_SIZE),
        ],
        r is Ok ==> r->Ok_0.1.callback_accounts@ == seq![
            (CallbackAccountMeta { pubkey: auction_key, is_writable: true }),
        ],
{
    resolution_request(auction, auction_key, caller, computation_offset, CircuitId::FirstWinner)
}

/// Queues the second-price resolution; the mirror of the first-price
/// request, legal only for a second-price auction.
pub fn second_winner(
    auction: &Auction,
    auction_key: AccountId,
    caller: AccountId,
    computation_offset: u64,
) -> (r: Result<(PendingComputation, ComputationRequest), ErrorCode>)
    ensures
        r is Ok <==> (caller == auction.authority && auction.status == AuctionStatus::Closed
            && auction.auction_type == AuctionType::SecondPrice),
        caller != auction.authority ==> r->Err_0 == ErrorCode::Unauthorized,
        caller == auction.authority && auction.status != AuctionStatus::Closed ==> r->Err_0
            == ErrorCode::AuctionNotClosed,
        caller == auction.authority && auction.status == AuctionStatus::Closed
            && auction.auction_type != AuctionType::SecondPrice ==> r->Err_0
            == ErrorCode::WrongAuctionType,
        r is Ok ==> r->Ok_0.0 == (PendingComputation {
            computation_offset,
            circuit: CircuitId::SecondWinner,
            bound_nonce: auction.state_nonce,
        }),
        r is Ok ==> r->Ok_0.1.circuit == CircuitId::SecondWinner,
        r is Ok ==> r->Ok_0.1.comp_def_offset == comp_def_offset_of(
            circuit_name(CircuitId::SecondWinner),
        ),
        r is Ok ==> r->Ok_0.1.computation_offset == computation_offset,
        r is Ok ==> r->Ok_0.1.args@ == seq![
            ComputationArg::PlaintextU128(auction.state_nonce),
            ComputationArg::Account(auction_key, ENCRYPTED_STATE_OFFSET, ENCRYPTED_STATE_SIZE),
        ],
        r is Ok ==> r->Ok_0.1.callback_accounts@ == seq![
            (CallbackAccountMeta { pubkey: auction_key, is_writable: true }),
        ],
{
    resolution_request(auction, auction_key, caller, computation_offset, CircuitId::SecondWinner)
}

/// The shared request half of both resolutions: the guards, the argument
/// list (the bound state nonce and the blob's byte range) and the
/// callback registration only differ in which circuit they name.
fn resolution_request(
    auction: &Auction,
    auction_key: AccountId,
    caller: AccountId,
    computation_offset: u64,
    circuit: CircuitId,
) -> (r: Result<(PendingComputation, ComputationRequest), ErrorCode>)
    requires
        circuit == CircuitId::FirstWinner || circuit == CircuitId::SecondWinner,
    ensures
        r is Ok <==> (caller == auction.authority && auction.status == AuctionStatus::Closed
            && ((circuit == CircuitId::FirstWinner && auction.auction_type
            == AuctionType::FirstPrice) || (circuit == CircuitId::SecondWinner
            && auction.auction_type == AuctionType::SecondPrice))),
        caller != auction.authority ==> r->Err_0 == ErrorCode::Unauthorized,
        caller == auction.authority && auction.status != AuctionStatus::Closed ==> r->Err_0
            == ErrorCode::AuctionNotClosed,
        r is Err && caller == auction.authority && auction.status == AuctionStatus::Closed
            ==> r->Err_0 == ErrorCode::WrongAuctionType,
        r is Ok ==> r->Ok_0.0 == (PendingComputation {
            computation_offset,
            circuit,
            bound_nonce: auction.state_nonce,
        }),
        r is Ok ==> r->Ok_0.1.circuit == circuit,
        r is Ok ==> r->Ok_0.1.comp_def_offset == comp_def_offset_of(circuit_name(circuit)),
        r is Ok ==> r->Ok_0.1.computation_offset == computation_offset,
        r is Ok ==> r->Ok_0.1.args@ == seq![
            ComputationArg::PlaintextU128(auction.state_nonce),
            ComputationArg::Account(auction_key, ENCRYPTED_STATE_OFFSET, ENCRYPTED_STATE_SIZE),
        ],
        r is Ok ==> r->Ok_0.1.callback_accounts@ == seq![
            (CallbackAccountMeta { pubkey: auction_key, is_writable: true }),
        ],
{
    if !(caller == auction.authority) {
        return Err(ErrorCode::Unauthorized);
    }
    if !matches!(auction.status, AuctionStatus::Closed) {
        return Err(ErrorCode::AuctionNotClosed);
    }
    let type_matches = match (circuit, auction.auction_type) {
        (CircuitId::FirstWinner, AuctionType::FirstPrice) => true,
        (CircuitId::SecondWinner, AuctionType::SecondPrice) => true,
        _ => false,
    };
    if !type_matches {
        return Err(ErrorCode::WrongAuctionType);
    }
    let pending = PendingComputation {
        computation_offset,
        circuit,
        bound_nonce: auction.state_nonce,
    };
    let mut args: Vec<ComputationArg> = Vec::new();
    args.push(ComputationArg::PlaintextU128(auction.state_nonce));
    args.push(ComputationArg::Account(auction_key, ENCRYPTED_STATE_OFFSET, ENCRYPTED_STATE_SIZE));
    let mut callback_accounts: Vec<CallbackAccountMeta> = Vec::new();
    callback_accounts.push(CallbackAccountMeta { pubkey: auction_key, is_writable: true });
    let request = ComputationRequest {
        circuit,
        comp_def_offset: comp_def_offset_for(circuit),
        computation_offset,
        args,
        callback_accounts,
    };
    proof {
        assert(request.args@ =~= seq![
            ComputationArg::PlaintextU128(auction.state_nonce),
            ComputationArg::Account(auction_key, ENCRYPTED_STATE_OFFSET, ENCRYPTED_STATE_SIZE),
        ]);
        assert(request.callback_accounts@ =~= seq![
            (CallbackAccountMeta { pubkey: auction_key, is_writable: true }),
        ]);
    }
    Ok((pending, request))
}

/// Applies a verified first-price resolution: the auction becomes
/// resolved and the winner and payment become public, here and only here.
/// An unverifiable or replayed callback changes nothing.
pub fn first_winner_callback(
    auction: &mut Auction,
    auction_key: AccountId,
    pending: &PendingComputation,
    computation_offset: u64,
    output: Option<AuctionResult>,
) -> (r: Result<AuctionResolvedEvent, ErrorCode>)
    requires
        pending.circuit == CircuitId::FirstWinner,
    ensures
        r is Ok <==> (output is Some && computation_offset == pending.computation_offset
            && old(auction).status == AuctionStatus::Closed && old(auction).state_nonce
            == pending.bound_nonce),
        r is Err ==> *final(auction) == *old(auction) && r->Err_0 == ErrorCode::AbortedComputation,
        r is Ok ==> *final(auction) == (Auction { status: AuctionStatus::Resolved, ..*old(auction) }),
        r is Ok ==> r->Ok_0 == (AuctionResolvedEvent {
            auction: auction_key,
            winner: (AccountId { lo: output->0.winner_lo, hi: output->0.winner_hi }),
            payment_amount: output->0.payment_amount,
            auction_type: old(auction).auction_type,
        }),
        status_rank(final(auction).status) >= status_rank(old(auction).status),
{
    resolution_callback(auction, auction_key, pending, computation_offset, output)
}

/// Applies a verified second-price resolution; the winner is revealed the
/// same way, the payment is the runner-up amount the circuit disclosed.
pub fn second_winner_callback(
    auction: &mut Auction,
    auction_key: AccountId,
    pending: &PendingComputation,
    computation_offset: u64,
    output: Option<AuctionResult>,
) -> (r: Result<AuctionResolvedEvent, ErrorCode>)
    requires
        pending.circuit == CircuitId::SecondWinner,
    ensures
        r is Ok <==> (output is Some && computation_offset == pending.computation_offset
            && old(auction).status == AuctionStatus::Closed && old(auction).state_nonce
            == pending.bound_nonce),
        r is Err ==> *final(auction) == *old(auction) && r->Err_0 == ErrorCode::AbortedComputation,
        r is Ok ==> *final(auction) == (Auction { status: AuctionStatus::Resolved, ..*old(auction) }),
        r is Ok ==> r->Ok_0 == (AuctionResolvedEvent {
            auction: auction_key,
            winner: (AccountId { lo: output->0.winner_lo, hi: output->0.winner_hi }),
            payment_amount: output->0.payment_amount,
            auction_type: old(auction).auction_type,
        }),
        status_rank(final(auction).status) >= status_rank(old(auction).status),
{
    resolution_callback(auction, auction_key, pending, computation_offset, output)
}

/// The shared apply half of both resolutions.
fn resolution_callback(
    auction: &mut Auction,
    auction_key: AccountId,
    pending: &PendingComputation,
    computation_offset: u64,
    output: Option<AuctionResult>,
) -> (r: Result<AuctionResolvedEvent, ErrorCode>)
    ensures
        r is Ok <==> (output is Some && computation_offset == pending.computation_offset
            && old(auction).status == AuctionStatus::Closed && old(auction).state_nonce
            == pending.bound_nonce),
        r is Err ==> *final(auction) == *old(auction) && r->Err_0 == ErrorCode::AbortedComputation,
        r is Ok ==> *final(auction) == (Auction { status: AuctionStatus::Resolved, ..*old(auction) }),
        r is Ok ==> r->Ok_0 == (AuctionResolvedEvent {
            auction: auction_key,
            winner: (AccountId { lo: output->0.winner_lo, hi: output->0.winner_hi }),
            payment_amount: output->0.payment_amount,
            auction_type: old(auction).auction_type,
        }),
        status_rank(final(auction).status) >= status_rank(old(auction).status),
{
    let o = match output {
        Some(o) => o,
        None => { return Err(ErrorCode::AbortedComputation) },
    };
    if computation_offset != pending.computation_offset {
        return Err(ErrorCode::AbortedComputation);
    }
    if !matches!(auction.status, AuctionStatus::Closed) {
        return Err(ErrorCode::AbortedComputation);
    }
    if auction.state_nonce != pending.bound_nonce {
        return Err(ErrorCode::AbortedComputation);
    }
    auction.status = AuctionStatus::Resolved;
    Ok(AuctionResolvedEvent {
        auction: auction_key,
        winner: AccountId { lo: o.winner_lo, hi: o.winner_hi },
        payment_amount: o.payment_amount,
        auction_type: auction.auction_type,
    })
}

} // verus!
