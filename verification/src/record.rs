//! The ledger-durable auction record and the plain values that describe
//! it: statuses, auction types, account identities, error conditions and
//! the public events the coordinator emits.

use vstd::prelude::*;
use crate::bytes::{u128_le, u128_le_bytes};

verus! {

/// A 256-bit ledger account identity, carried as two 128-bit halves — the
/// same split the cluster uses for bidder identities, so the two agree on
/// what a revealed winner is.
#[derive(Clone, Copy, PartialEq, Eq, Structural, Debug)]
pub struct AccountId {
    pub lo: u128,
    pub hi: u128,
}

impl AccountId {
    /// The 32-byte form of the identity: the low half's little-endian
    /// bytes followed by the high half's.
    pub fn to_bytes(&self) -> (r: Vec<u8>)
        ensures
            r@ == u128_le(self.lo) + u128_le(self.hi),
            r@.len() == 32,
    {
        let mut r = u128_le_bytes(self.lo);
        let mut hi = u128_le_bytes(self.hi);
        r.append(&mut hi);
        r
    }
}

/// Where an auction stands in its life. The order is strict and forward:
/// an auction opens, closes, and is resolved, never the other way.
#[derive(Clone, Copy, PartialEq, Eq, Structural, Debug)]
pub enum AuctionStatus {
    Open,
    Closed,
    Resolved,
}

/// How far along the lifecycle a status is; every permitted transition
/// strictly increases it.
pub open spec fn status_rank(s: AuctionStatus) -> int {
    match s {
        AuctionStatus::Open => 0,
        AuctionStatus::Closed => 1,
        AuctionStatus::Resolved => 2,
    }
}

/// Which payment rule resolves the auction. Immutable after creation.
#[derive(Clone, Copy, PartialEq, Eq, Structural, Debug)]
pub enum AuctionType {
    FirstPrice,
    SecondPrice,
}

/// The failures an operation can surface. Guard violations name the guard
/// that failed; a callback that cannot be authenticated, or whose
/// computation the cluster rejected, is an aborted computation; a missing
/// cluster configuration is fatal wiring.
#[derive(Clone, Copy, PartialEq, Eq, Structural, Debug)]
pub enum ErrorCode {
    AbortedComputation,
    ClusterNotSet,
    AuctionNotOpen,
    AuctionNotClosed,
    WrongAuctionType,
    Unauthorized,
}

/// The durable auction record. The encrypted state blob is opaque here:
/// only the cluster's circuit may interpret it; the coordinator just
/// stores it alongside the nonce that binds the next computation to this
/// exact version of the state.
#[derive(Clone, PartialEq, Eq, Debug)]
pub struct Auction {
    pub bump: u8,
    pub authority: AccountId,
    pub auction_type: AuctionType,
    pub min_bid: u64,
    pub end_time: i64,
    pub status: AuctionStatus,
    pub bid_count: u8,
    pub state_nonce: u128,
    pub encrypted_state: [[u8; 32]; 5],
}

/// Emitted once the cluster confirms the fresh encrypted state.
#[derive(Clone, Copy, PartialEq, Eq, Structural, Debug)]
pub struct AuctionCreatedEvent {
    pub auction: AccountId,
    pub authority: AccountId,
    pub auction_type: AuctionType,
    pub min_bid: u64,
    pub end_time: i64,
}

/// Emitted when a bid has been folded in: the count alone, never the
/// amount or the bidder.
#[derive(Clone, Copy, PartialEq, Eq, Structural, Debug)]
pub struct BidPlacedEvent {
    pub auction: AccountId,
    pub bid_count: u8,
}

/// Emitted when the authority closes the bidding window.
#[derive(Clone, Copy, PartialEq, Eq, Structural, Debug)]
pub struct AuctionClosedEvent {
    pub auction: AccountId,
    pub bid_count: u8,
}

/// Emitted at resolution: the only place winner identity and payment
/// amount ever become public.
#[derive(Clone, Copy, PartialEq, Eq, Structural, Debug)]
pub struct AuctionResolvedEvent {
    pub auction: AccountId,
    pub winner: AccountId,
    pub payment_amount: u64,
    pub auction_type: AuctionType,
}

} // verus!
