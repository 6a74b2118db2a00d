use sealed_bid_auction::circuit::AuctionResult;
use sealed_bid_auction::coordinator::{
    close_auction, first_winner, first_winner_callback, init_auction_state,
    init_auction_state_callback, place_bid, place_bid_callback, second_winner,
    second_winner_callback, StateOutput, ENCRYPTED_STATE_OFFSET, ENCRYPTED_STATE_SIZE,
};
use sealed_bid_auction::record::{AccountId, AuctionStatus, AuctionType, ErrorCode};
use sealed_bid_auction::request::{CircuitId, ComputationArg};

fn authority() -> AccountId {
    AccountId { lo: 0x1111, hi: 0x2222 }
}

fn auction_key() -> AccountId {
    AccountId { lo: 0x3333, hi: 0x4444 }
}

fn stranger() -> AccountId {
    AccountId { lo: 0x9999, hi: 0x8888 }
}

fn fresh_auction() -> (
    sealed_bid_auction::record::Auction,
    sealed_bid_auction::coordinator::PendingComputation,
    sealed_bid_auction::request::ComputationRequest,
) {
    init_auction_state(7, AuctionType::FirstPrice, 100, 1_700_000_000, 41, authority(), auction_key(), 254)
}

fn blocks(fill: u8) -> [[u8; 32]; 5] {
    [[fill; 32]; 5]
}

#[test]
fn create_opens_auction_with_zeroed_state() {
    let (auction, pending, request) = fresh_auction();
    assert_eq!(auction.status, AuctionStatus::Open);
    assert_eq!(auction.auction_type, AuctionType::FirstPrice);
    assert_eq!(auction.min_bid, 100);
    assert_eq!(auction.end_time, 1_700_000_000);
    assert_eq!(auction.bid_count, 0);
    assert_eq!(auction.state_nonce, 41);
    assert_eq!(auction.authority, authority());
    assert_eq!(auction.bump, 254);
    assert_eq!(auction.encrypted_state, [[0u8; 32]; 5]);

    assert_eq!(pending.computation_offset, 7);
    assert_eq!(pending.circuit, CircuitId::InitAuctionState);
    assert_eq!(pending.bound_nonce, 41);

    assert_eq!(request.circuit, CircuitId::InitAuctionState);
    assert_eq!(request.computation_offset, 7);
    assert_eq!(request.args, vec![ComputationArg::PlaintextU128(41)]);
    assert_eq!(request.callback_accounts.len(), 1);
    assert_eq!(request.callback_accounts[0].pubkey, auction_key());
    assert!(request.callback_accounts[0].is_writable);
}

#[test]
fn init_callback_installs_first_state() {
    let (mut auction, pending, _req) = fresh_auction();
    let out = StateOutput { nonce: 50, ciphertexts: blocks(0xab) };
    let ev = init_auction_state_callback(&mut auction, auction_key(), &pending, 7, Some(out))
        .expect("verified init callback applies");
    assert_eq!(auction.state_nonce, 50);
    assert_eq!(auction.encrypted_state, blocks(0xab));
    assert_eq!(auction.status, AuctionStatus::Open);
    assert_eq!(ev.auction, auction_key());
    assert_eq!(ev.authority, authority());
    assert_eq!(ev.auction_type, AuctionType::FirstPrice);
    assert_eq!(ev.min_bid, 100);
    assert_eq!(ev.end_time, 1_700_000_000);
}

#[test]
fn unverified_init_callback_mutates_nothing() {
    let (mut auction, pending, _req) = fresh_auction();
    let before = auction.clone();
    let r = init_auction_state_callback(&mut auction, auction_key(), &pending, 7, None);
    assert_eq!(r, Err(ErrorCode::AbortedComputation));
    assert_eq!(auction, before);
}

#[test]
fn wrong_handle_init_callback_mutates_nothing() {
    let (mut auction, pending, _req) = fresh_auction();
    let before = auction.clone();
    let out = StateOutput { nonce: 50, ciphertexts: blocks(0xab) };
    let r = init_auction_state_callback(&mut auction, auction_key(), &pending, 8, Some(out));
    assert_eq!(r, Err(ErrorCode::AbortedComputation));
    assert_eq!(auction, before);
}

#[test]
fn place_bid_request_lists_arguments_in_circuit_order() {
    let (auction, _p, _r) = fresh_auction();
    let (pending, request) = place_bid(
        &auction,
        auction_key(),
        9,
        [1u8; 32],
        [2u8; 32],
        [3u8; 32],
        [4u8; 32],
        77,
    )
    .expect("open auction accepts bids");
    assert_eq!(pending.computation_offset, 9);
    assert_eq!(pending.circuit, CircuitId::PlaceBid);
    assert_eq!(pending.bound_nonce, 41);
    assert_eq!(
        request.args,
        vec![
            ComputationArg::X25519Pubkey([4u8; 32]),
            ComputationArg::PlaintextU128(77),
            ComputationArg::EncryptedU128([1u8; 32]),
            ComputationArg::EncryptedU128([2u8; 32]),
            ComputationArg::EncryptedU64([3u8; 32]),
            ComputationArg::PlaintextU128(41),
            ComputationArg::Account(auction_key(), ENCRYPTED_STATE_OFFSET, ENCRYPTED_STATE_SIZE),
        ]
    );
}

#[test]
fn bid_after_close_is_rejected() {
    let (mut auction, _p, _r) = fresh_auction();
    close_auction(&mut auction, auction_key(), authority()).expect("authority closes");
    let r = place_bid(&auction, auction_key(), 9, [1u8; 32], [2u8; 32], [3u8; 32], [4u8; 32], 77);
    assert_eq!(r.unwrap_err(), ErrorCode::AuctionNotOpen);
}

#[test]
fn bid_callback_counts_and_advances_nonce() {
    let (mut auction, _p, _r) = fresh_auction();
    let (pending, _req) =
        place_bid(&auction, auction_key(), 9, [1u8; 32], [2u8; 32], [3u8; 32], [4u8; 32], 77)
            .unwrap();
    let out = StateOutput { nonce: 60, ciphertexts: blocks(0xcd) };
    let ev = place_bid_callback(&mut auction, auction_key(), &pending, 9, Some(out))
        .expect("verified bid callback applies");
    assert_eq!(ev.auction, auction_key());
    assert_eq!(ev.bid_count, 1);
    assert_eq!(auction.bid_count, 1);
    assert_eq!(auction.state_nonce, 60);
    assert_eq!(auction.encrypted_state, blocks(0xcd));
}

#[test]
fn replayed_bid_callback_fails_on_stale_nonce() {
    let (mut auction, _p, _r) = fresh_auction();
    let (pending, _req) =
        place_bid(&auction, auction_key(), 9, [1u8; 32], [2u8; 32], [3u8; 32], [4u8; 32], 77)
            .unwrap();
    let out = StateOutput { nonce: 60, ciphertexts: blocks(0xcd) };
    place_bid_callback(&mut auction, auction_key(), &pending, 9, Some(out)).unwrap();
    let before = auction.clone();
    // The same callback again: it was bound to nonce 41, the record is at 60.
    let replay = place_bid_callback(&mut auction, auction_key(), &pending, 9, Some(out));
    assert_eq!(replay, Err(ErrorCode::AbortedComputation));
    assert_eq!(auction, before);
    assert_eq!(auction.bid_count, 1);
}

#[test]
fn only_authority_closes() {
    let (mut auction, _p, _r) = fresh_auction();
    let r = close_auction(&mut auction, auction_key(), stranger());
    assert_eq!(r, Err(ErrorCode::Unauthorized));
    assert_eq!(auction.status, AuctionStatus::Open);
}

#[test]
fn close_moves_status_forward_once() {
    let (mut auction, _p, _r) = fresh_auction();
    let ev = close_auction(&mut auction, auction_key(), authority()).expect("first close succeeds");
    assert_eq!(ev.auction, auction_key());
    assert_eq!(ev.bid_count, 0);
    assert_eq!(auction.status, AuctionStatus::Closed);
    let again = close_auction(&mut auction, auction_key(), authority());
    assert_eq!(again, Err(ErrorCode::AuctionNotOpen));
    assert_eq!(auction.status, AuctionStatus::Closed);
}

#[test]
fn resolution_requires_closed_status() {
    let (auction, _p, _r) = fresh_auction();
    let r = first_winner(&auction, auction_key(), authority(), 11);
    assert_eq!(r.unwrap_err(), ErrorCode::AuctionNotClosed);
}

#[test]
fn resolution_requires_matching_type() {
    let (mut auction, _p, _r) = fresh_auction();
    close_auction(&mut auction, auction_key(), authority()).unwrap();
    // The auction is first-price: the second-price resolution is refused.
    let r = second_winner(&auction, auction_key(), authority(), 11);
    assert_eq!(r.unwrap_err(), ErrorCode::WrongAuctionType);
}

#[test]
fn resolution_requires_authority() {
    let (mut auction, _p, _r) = fresh_auction();
    close_auction(&mut auction, auction_key(), authority()).unwrap();
    let r = first_winner(&auction, auction_key(), stranger(), 11);
    assert_eq!(r.unwrap_err(), ErrorCode::Unauthorized);
}

#[test]
fn first_price_resolution_reveals_winner_and_payment() {
    let (mut auction, _p, _r) = fresh_auction();
    close_auction(&mut auction, auction_key(), authority()).unwrap();
    let (pending, request) = first_winner(&auction, auction_key(), authority(), 11).unwrap();
    assert_eq!(pending.circuit, CircuitId::FirstWinner);
    assert_eq!(pending.bound_nonce, 41);
    assert_eq!(
        request.args,
        vec![
            ComputationArg::PlaintextU128(41),
            ComputationArg::Account(auction_key(), ENCRYPTED_STATE_OFFSET, ENCRYPTED_STATE_SIZE),
        ]
    );
    let revealed = AuctionResult { winner_lo: 0xbb, winner_hi: 0xb0, payment_amount: 150 };
    let ev = first_winner_callback(&mut auction, auction_key(), &pending, 11, Some(revealed))
        .expect("verified resolution applies");
    assert_eq!(auction.status, AuctionStatus::Resolved);
    assert_eq!(ev.winner, AccountId { lo: 0xbb, hi: 0xb0 });
    assert_eq!(ev.payment_amount, 150);
    assert_eq!(ev.auction_type, AuctionType::FirstPrice);
    assert_eq!(ev.auction, auction_key());
}

#[test]
fn second_price_resolution_reveals_runner_up_payment() {
    let (mut auction, _pending0, _r) = init_auction_state(
        21,
        AuctionType::SecondPrice,
        0,
        1_700_000_000,
        41,
        authority(),
        auction_key(),
        254,
    );
    close_auction(&mut auction, auction_key(), authority()).unwrap();
    let (pending, _request) = second_winner(&auction, auction_key(), authority(), 22).unwrap();
    let revealed = AuctionResult { winner_lo: 0xbb, winner_hi: 0xb0, payment_amount: 120 };
    let ev = second_winner_callback(&mut auction, auction_key(), &pending, 22, Some(revealed))
        .expect("verified resolution applies");
    assert_eq!(auction.status, AuctionStatus::Resolved);
    assert_eq!(ev.winner, AccountId { lo: 0xbb, hi: 0xb0 });
    assert_eq!(ev.payment_amount, 120);
    assert_eq!(ev.auction_type, AuctionType::SecondPrice);
}

#[test]
fn replayed_resolution_callback_fails() {
    let (mut auction, _p, _r) = fresh_auction();
    close_auction(&mut auction, auction_key(), authority()).unwrap();
    let (pending, _request) = first_winner(&auction, auction_key(), authority(), 11).unwrap();
    let revealed = AuctionResult { winner_lo: 0xbb, winner_hi: 0xb0, payment_amount: 150 };
    first_winner_callback(&mut auction, auction_key(), &pending, 11, Some(revealed)).unwrap();
    let before = auction.clone();
    let replay = first_winner_callback(&mut auction, auction_key(), &pending, 11, Some(revealed));
    assert_eq!(replay, Err(ErrorCode::AbortedComputation));
    assert_eq!(auction, before);
}

#[test]
fn unverified_resolution_callback_mutates_nothing() {
    let (mut auction, _p, _r) = fresh_auction();
    close_auction(&mut auction, auction_key(), authority()).unwrap();
    let (pending, _request) = first_winner(&auction, auction_key(), authority(), 11).unwrap();
    let before = auction.clone();
    let r = first_winner_callback(&mut auction, auction_key(), &pending, 11, None);
    assert_eq!(r, Err(ErrorCode::AbortedComputation));
    assert_eq!(auction, before);
    assert_eq!(auction.status, AuctionStatus::Closed);
}
