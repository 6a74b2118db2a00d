use arcium_anchor::prelude::ArgumentRef;
use sealed_bid_auction::coordinator::{
    init_auction_state, place_bid, ENCRYPTED_STATE_OFFSET, ENCRYPTED_STATE_SIZE,
};
use sealed_bid_auction::record::{AccountId, AuctionType};
use sealed_bid_auction::request::{
    comp_def_offset_for, CircuitId, ComputationArg, ComputationRequest,
};

#[test]
fn definition_offsets_match_circuit_name_digests() {
    assert_eq!(
        comp_def_offset_for(CircuitId::InitAuctionState),
        arcium_anchor::comp_def_offset("init_auction_state")
    );
    assert_eq!(
        comp_def_offset_for(CircuitId::PlaceBid),
        arcium_anchor::comp_def_offset("place_bid")
    );
    assert_eq!(
        comp_def_offset_for(CircuitId::FirstWinner),
        arcium_anchor::comp_def_offset("first_winner")
    );
    assert_eq!(
        comp_def_offset_for(CircuitId::SecondWinner),
        arcium_anchor::comp_def_offset("second_winner")
    );
    // The four circuits have four distinct definition accounts.
    assert_ne!(
        comp_def_offset_for(CircuitId::PlaceBid),
        comp_def_offset_for(CircuitId::FirstWinner)
    );
}

#[test]
fn account_id_bytes_are_little_endian_halves() {
    let id = AccountId { lo: 0x0102, hi: 0x0304 };
    let bytes = id.to_bytes();
    let mut expected = vec![0u8; 32];
    expected[0] = 0x02;
    expected[1] = 0x01;
    expected[16] = 0x04;
    expected[17] = 0x03;
    assert_eq!(bytes, expected);
}

#[test]
fn encoded_bid_request_packs_arguments_in_order() {
    let auction_key = AccountId { lo: 0x3333, hi: 0x4444 };
    let (auction, _p, _r) = init_auction_state(
        7,
        AuctionType::FirstPrice,
        100,
        1_700_000_000,
        41,
        AccountId { lo: 0x1111, hi: 0x2222 },
        auction_key,
        254,
    );
    let (_pending, request) = place_bid(
        &auction,
        auction_key,
        9,
        [1u8; 32],
        [2u8; 32],
        [3u8; 32],
        [4u8; 32],
        77,
    )
    .unwrap();
    let packed = request.encoded();

    assert_eq!(packed.args.len(), 7);
    assert!(matches!(packed.args[0], ArgumentRef::X25519Pubkey(0)));
    assert!(matches!(packed.args[1], ArgumentRef::PlaintextU128(0)));
    assert!(matches!(packed.args[2], ArgumentRef::EncryptedU128(1)));
    assert!(matches!(packed.args[3], ArgumentRef::EncryptedU128(2)));
    assert!(matches!(packed.args[4], ArgumentRef::EncryptedU64(3)));
    assert!(matches!(packed.args[5], ArgumentRef::PlaintextU128(1)));
    assert!(matches!(packed.args[6], ArgumentRef::Account(0)));

    assert_eq!(packed.byte_arrays, vec![[4u8; 32], [1u8; 32], [2u8; 32], [3u8; 32]]);
    assert_eq!(packed.values_128_bit, vec![77u128, 41u128]);
    assert!(packed.plaintext_numbers.is_empty());

    assert_eq!(packed.accounts.len(), 1);
    let mut key_bytes = [0u8; 32];
    key_bytes[..16].copy_from_slice(&0x3333u128.to_le_bytes());
    key_bytes[16..].copy_from_slice(&0x4444u128.to_le_bytes());
    assert_eq!(
        packed.accounts[0].pubkey,
        anchor_lang::prelude::Pubkey::new_from_array(key_bytes)
    );
    assert_eq!(packed.accounts[0].offset, ENCRYPTED_STATE_OFFSET);
    assert_eq!(packed.accounts[0].length, ENCRYPTED_STATE_SIZE);
}

#[test]
fn encoding_stays_faithful_at_the_index_bound() {
    // The packed form indexes each side table with a single byte: 256
    // arguments of one kind is the largest request that packs faithfully,
    // and the last entry must still point at its own value.
    let args: Vec<ComputationArg> =
        (0..256u32).map(|i| ComputationArg::PlaintextU128(i as u128)).collect();
    let request = ComputationRequest {
        circuit: CircuitId::PlaceBid,
        comp_def_offset: comp_def_offset_for(CircuitId::PlaceBid),
        computation_offset: 1,
        args,
        callback_accounts: vec![],
    };
    let packed = request.encoded();
    assert_eq!(packed.args.len(), 256);
    assert_eq!(packed.values_128_bit.len(), 256);
    assert!(matches!(packed.args[0], ArgumentRef::PlaintextU128(0)));
    assert!(matches!(packed.args[255], ArgumentRef::PlaintextU128(255)));
    assert_eq!(packed.values_128_bit[255], 255u128);
}

#[test]
fn encoded_init_request_holds_single_nonce() {
    let (_auction, _p, request) = init_auction_state(
        7,
        AuctionType::SecondPrice,
        0,
        0,
        99,
        AccountId { lo: 1, hi: 2 },
        AccountId { lo: 3, hi: 4 },
        255,
    );
    let packed = request.encoded();
    assert_eq!(packed.args.len(), 1);
    assert!(matches!(packed.args[0], ArgumentRef::PlaintextU128(0)));
    assert_eq!(packed.values_128_bit, vec![99u128]);
    assert!(packed.byte_arrays.is_empty());
    assert!(packed.accounts.is_empty());
}
