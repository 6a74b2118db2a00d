//! The computation request builder: assembles the ordered, typed argument
//! list one circuit invocation needs, names the circuit and its definition
//! offset, and records which account the completion callback must touch.
//! The argument order is part of each request's contract — the circuit
//! reads its inputs positionally.

use vstd::prelude::*;
use crate::bytes::{u128_le, u32_le};
use crate::record::AccountId;

verus! {

/// The four circuits this auction ever queues.
#[derive(Clone, Copy, PartialEq, Eq, Structural, Debug)]
pub enum CircuitId {
    InitAuctionState,
    PlaceBid,
    FirstWinner,
    SecondWinner,
}

/// The name under which each circuit's definition is registered.
pub open spec fn circuit_name(c: CircuitId) -> Seq<char> {
    match c {
        CircuitId::InitAuctionState => "init_auction_state"@,
        CircuitId::PlaceBid => "place_bid"@,
        CircuitId::FirstWinner => "first_winner"@,
        CircuitId::SecondWinner => "second_winner"@,
    }
}

/// The 32-bit offset the ledger derives a circuit's definition account
/// from: a digest of the circuit's registered name.
pub uninterp spec fn comp_def_offset_of(name: Seq<char>) -> u32;

/// Relies on arcium_anchor::comp_def_offset: the offset is a digest of
/// the circuit name's bytes and depends on nothing else.
#[verifier::external_body]
fn comp_def_offset_raw(name: &str) -> (r: u32)
    ensures
        r == comp_def_offset_of(name@),
{
    arcium_anchor::comp_def_offset(name)
}

/// The definition offset for one of this auction's circuits.
pub fn comp_def_offset_for(c: CircuitId) -> (r: u32)
    ensures
        r == comp_def_offset_of(circuit_name(c)),
{
    match c {
        CircuitId::InitAuctionState => comp_def_offset_raw("init_auction_state"),
        CircuitId::PlaceBid => comp_def_offset_raw("place_bid"),
        CircuitId::FirstWinner => comp_def_offset_raw("first_winner"),
        CircuitId::SecondWinner => comp_def_offset_raw("second_winner"),
    }
}

/// One positional argument of a computation request: a plaintext scalar,
/// a ciphertext, a key-exchange public key, or a byte range of a ledger
/// account holding ciphertext.
#[derive(Clone, Copy, PartialEq, Eq, Debug)]
pub enum ComputationArg {
    PlaintextU128(u128),
    EncryptedU64([u8; 32]),
    EncryptedU128([u8; 32]),
    X25519Pubkey([u8; 32]),
    Account(AccountId, u32, u32),
}

/// An account the completion callback is handed, and whether it may be
/// written.
#[derive(Clone, Copy, PartialEq, Eq, Structural, Debug)]
pub struct CallbackAccountMeta {
    pub pubkey: AccountId,
    pub is_writable: bool,
}

/// Everything one queued circuit invocation consists of: which circuit,
/// where its definition lives, the caller-chosen offset that correlates
/// the eventual callback with this request, the positional arguments, and
/// the accounts the callback touches.
#[derive(Clone, PartialEq, Eq, Debug)]
pub struct ComputationRequest {
    pub circuit: CircuitId,
    pub comp_def_offset: u32,
    pub computation_offset: u64,
    pub args: Vec<ComputationArg>,
    pub callback_accounts: Vec<CallbackAccountMeta>,
}

/// A stable numbering of the argument kinds, used to state what the
/// packed argument list holds.
pub open spec fn arg_tag(a: ComputationArg) -> u8 {
    match a {
        ComputationArg::PlaintextU128(_) => 0u8,
        ComputationArg::EncryptedU64(_) => 1u8,
        ComputationArg::EncryptedU128(_) => 2u8,
        ComputationArg::X25519Pubkey(_) => 3u8,
        ComputationArg::Account(_, _, _) => 4u8,
    }
}

/// The bytes one argument contributes: the scalar's little-endian bytes,
/// a ciphertext's 32 bytes, or an account reference's key, offset and
/// length.
pub open spec fn arg_payload(a: ComputationArg) -> Seq<u8> {
    match a {
        ComputationArg::PlaintextU128(v) => u128_le(v),
        ComputationArg::EncryptedU64(c) => c@,
        ComputationArg::EncryptedU128(c) => c@,
        ComputationArg::X25519Pubkey(k) => k@,
        ComputationArg::Account(k, off, len) => u128_le(k.lo) + u128_le(k.hi) + u32_le(off)
            + u32_le(len),
    }
}

/// One argument as an entry of the packed list: its kind and its bytes.
pub open spec fn arg_model(a: ComputationArg) -> (u8, Seq<u8>) {
    (arg_tag(a), arg_payload(a))
}

/// What a packed argument list holds: one entry per argument, in the
/// order the arguments were appended.
pub uninterp spec fn arg_entries(l: arcium_anchor::prelude::ArgumentList) -> Seq<(u8, Seq<u8>)>;

#[verifier::external_type_specification]
#[verifier::external_body]
pub struct ExArgumentList(arcium_anchor::prelude::ArgumentList);

/// Relies on arcium_anchor::ArgBuilder: each builder call appends exactly
/// one argument, and `build` hands back the arguments in call order. The
/// builder stores each entry's side-table position as a single byte, so
/// the packed list is faithful only while no table outgrows 256 entries;
/// the length bound keeps every stored index in range.
#[verifier::external_body]
fn encode_args(args: &Vec<ComputationArg>) -> (r: arcium_anchor::prelude::ArgumentList)
    requires
        args@.len() <= 256,
    ensures
        arg_entries(r) == args@.map_values(|a: ComputationArg| arg_model(a)),
{
    let mut b = arcium_anchor::ArgBuilder::new();
    for a in args.iter() {
        b = match a {
            ComputationArg::PlaintextU128(v) => b.plaintext_u128(*v),
            ComputationArg::EncryptedU64(c) => b.encrypted_u64(*c),
            ComputationArg::EncryptedU128(c) => b.encrypted_u128(*c),
            ComputationArg::X25519Pubkey(k) => b.x25519_pubkey(*k),
            ComputationArg::Account(k, off, len) => b.account(
                anchor_lang::prelude::Pubkey::try_from(k.to_bytes().as_slice()).unwrap(),
                *off,
                *len,
            ),
        };
    }
    b.build()
}

impl ComputationRequest {
    /// Packs the positional arguments into the cluster's wire form. The
    /// packed form indexes its side tables with single bytes, so only a
    /// request of at most 256 arguments can be packed faithfully; every
    /// request this library builds holds at most seven.
    pub fn encoded(&self) -> (r: arcium_anchor::prelude::ArgumentList)
        requires
            self.args@.len() <= 256,
        ensures
            arg_entries(r) == self.args@.map_values(|a: ComputationArg| arg_model(a)),
    {
        encode_args(&self.args)
    }
}

} // verus!
