//! Where the pipeline keeps what it writes: the layout of its keys.

use vstd::prelude::*;
use crate::bytes::{name_bytes, push_bytes};

verus! {

/// The key of a signer's nonce.
pub open spec fn nonce_key_spec(signer: Seq<u8>) -> Seq<u8> {
    name_bytes("bic:base:nonce:") + signer
}

/// The key of an account's balance of a symbol.
pub open spec fn balance_key_spec(account: Seq<u8>, symbol: Seq<u8>) -> Seq<u8> {
    name_bytes("bic:coin:balance:") + account + symbol
}

/// The key of the rolling digest of the entry's random value.
pub open spec fn segment_key_spec() -> Seq<u8> {
    name_bytes("bic:epoch:segment_vr_hash")
}

/// The key of a signer's nonce.
pub fn nonce_key(signer: &[u8]) -> (key: Vec<u8>)
    ensures
        key@ == nonce_key_spec(signer@),
{
    let mut key: Vec<u8> = Vec::new();
    push_bytes(&mut key, "bic:base:nonce:".as_bytes());
    push_bytes(&mut key, signer);
    assert(key@ =~= nonce_key_spec(signer@));
    key
}

/// The key of an account's balance of a symbol.
pub fn balance_key(account: &[u8], symbol: &[u8]) -> (key: Vec<u8>)
    ensures
        key@ == balance_key_spec(account@, symbol@),
{
    let mut key: Vec<u8> = Vec::new();
    push_bytes(&mut key, "bic:coin:balance:".as_bytes());
    push_bytes(&mut key, account);
    push_bytes(&mut key, symbol);
    assert(key@ =~= balance_key_spec(account@, symbol@));
    key
}

/// The key of the rolling digest of the entry's random value.
pub fn segment_key() -> (key: Vec<u8>)
    ensures
        key@ == segment_key_spec(),
{
    let mut key: Vec<u8> = Vec::new();
    push_bytes(&mut key, "bic:epoch:segment_vr_hash".as_bytes());
    assert(key@ =~= segment_key_spec());
    key
}

} // verus!
