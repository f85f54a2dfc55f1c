//! Content keys of messages: the SCALE encoding of what identifies a message.
use vstd::prelude::*;
use parity_codec::Encode;
use crate::types::{AccountId, H160, TokenBalance};

verus! {

/// Little-endian bytes of `v`, `n` of them.
pub open spec fn le_bytes(v: nat, n: nat) -> Seq<u8>
    decreases n,
{
    if n == 0 {
        Seq::empty()
    } else {
        seq![(v % 256) as u8].add(le_bytes(v / 256, (n - 1) as nat))
    }
}

/// SCALE encoding of a short ASCII string: a one-byte compact length, then the bytes.
pub open spec fn short_str_bytes(s: Seq<char>) -> Seq<u8> {
    seq![(4 * s.len()) as u8].add(s.map_values(|c: char| (c as u32) as u8))
}

/// A string that SCALE encodes with a one-byte length prefix and one byte per char.
pub open spec fn is_short_ascii(s: Seq<char>) -> bool {
    s.len() < 64 && forall|i: int| 0 <= i < s.len() ==> (#[trigger] s[i] as u32) < 128
}

/// Key of a withdrawal: the encoding of `(from, to, amount, 0u64)`.
pub open spec fn transfer_key(from: AccountId, to: Seq<u8>, amount: TokenBalance) -> Seq<u8> {
    le_bytes(from as nat, 8).add(to).add(le_bytes(amount as nat, 16)).add(le_bytes(0, 8))
}

/// Key of a validator change: the encoding of `(tag, account)`.
pub open spec fn validator_key(tag: Seq<char>, account: AccountId) -> Seq<u8> {
    short_str_bytes(tag).add(le_bytes(account as nat, 8))
}

/// Key of a pause or resume: the encoding of `(tag, 0u64)`.
pub open spec fn bridge_key(tag: Seq<char>) -> Seq<u8> {
    short_str_bytes(tag).add(le_bytes(0, 8))
}

/// Relies on parity_codec's `Encode` for `u64`: eight little-endian bytes.
#[verifier::external_body]
fn encode_u64(v: u64) -> (r: Vec<u8>)
    ensures
        r@ == le_bytes(v as nat, 8),
{
    v.encode()
}

/// Relies on parity_codec's `Encode` for `u128`: sixteen little-endian bytes.
#[verifier::external_body]
fn encode_u128(v: u128) -> (r: Vec<u8>)
    ensures
        r@ == le_bytes(v as nat, 16),
{
    v.encode()
}

/// Relies on parity_codec's `Encode` for `[u8; 20]`: the bytes as they stand.
#[verifier::external_body]
fn encode_h160(a: &H160) -> (r: Vec<u8>)
    ensures
        r@ == a@,
{
    a.encode()
}

/// Relies on parity_codec's `Encode` for `&str`: a compact length (one byte below
/// 64), then the UTF-8 bytes, which are the chars themselves for ASCII.
#[verifier::external_body]
fn encode_str(s: &str) -> (r: Vec<u8>)
    requires
        is_short_ascii(s@),
    ensures
        r@ == short_str_bytes(s@),
{
    s.encode()
}

/// Content key of a withdrawal of `amount` from `from` to the external address `to`.
pub fn transfer_message_key(from: AccountId, to: &H160, amount: TokenBalance) -> (r: Vec<u8>)
    ensures
        r@ == transfer_key(from, to@, amount),
{
    let mut r = encode_u64(from);
    let mut t = encode_h160(to);
    r.append(&mut t);
    let mut a = encode_u128(amount);
    r.append(&mut a);
    let mut z = encode_u64(0);
    r.append(&mut z);
    r
}

/// Content key of the proposal to add `account` to the validator set.
pub fn add_validator_key(account: AccountId) -> (r: Vec<u8>)
    ensures
        r@ == validator_key("add"@, account),
{
    proof { reveal_strlit("add"); }
    let mut r = encode_str("add");
    let mut a = encode_u64(account);
    r.append(&mut a);
    r
}

/// Content key of the proposal to remove `account` from the validator set.
pub fn remove_validator_key(account: AccountId) -> (r: Vec<u8>)
    ensures
        r@ == validator_key("remove"@, account),
{
    proof { reveal_strlit("remove"); }
    let mut r = encode_str("remove");
    let mut a = encode_u64(account);
    r.append(&mut a);
    r
}

/// Content key of the proposal to pause the bridge.
pub fn pause_key() -> (r: Vec<u8>)
    ensures
        r@ == bridge_key("pause"@),
{
    proof { reveal_strlit("pause"); }
    let mut r = encode_str("pause");
    let mut z = encode_u64(0);
    r.append(&mut z);
    r
}

/// Content key of the proposal to resume the bridge.
pub fn resume_key() -> (r: Vec<u8>)
    ensures
        r@ == bridge_key("resume"@),
{
    proof { reveal_strlit("resume"); }
    let mut r = encode_str("resume");
    let mut z = encode_u64(0);
    r.append(&mut z);
    r
}

/// A copy of `v`.
pub fn copy_bytes(v: &Vec<u8>) -> (r: Vec<u8>)
    ensures
        r@ == v@,
{
    let r = v.clone();
    assert(r@ =~= v@);
    r
}

/// Whether two byte strings are equal.
pub fn bytes_eq(a: &Vec<u8>, b: &Vec<u8>) -> (r: bool)
    ensures
        r == (a@ == b@),
{
    if a.len() != b.len() {
        return false;
    }
    let mut i: usize = 0;
    while i < a.len()
        invariant
            a@.len() == b@.len(),
            0 <= i <= a@.len(),
            forall|j: int| 0 <= j < i ==> a@[j] == b@[j],
        decreases a@.len() - i,
    {
        if a[i] != b[i] {
            return false;
        }
        i = i + 1;
    }
    assert(a@ =~= b@);
    true
}

} // verus!
