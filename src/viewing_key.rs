//! Viewing keys: derivation, installation and constant-time checking of a
//! per-account secret of which only the hash is stored.

use vstd::prelude::*;
use vstd::string::StringExecFns;
use vstd::utf8::encode_utf8;

use crate::crypto::{base64_of, ct_eq, prng_block, prng_bytes, sha256_of, sha_256, to_base64};
use crate::state::{AuthState, AuthView};

verus! {

/// Block data mixed into every derived key.
pub struct BlockInfo {
    pub height: u64,
    pub time_seconds: u64,
}

/// The length in bytes of a stored key hash.
pub const KEY_HASH_SIZE: usize = 32;

/// The big-endian bytes of `n`.
pub open spec fn be_bytes(n: u64) -> Seq<u8> {
    seq![
        (n >> 56u64) as u8,
        (n >> 48u64) as u8,
        (n >> 40u64) as u8,
        (n >> 32u64) as u8,
        (n >> 24u64) as u8,
        (n >> 16u64) as u8,
        (n >> 8u64) as u8,
        n as u8,
    ]
}

/// The text that starts every derived key.
pub open spec fn key_prefix() -> Seq<char> {
    seq!['a', 'p', 'i', '_', 'k', 'e', 'y', '_']
}

/// What a derived key draws on besides the seed: block height, block time,
/// the requesting account and the caller's own entropy.
pub open spec fn key_entropy(block: BlockInfo, account: Seq<char>, entropy: Seq<u8>) -> Seq<u8> {
    be_bytes(block.height) + be_bytes(block.time_seconds) + encode_utf8(account) + entropy
}

/// The random block from which a key is derived; it also becomes the next seed.
pub open spec fn key_material(
    v: AuthView,
    block: BlockInfo,
    account: Seq<char>,
    entropy: Seq<u8>,
) -> Seq<u8> {
    prng_block(v.seed, key_entropy(block, account, entropy))
}

/// The key that `create_key` hands out.
pub open spec fn created_key(
    v: AuthView,
    block: BlockInfo,
    account: Seq<char>,
    entropy: Seq<u8>,
) -> Seq<char> {
    key_prefix() + base64_of(sha256_of(key_material(v, block, account, entropy)))
}

/// The hash under which a key is stored.
pub open spec fn key_hash_of(key: Seq<char>) -> Seq<u8> {
    sha256_of(encode_utf8(key))
}

/// The state after `account` installs `key`.
pub open spec fn after_set(v: AuthView, account: Seq<char>, key: Seq<char>) -> AuthView {
    AuthView { keys: v.keys.insert(account, key_hash_of(key)), ..v }
}

/// The state after `account` has a key derived for it.
pub open spec fn after_create(
    v: AuthView,
    block: BlockInfo,
    account: Seq<char>,
    entropy: Seq<u8>,
) -> AuthView {
    AuthView {
        seed: key_material(v, block, account, entropy),
        ..after_set(v, account, created_key(v, block, account, entropy))
    }
}

/// Whether `key` is the live key of `account`. An account without a key
/// accepts nothing.
pub open spec fn key_valid(v: AuthView, account: Seq<char>, key: Seq<char>) -> bool {
    v.keys.contains_key(account) && v.keys[account] == key_hash_of(key)
}

/// An account that has no key accepts no key.
pub proof fn lemma_unset_account_rejects(v: AuthView, account: Seq<char>, key: Seq<char>)
    requires
        !v.keys.contains_key(account),
    ensures
        !key_valid(v, account, key),
{
}

/// A freshly created key is accepted at once; a string whose hash differs
/// from the new key's is refused.
pub proof fn lemma_created_key_accepted(
    v: AuthView,
    block: BlockInfo,
    account: Seq<char>,
    entropy: Seq<u8>,
    other: Seq<char>,
)
    ensures
        key_valid(
            after_create(v, block, account, entropy),
            account,
            created_key(v, block, account, entropy),
        ),
        key_hash_of(other) != key_hash_of(created_key(v, block, account, entropy)) ==> !key_valid(
            after_create(v, block, account, entropy),
            account,
            other,
        ),
{
}

/// An installed key is accepted; once another key with a different hash is
/// installed for the account, the first is refused.
pub proof fn lemma_set_key_replaces(v: AuthView, account: Seq<char>, first: Seq<char>, second: Seq<char>)
    ensures
        key_valid(after_set(v, account, first), account, first),
        key_hash_of(second) != key_hash_of(first) ==> !key_valid(
            after_set(after_set(v, account, first), account, second),
            account,
            first,
        ),
{
}

fn be_bytes_of(n: u64) -> (r: Vec<u8>)
    ensures
        r@ == be_bytes(n),
{
    let r = vec![
        (n >> 56u64) as u8,
        (n >> 48u64) as u8,
        (n >> 40u64) as u8,
        (n >> 32u64) as u8,
        (n >> 24u64) as u8,
        (n >> 16u64) as u8,
        (n >> 8u64) as u8,
        n as u8,
    ];
    assert(r@ =~= be_bytes(n));
    r
}

fn append_bytes(dst: &mut Vec<u8>, src: &[u8])
    ensures
        final(dst)@ == old(dst)@ + src@,
{
    let mut i: usize = 0;
    while i < src.len()
        invariant
            i <= src@.len(),
            dst@ == old(dst)@ + src@.subrange(0, i as int),
        decreases src@.len() - i,
    {
        dst.push(src[i]);
        i = i + 1;
        assert(dst@ =~= old(dst)@ + src@.subrange(0, i as int));
    }
    assert(src@.subrange(0, src@.len() as int) =~= src@);
}

/// Derives a fresh key for `account`, stores its hash, advances the seed and
/// returns the key. Any earlier key of the account stops working.
pub fn create_key(state: &mut AuthState, block: &BlockInfo, account: &str, entropy: &[u8]) -> (r:
    String)
    requires
        old(state).wf(),
    ensures
        final(state).wf(),
        r@ == created_key(old(state)@, *block, account@, entropy@),
        final(state)@ == after_create(old(state)@, *block, account@, entropy@),
{
    let mut mixed = be_bytes_of(block.height);
    append_bytes(&mut mixed, be_bytes_of(block.time_seconds).as_slice());
    append_bytes(&mut mixed, account.as_bytes());
    append_bytes(&mut mixed, entropy);
    let material = prng_bytes(state.seed().as_slice(), mixed.as_slice());
    let digest = sha_256(material.as_slice());
    let encoded = to_base64(digest.as_slice());
    let key = String::from_str("api_key_").concat(encoded.as_str());
    proof {
        reveal_strlit("api_key_");
        assert(mixed@ =~= key_entropy(*block, account@, entropy@));
        assert(key@ =~= created_key(old(state)@, *block, account@, entropy@));
    }
    let key_hash = sha_256(key.as_str().as_bytes());
    state.set_key_hash(account.to_owned(), key_hash);
    state.set_seed(material);
    key
}

/// Installs `key` as the live key of `account`, replacing any earlier one.
/// The key is taken as it is, with no check of its form.
pub fn set_key(state: &mut AuthState, account: &str, key: &str)
    requires
        old(state).wf(),
    ensures
        final(state).wf(),
        final(state)@ == after_set(old(state)@, account@, key@),
{
    let key_hash = sha_256(key.as_bytes());
    state.set_key_hash(account.to_owned(), key_hash);
}

/// Checks `key` against the live key of `account`. The hashes are compared in
/// constant time; an account without a key is compared against an all-zero
/// hash as well, so that the time taken does not tell whether it has one, and
/// is then refused whatever the outcome.
pub fn check_key(state: &AuthState, account: &str, key: &str) -> (r: bool)
    requires
        state.wf(),
    ensures
        r == key_valid(state@, account@, key@),
{
    let key_hash = sha_256(key.as_bytes());
    let owner = account.to_owned();
    match state.key_hash(&owner) {
        Some(stored) => ct_eq(key_hash.as_slice(), stored.as_slice()),
        None => {
            let sentinel = vec![0u8; KEY_HASH_SIZE];
            let _ = ct_eq(key_hash.as_slice(), sentinel.as_slice());
            false
        },
    }
}

} // verus!
