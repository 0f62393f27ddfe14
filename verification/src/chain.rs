//! The hash-chain engine: apply SHA-256 to a 32-byte state, feeding each
//! digest back as the next input, for exactly `count` iterations.

use vstd::prelude::*;
use sha2::Digest;

verus! {

/// The SHA-256 digest of a byte sequence. SHA-256 is a fixed function of its
/// input bytes alone; its value on given bytes is left unstated and is pinned
/// only by the trusted wrapper below.
pub uninterp spec fn sha256_of(bytes: Seq<u8>) -> Seq<u8>;

/// Relies on sha2::Sha256 through the digest::Digest trait: `digest` returns
/// the SHA-256 digest of the input bytes, 32 bytes determined by those bytes
/// alone.
#[verifier::external_body]
fn sha256_step(state: &[u8; 32]) -> (r: [u8; 32])
    ensures
        r@ == sha256_of(state@),
{
    let out = sha2::Sha256::digest(state);
    out.into()
}

/// The chain state after `n` iterations: the seed itself for `n == 0`, and
/// the SHA-256 digest of the previous state for each further iteration.
pub open spec fn spec_hash_chain(n: nat, seed: Seq<u8>) -> Seq<u8>
    decreases n,
{
    if n == 0 {
        seed
    } else {
        sha256_of(spec_hash_chain((n - 1) as nat, seed))
    }
}

/// Law: zero iterations is the identity — the chain over an empty run of
/// hashing steps returns the seed unchanged.
pub proof fn lemma_chain_zero(seed: Seq<u8>)
    ensures
        spec_hash_chain(0, seed) == seed,
{
}

/// Law: chain composition — one more iteration hashes the previous chain
/// value once.
pub proof fn lemma_chain_step(n: nat, seed: Seq<u8>)
    ensures
        spec_hash_chain(n + 1, seed) == sha256_of(spec_hash_chain(n, seed)),
{
}

/// Law: the chain is deterministic — its value is a function of the
/// iteration count and the seed alone, so two runs on equal inputs agree.
pub proof fn lemma_chain_deterministic(n1: nat, seed1: Seq<u8>, n2: nat, seed2: Seq<u8>)
    requires
        n1 == n2,
        seed1 == seed2,
    ensures
        spec_hash_chain(n1, seed1) == spec_hash_chain(n2, seed2),
{
}

/// Run the hash chain: apply SHA-256 to the state exactly `count` times,
/// starting from `seed`, reusing one 32-byte state buffer throughout.
pub fn hash_chain(count: u64, seed: &[u8; 32]) -> (r: [u8; 32])
    ensures
        r@ == spec_hash_chain(count as nat, seed@),
{
    let mut state: [u8; 32] = *seed;
    for i in 0..count
        invariant
            state@ == spec_hash_chain(i as nat, seed@),
    {
        state = sha256_step(&state);
    }
    state
}

} // verus!
