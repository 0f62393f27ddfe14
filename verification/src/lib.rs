//! A deterministic hash-chain evaluator.
//!
//! A fixed-layout binary input buffer carries a public iteration count and a
//! private 256-bit seed. The evaluator applies SHA-256 to the seed, feeding
//! each digest back as the next input, for exactly `count` iterations, and
//! exposes the final digest as eight big-endian 32-bit words.

use vstd::prelude::*;

mod chain;
mod decode;
mod words;

pub use chain::hash_chain;
pub use decode::build_input;
pub use decode::decode_input;
pub use decode::lemma_decode_deterministic;
pub use decode::spec_count;
pub use decode::spec_pad32;
pub use decode::spec_seed;
pub use decode::ChainInput;
pub use decode::DecodeError;
pub use chain::lemma_chain_deterministic;
pub use chain::lemma_chain_step;
pub use chain::lemma_chain_zero;
pub use chain::sha256_of;
pub use chain::spec_hash_chain;
pub use words::digest_words;
pub use words::lemma_words_reconstruct;
pub use words::spec_be_word;
pub use words::spec_word_at;
pub use words::spec_word_byte;
pub use words::spec_words;
pub use words::spec_words_bytes;

verus! {

/// The eight output words owed to an input buffer: decode it, run the hash
/// chain, and split the final digest into big-endian words.
pub open spec fn spec_evaluate(bytes: Seq<u8>) -> Seq<u32>
    recommends
        bytes.len() >= 40,
{
    spec_words(spec_hash_chain(spec_count(bytes) as nat, spec_seed(bytes)))
}

/// Evaluate the whole core on one input buffer: decode `(count, seed)`,
/// apply SHA-256 `count` times starting from the seed, and return the final
/// digest as eight big-endian 32-bit words.
///
/// Succeeds on every buffer of at least 40 bytes and fails with
/// `MalformedInput` on every shorter one, before any hashing occurs.
pub fn evaluate(input: &Vec<u8>) -> (r: Result<[u32; 8], DecodeError>)
    ensures
        input@.len() >= 40 ==> r is Ok && r->Ok_0@ == spec_evaluate(input@),
        input@.len() < 40 ==> r == Err::<[u32; 8], DecodeError>(DecodeError::MalformedInput),
{
    let decoded = match decode_input(input) {
        Ok(d) => d,
        Err(e) => {
            return Err(e);
        },
    };
    let digest = hash_chain(decoded.count, &decoded.seed);
    Ok(digest_words(&digest))
}

} // verus!
