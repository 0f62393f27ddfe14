//! The input decoder: a fixed-layout binary buffer of at least 40 bytes
//! carries the public iteration count (bytes [0, 8), little-endian u64) and
//! the private seed (bytes [8, 40), raw). The count is little-endian while
//! the output words are big-endian; the asymmetry is part of the format.

use vstd::prelude::*;
use vstd::bytes::lemma_auto_spec_u64_to_from_le_bytes;
use vstd::bytes::spec_u64_from_le_bytes;
use vstd::bytes::spec_u64_to_le_bytes;
use vstd::bytes::u64_from_le_bytes;
use vstd::bytes::u64_to_le_bytes;
use vstd::slice::slice_subrange;

verus! {

/// The decoder's only failure: a buffer too short to carry both fields.
#[derive(Clone, Copy, Debug, PartialEq, Eq, Structural)]
pub enum DecodeError {
    MalformedInput,
}

/// A decoded input: the public iteration count and the private 32-byte seed.
#[derive(Clone, Copy, Debug, PartialEq, Eq)]
pub struct ChainInput {
    pub count: u64,
    pub seed: [u8; 32],
}

/// The iteration count carried by an input buffer: bytes [0, 8) read as a
/// little-endian u64.
pub open spec fn spec_count(bytes: Seq<u8>) -> u64
    recommends
        bytes.len() >= 40,
{
    spec_u64_from_le_bytes(bytes.subrange(0, 8))
}

/// The seed carried by an input buffer: bytes [8, 40), raw.
pub open spec fn spec_seed(bytes: Seq<u8>) -> Seq<u8>
    recommends
        bytes.len() >= 40,
{
    bytes.subrange(8, 40)
}

/// Law: decoding is deterministic — both decoded fields are functions of the
/// input bytes alone, so equal buffers decode identically.
pub proof fn lemma_decode_deterministic(a: Seq<u8>, b: Seq<u8>)
    requires
        a == b,
    ensures
        spec_count(a) == spec_count(b),
        spec_seed(a) == spec_seed(b),
{
}

/// Decode an input buffer into `(count, seed)`.
///
/// Succeeds on every buffer of at least 40 bytes, whatever its contents, and
/// fails with `MalformedInput` on every shorter buffer; the length is checked
/// before either field is read.
pub fn decode_input(input: &Vec<u8>) -> (r: Result<ChainInput, DecodeError>)
    ensures
        input@.len() >= 40 ==> {
            &&& r is Ok
            &&& r->Ok_0.count == spec_count(input@)
            &&& r->Ok_0.seed@ == spec_seed(input@)
        },
        input@.len() < 40 ==> r == Err::<ChainInput, DecodeError>(DecodeError::MalformedInput),
{
    if input.len() < 40 {
        return Err(DecodeError::MalformedInput);
    }
    let count = u64_from_le_bytes(slice_subrange(input.as_slice(), 0, 8));
    let mut seed: [u8; 32] = [0u8; 32];
    for j in 0..32usize
        invariant
            input@.len() >= 40,
            forall|k: int| 0 <= k < j ==> seed@[k] == input@[8 + k],
    {
        seed[j] = input[8 + j];
    }
    assert(seed@ =~= spec_seed(input@));
    Ok(ChainInput { count, seed })
}

/// The 32-byte seed derived from a secret of any length: truncated after 32
/// bytes, padded with zero bytes when shorter.
pub open spec fn spec_pad32(secret: Seq<u8>) -> Seq<u8> {
    Seq::new(32, |i: int| if i < secret.len() { secret[i] } else { 0u8 })
}

/// Assemble an input buffer from a count and a secret: the count as 8
/// little-endian bytes, then the secret truncated or zero-padded to 32
/// bytes. Decoding the result recovers `count` and the padded secret.
pub fn build_input(count: u64, secret: &Vec<u8>) -> (r: Vec<u8>)
    ensures
        r@.len() == 40,
        spec_count(r@) == count,
        spec_seed(r@) == spec_pad32(secret@),
{
    let mut buf = u64_to_le_bytes(count);
    let mut j: usize = 0;
    while j < 32
        invariant
            j <= 32,
            buf@.len() == 8 + j,
            forall|k: int| 0 <= k < 8 ==> buf@[k] == spec_u64_to_le_bytes(count)[k],
            forall|k: int| 0 <= k < j ==> buf@[8 + k] == spec_pad32(secret@)[k],
        decreases 32 - j,
    {
        if j < secret.len() {
            buf.push(secret[j]);
        } else {
            buf.push(0u8);
        }
        j += 1;
    }
    proof {
        lemma_auto_spec_u64_to_from_le_bytes();
        assert(buf@.subrange(0, 8) =~= spec_u64_to_le_bytes(count));
        assert(spec_seed(buf@) =~= spec_pad32(secret@));
    }
    buf
}

} // verus!
