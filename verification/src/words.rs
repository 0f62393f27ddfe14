//! Output word encoding: a 32-byte digest is exposed as eight unsigned
//! 32-bit words, word `i` being the big-endian interpretation of digest
//! bytes `[4i, 4i+4)`.

use vstd::prelude::*;
use vstd::arithmetic::div_mod::lemma_fundamental_div_mod;
use vstd::arithmetic::div_mod::lemma_fundamental_div_mod_converse;

verus! {

/// The big-endian 32-bit value formed from four bytes, most significant first.
pub open spec fn spec_be_word(b0: u8, b1: u8, b2: u8, b3: u8) -> u32 {
    (b0 * 0x100_0000 + b1 * 0x1_0000 + b2 * 0x100 + b3) as u32
}

/// Output word `i` of a 32-byte digest.
pub open spec fn spec_word_at(digest: Seq<u8>, i: int) -> u32
    recommends
        digest.len() == 32,
        0 <= i < 8,
{
    spec_be_word(digest[4 * i], digest[4 * i + 1], digest[4 * i + 2], digest[4 * i + 3])
}

/// All eight output words of a 32-byte digest, in index order.
pub open spec fn spec_words(digest: Seq<u8>) -> Seq<u32>
    recommends
        digest.len() == 32,
{
    Seq::new(8, |i: int| spec_word_at(digest, i))
}

/// Byte `j` (big-endian, most significant first) of a 32-bit word.
pub open spec fn spec_word_byte(w: u32, j: int) -> u8
    recommends
        0 <= j < 4,
{
    if j == 0 {
        (w / 0x100_0000) as u8
    } else if j == 1 {
        ((w / 0x1_0000) % 0x100) as u8
    } else if j == 2 {
        ((w / 0x100) % 0x100) as u8
    } else {
        (w % 0x100) as u8
    }
}

/// The byte sequence obtained by concatenating each word big-endian.
pub open spec fn spec_words_bytes(ws: Seq<u32>) -> Seq<u8> {
    Seq::new(4 * ws.len(), |i: int| spec_word_byte(ws[i / 4], i % 4))
}

/// Splitting a big-endian word back into bytes recovers the four bytes.
proof fn lemma_be_word_bytes(b0: u8, b1: u8, b2: u8, b3: u8)
    ensures
        spec_word_byte(spec_be_word(b0, b1, b2, b3), 0) == b0,
        spec_word_byte(spec_be_word(b0, b1, b2, b3), 1) == b1,
        spec_word_byte(spec_be_word(b0, b1, b2, b3), 2) == b2,
        spec_word_byte(spec_be_word(b0, b1, b2, b3), 3) == b3,
{
    let w = spec_be_word(b0, b1, b2, b3) as int;
    lemma_fundamental_div_mod_converse(w, 0x100_0000, b0 as int, b1 * 0x1_0000 + b2 * 0x100 + b3);
    lemma_fundamental_div_mod_converse(w, 0x1_0000, b0 * 0x100 + b1, b2 * 0x100 + b3);
    lemma_fundamental_div_mod_converse(w, 0x100, b0 * 0x1_0000 + b1 * 0x100 + b2, b3 as int);
    lemma_fundamental_div_mod_converse(b0 * 0x100 + b1, 0x100, b0 as int, b1 as int);
    lemma_fundamental_div_mod_converse(
        b0 * 0x1_0000 + b1 * 0x100 + b2,
        0x100,
        b0 * 0x100 + b1,
        b2 as int,
    );
}

/// Law: concatenating all eight output words big-endian reconstructs the
/// original 32-byte digest exactly.
pub proof fn lemma_words_reconstruct(digest: Seq<u8>)
    requires
        digest.len() == 32,
    ensures
        spec_words_bytes(spec_words(digest)) == digest,
{
    let ws = spec_words(digest);
    assert forall|i: int| 0 <= i < 32 implies spec_words_bytes(ws)[i] == digest[i] by {
        lemma_fundamental_div_mod(i, 4);
        let q = i / 4;
        let r = i % 4;
        lemma_be_word_bytes(
            digest[4 * q],
            digest[4 * q + 1],
            digest[4 * q + 2],
            digest[4 * q + 3],
        );
    }
    assert(spec_words_bytes(ws) =~= digest);
}

/// Encode a 32-byte digest as eight big-endian 32-bit output words.
pub fn digest_words(digest: &[u8; 32]) -> (r: [u32; 8])
    ensures
        r@ == spec_words(digest@),
{
    let mut ws: [u32; 8] = [0u32; 8];
    for i in 0..8usize
        invariant
            forall|k: int| 0 <= k < i ==> ws@[k] == spec_word_at(digest@, k),
    {
        let b0 = digest[4 * i];
        let b1 = digest[4 * i + 1];
        let b2 = digest[4 * i + 2];
        let b3 = digest[4 * i + 3];
        ws[i] = (b0 as u32) * 0x100_0000 + (b1 as u32) * 0x1_0000 + (b2 as u32) * 0x100 + (
        b3 as u32);
    }
    assert(ws@ =~= spec_words(digest@));
    ws
}

} // verus!
