//! A verified SHA-256 implementation.
//!
//! The digest of a byte sequence is defined by pure specification
//! functions (padding, message-schedule expansion, the 64-round
//! compression function, and state chaining across 64-byte blocks),
//! and the executable code is proved to return exactly that digest.
use vstd::prelude::*;

pub mod bits;
pub mod constants;
pub mod padding;
pub mod compress;

verus! {

use crate::compress::{block_at, spec_compress_block, compress_block};
use crate::constants::spec_initial_state;
use crate::constants::initial_hash;
use crate::padding::{spec_pad, k_of_l, preprocess_message};

/// The hash state after the first `i` blocks of a padded message,
/// starting from the fixed initial state; blocks are chained in
/// order, each compression reading the state the one before left.
pub open spec fn state_after(padded: Seq<u8>, i: int) -> Seq<u32>
    recommends
        padded.len() % 64 == 0,
        0 <= i <= padded.len() / 64,
    decreases i,
{
    if i <= 0 {
        spec_initial_state()
    } else {
        spec_compress_block(state_after(padded, i - 1), block_at(padded, i - 1))
    }
}

/// The 32 digest bytes of an 8-word state: each word written most
/// significant byte first, words in index order.
pub open spec fn spec_digest_bytes(hs: Seq<u32>) -> Seq<u8>
    recommends
        hs.len() == 8,
{
    Seq::new(32, |i: int| ((hs[i / 4] >> ((8 * (3 - (i % 4))) as u32)) & 0xff) as u8)
}

/// The SHA-256 digest of a byte sequence: pad, fold every 64-byte
/// block into the hash state in order, and serialize the final state.
pub open spec fn spec_sha256(m: Seq<u8>) -> Seq<u8>
    recommends
        m.len() < 0x2000000000000000,
{
    let padded = spec_pad(m);
    spec_digest_bytes(state_after(padded, padded.len() as int / 64))
}

/// Serializes the final 8-word state into the 32 digest bytes.
fn digest_of_state(hs: &Vec<u32>) -> (r: Vec<u8>)
    requires
        hs@.len() == 8,
    ensures
        r@ == spec_digest_bytes(hs@),
{
    let mut r: Vec<u8> = Vec::new();
    let mut i: usize = 0;
    while i < 32
        invariant
            i <= 32,
            hs@.len() == 8,
            r@.len() == i,
            forall|q: int| 0 <= q < i ==> r@[q] == spec_digest_bytes(hs@)[q],
        decreases 32 - i,
    {
        let word: u32 = hs[i / 4];
        let sh: u32 = 8 * (3 - (i % 4) as u32);
        proof {
            assert((word >> sh) & 0xff < 256) by (bit_vector);
        }
        let byte: u8 = ((word >> sh) & 0xff) as u8;
        proof {
            assert(byte == spec_digest_bytes(hs@)[i as int]);
        }
        r.push(byte);
        i += 1;
    }
    proof {
        assert(r@ =~= spec_digest_bytes(hs@));
    }
    r
}

/// Computes the SHA-256 digest of the message, padding it in place
/// first. The 32 returned bytes are determined by the input bytes
/// alone, so hashing the same sequence any number of times yields the
/// identical digest.
#[verifier::rlimit(30)]
pub fn sha256_of_message_as_u8_vec(message: &mut Vec<u8>) -> (digest: Box<Vec<u8>>)
    requires
        old(message)@.len() < 0x2000000000000000,
    ensures
        digest@ == spec_sha256(old(message)@),
        digest@.len() == 32,
        final(message)@ == spec_pad(old(message)@),
{
    let ghost m0 = old(message)@;
    let byte_length: usize = message.len();
    let bit_length: u64 = (byte_length as u64) * 8;
    let k: u64 = k_of_l(bit_length);
    preprocess_message(message, bit_length, k);
    let ghost padded = message@;
    let num_blocks: usize = message.len() / 64;
    proof {
        vstd::arithmetic::div_mod::lemma_fundamental_div_mod(padded.len() as int, 64);
        assert(padded.len() == 64 * (num_blocks as int));
    }
    let mut hash_value: Vec<u32> = initial_hash();
    let mut i: usize = 0;
    while i < num_blocks
        invariant
            i <= num_blocks,
            message@ == padded,
            padded.len() % 64 == 0,
            padded.len() <= usize::MAX,
            num_blocks == padded.len() / 64,
            padded.len() == 64 * (num_blocks as int),
            hash_value@.len() == 8,
            hash_value@ == state_after(padded, i as int),
        decreases num_blocks - i,
    {
        compress_block(&mut hash_value, message, i);
        i += 1;
    }
    let digest_vec: Vec<u8> = digest_of_state(&hash_value);
    Box::new(digest_vec)
}

} // verus!
