//! Message padding: a set bit, zero bits up to 448 bits into the final
//! 512-bit block, and the original bit length as a 64-bit big-endian
//! field, so that the padded message is a whole number of 64-byte
//! blocks.
use vstd::prelude::*;

verus! {

use vstd::arithmetic::div_mod::{
    lemma_fundamental_div_mod,
    lemma_mod_mod,
    lemma_add_mod_noop,
    lemma_small_mod,
    lemma_mod_multiples_vanish,
    lemma_mod_multiples_basic,
    lemma_mod_division_less_than_divisor,
    lemma_div_multiples_vanish,
};

/// The number of zero bits appended after the leading set bit for a
/// message of bit length `l`: the unique value in [0, 512) that leaves
/// the message 448 bits into its final 512-bit block.
pub open spec fn spec_k(l: int) -> int {
    let r = (l + 1) % 512;
    if r <= 448 {
        448 - r
    } else {
        (512 - r) + 448
    }
}

/// Padding invariant: for every bit length `l >= 0`, the zero-bit
/// count satisfies `(l + 1 + k) % 512 == 448`, and with the 64-bit
/// length field the padded bit length is a multiple of 512.
pub proof fn lemma_padding_length(l: int)
    requires
        l >= 0,
    ensures
        (l + 1 + spec_k(l)) % 512 == 448,
        (l + 1 + spec_k(l) + 64) % 512 == 0,
{
    let r = (l + 1) % 512;
    let q = (l + 1) / 512;
    lemma_fundamental_div_mod(l + 1, 512);
    lemma_small_mod(448, 512);
    if r <= 448 {
        assert(l + 1 + spec_k(l) == 512 * q + 448);
        lemma_mod_multiples_vanish(q, 448, 512);
        assert(l + 1 + spec_k(l) + 64 == 512 * (q + 1) + 0);
        lemma_mod_multiples_vanish(q + 1, 0, 512);
        lemma_small_mod(0, 512);
    } else {
        assert(l + 1 + spec_k(l) == 512 * (q + 1) + 448);
        lemma_mod_multiples_vanish(q + 1, 448, 512);
        assert(l + 1 + spec_k(l) + 64 == 512 * (q + 2) + 0);
        lemma_mod_multiples_vanish(q + 2, 0, 512);
        lemma_small_mod(0, 512);
    }
}

/// For byte-aligned bit lengths the zero-bit count is congruent to 7
/// modulo 8 and lies between 7 and 511, so the appended padding always
/// fills whole bytes.
pub proof fn lemma_k_bytes(l: int)
    requires
        l >= 0,
        l % 8 == 0,
    ensures
        spec_k(l) % 8 == 7,
        7 <= spec_k(l) <= 511,
{
    let r = (l + 1) % 512;
    lemma_mod_mod(l + 1, 8, 64);
    lemma_add_mod_noop(l, 1, 8);
    lemma_small_mod(1, 8);
    assert(r % 8 == 1);
    lemma_mod_division_less_than_divisor(l + 1, 512);
    lemma_fundamental_div_mod(r, 8);
    let s = r / 8;
    assert(r == 8 * s + 1);
    lemma_small_mod(7, 8);
    if r <= 448 {
        assert(spec_k(l) == 8 * (55 - s) + 7);
        lemma_mod_multiples_vanish(55 - s, 7, 8);
    } else {
        assert(spec_k(l) == 8 * (119 - s) + 7);
        lemma_mod_multiples_vanish(119 - s, 7, 8);
    }
}

/// The number of zero bytes the padding inserts between the 0x80 byte
/// and the length field, for a message of bit length `l`.
pub open spec fn spec_zero_bytes(l: int) -> int {
    (spec_k(l) - 7) / 8
}

/// The 8-byte big-endian encoding of the bit length `l`.
pub open spec fn spec_len_bytes(l: u64) -> Seq<u8> {
    Seq::new(8, |i: int| ((l >> ((8 * (7 - i)) as u64)) & 0xff) as u8)
}

/// An 8-byte sequence read as a big-endian unsigned integer.
pub open spec fn be_value64(s: Seq<u8>) -> int
    recommends
        s.len() == 8,
{
    s[0] * 0x100000000000000 + s[1] * 0x1000000000000 + s[2] * 0x10000000000 + s[3] * 0x100000000
        + s[4] * 0x1000000 + s[5] * 0x10000 + s[6] * 0x100 + s[7]
}

/// Reading the 8-byte big-endian encoding back gives the encoded value.
pub proof fn lemma_len_bytes_value(l: u64)
    ensures
        be_value64(spec_len_bytes(l)) == l,
{
    let s = spec_len_bytes(l);
    assert(s[0] == ((l >> 56) & 0xff) as u8);
    assert(s[1] == ((l >> 48) & 0xff) as u8);
    assert(s[2] == ((l >> 40) & 0xff) as u8);
    assert(s[3] == ((l >> 32) & 0xff) as u8);
    assert(s[4] == ((l >> 24) & 0xff) as u8);
    assert(s[5] == ((l >> 16) & 0xff) as u8);
    assert(s[6] == ((l >> 8) & 0xff) as u8);
    assert(s[7] == ((l >> 0) & 0xff) as u8);
    assert((((l >> 56) & 0xff) as u8) * 0x100000000000000 + (((l >> 48) & 0xff) as u8)
        * 0x1000000000000 + (((l >> 40) & 0xff) as u8) * 0x10000000000 + (((l >> 32) & 0xff) as u8)
        * 0x100000000 + (((l >> 24) & 0xff) as u8) * 0x1000000 + (((l >> 16) & 0xff) as u8)
        * 0x10000 + (((l >> 8) & 0xff) as u8) * 0x100 + (((l >> 0) & 0xff) as u8) == l)
        by (bit_vector);
}

/// The padded form of a message: the message itself, one 0x80 byte,
/// zero bytes up to 8 bytes short of a 64-byte boundary, and the
/// original bit length as a big-endian 64-bit field.
pub open spec fn spec_pad(m: Seq<u8>) -> Seq<u8>
    recommends
        m.len() < 0x2000000000000000,
{
    let l = 8 * m.len();
    m + seq![0x80u8] + Seq::new(spec_zero_bytes(l as int) as nat, |i: int| 0u8) + spec_len_bytes(
        l as u64,
    )
}

/// Shape of the padded message: its length is a multiple of 64, at
/// least one whole block, and its last 8 bytes are the encoded bit
/// length.
pub proof fn lemma_pad_shape(m: Seq<u8>)
    requires
        m.len() < 0x2000000000000000,
    ensures
        spec_pad(m).len() == m.len() + 1 + spec_zero_bytes(8 * m.len() as int) + 8,
        spec_pad(m).len() % 64 == 0,
        spec_pad(m).len() >= 64,
        spec_pad(m).subrange(
            spec_pad(m).len() - 8,
            spec_pad(m).len() as int,
        ) == spec_len_bytes((8 * m.len()) as u64),
{
    let l = 8 * m.len() as int;
    let k = spec_k(l);
    lemma_mod_multiples_basic(m.len() as int, 8);
    assert(l % 8 == 0);
    lemma_k_bytes(l);
    lemma_padding_length(l);
    lemma_fundamental_div_mod(k, 8);
    assert(k - 7 == 8 * (k / 8));
    lemma_div_multiples_vanish(k / 8, 8);
    assert(spec_zero_bytes(l) == k / 8);
    let plen = spec_pad(m).len() as int;
    assert(plen == m.len() + 1 + spec_zero_bytes(l) + 8);
    assert(8 * plen == l + 1 + k + 64);
    let t = l + 1 + k + 64;
    lemma_fundamental_div_mod(t, 512);
    let q = t / 512;
    assert(t == 512 * q);
    assert(plen == 64 * q);
    lemma_mod_multiples_basic(q, 64);
    assert(plen % 64 == 0);
    assert(plen >= 64);
    assert(spec_pad(m).subrange(plen - 8, plen) =~= spec_len_bytes((8 * m.len()) as u64));
}

/// Length round-trip: the last 8 bytes of any padded message, read as
/// a big-endian unsigned integer, equal the original message's bit
/// length.
pub proof fn lemma_length_round_trip(m: Seq<u8>)
    requires
        m.len() < 0x2000000000000000,
    ensures
        be_value64(
            spec_pad(m).subrange(spec_pad(m).len() - 8, spec_pad(m).len() as int),
        ) == 8 * m.len(),
{
    lemma_pad_shape(m);
    lemma_len_bytes_value((8 * m.len()) as u64);
}

/// Computes the zero-bit count for a message of bit length `l`.
pub fn k_of_l(l: u64) -> (k: u64)
    requires
        l < u64::MAX,
    ensures
        k == spec_k(l as int),
{
    let remainder_after_last_512: u64 = (l + 1) % 512;
    if remainder_after_last_512 <= 448 {
        448 - remainder_after_last_512
    } else {
        (512 - remainder_after_last_512) + 448
    }
}

/// Appends the standard padding in place: one 0x80 byte (the set bit
/// and seven of the `k` zero bits), the remaining zero bits as whole
/// bytes, and the bit length `l` as 8 big-endian bytes.
pub fn preprocess_message(message: &mut Vec<u8>, l: u64, k: u64)
    requires
        old(message)@.len() < 0x2000000000000000,
        l == 8 * old(message)@.len(),
        k == spec_k(l as int),
    ensures
        final(message)@ == spec_pad(old(message)@),
        final(message)@.len() % 64 == 0,
{
    proof {
        lemma_mod_multiples_basic(old(message)@.len() as int, 8);
        lemma_k_bytes(l as int);
        lemma_pad_shape(old(message)@);
    }
    let ghost m0 = old(message)@;
    message.push(0x80);
    let rem_k: u64 = k - 7;
    let zero_count: usize = (rem_k / 8) as usize;
    proof {
        assert(message@ =~= m0 + seq![0x80u8] + Seq::new(0, |i: int| 0u8));
    }
    let mut j: usize = 0;
    while j < zero_count
        invariant
            j <= zero_count,
            message@ == m0 + seq![0x80u8] + Seq::new(j as nat, |i: int| 0u8),
        decreases zero_count - j,
    {
        message.push(0x00);
        j += 1;
        proof {
            assert(message@ =~= m0 + seq![0x80u8] + Seq::new(j as nat, |i: int| 0u8));
        }
    }
    let ghost zeros = Seq::new(zero_count as nat, |i: int| 0u8);
    let mut i: usize = 0;
    while i < 8
        invariant
            i <= 8,
            message@ == m0 + seq![0x80u8] + zeros + spec_len_bytes(l).subrange(0, i as int),
        decreases 8 - i,
    {
        let sh: u64 = 56 - 8 * (i as u64);
        proof {
            assert((l >> sh) & 0xff < 256) by (bit_vector);
        }
        let byte: u8 = ((l >> sh) & 0xff) as u8;
        proof {
            assert(byte == spec_len_bytes(l)[i as int]);
        }
        message.push(byte);
        i += 1;
        proof {
            assert(message@ =~= m0 + seq![0x80u8] + zeros + spec_len_bytes(l).subrange(
                0,
                i as int,
            ));
        }
    }
    proof {
        assert(spec_len_bytes(l).subrange(0, 8) =~= spec_len_bytes(l));
        assert(zero_count == spec_zero_bytes(l as int));
        assert(message@ =~= spec_pad(m0));
    }
}

} // verus!
