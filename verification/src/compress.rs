//! Per-block work: decoding a 64-byte block into sixteen big-endian
//! words, expanding them into the 64-word message schedule, and the
//! 64-round compression that folds the block into the hash state.
use vstd::prelude::*;

verus! {

use crate::bits::{
    word_add,
    spec_ch,
    spec_maj,
    spec_bsig0,
    spec_bsig1,
    spec_ssig0,
    spec_ssig1,
    add_words,
    ch,
    maj,
    bsig0,
    bsig1,
    ssig0,
    ssig1,
};
use crate::constants::{spec_round_constant, round_constant};

/// Block `i` of a padded message: bytes `64 * i .. 64 * i + 64`.
pub open spec fn block_at(padded: Seq<u8>, i: int) -> Seq<u8>
    recommends
        0 <= i,
        64 * i + 64 <= padded.len(),
{
    padded.subrange(64 * i, 64 * i + 64)
}

/// Word `t` of a 64-byte block, read big-endian: most significant
/// byte first, independent of host byte order.
pub open spec fn be_word_at(block: Seq<u8>, t: int) -> u32
    recommends
        block.len() == 64,
        0 <= t < 16,
{
    ((block[4 * t] as u32) << 24) | ((block[4 * t + 1] as u32) << 16) | ((block[4 * t
        + 2] as u32) << 8) | (block[4 * t + 3] as u32)
}

/// Word `t` of the message schedule of a block: the first 16 words
/// come from the block, the rest from the fixed recurrence, with all
/// additions modulo 2^32.
pub open spec fn spec_schedule(block: Seq<u8>, t: int) -> u32
    recommends
        block.len() == 64,
        0 <= t < 64,
    decreases t,
{
    if t < 16 {
        be_word_at(block, t)
    } else {
        word_add(
            word_add(
                word_add(spec_ssig1(spec_schedule(block, t - 2)), spec_schedule(block, t - 7)),
                spec_ssig0(spec_schedule(block, t - 15)),
            ),
            spec_schedule(block, t - 16),
        )
    }
}

/// The eight transient words a..h mutated across the 64 rounds of one
/// block's compression.
pub struct WorkingState {
    pub a: u32,
    pub b: u32,
    pub c: u32,
    pub d: u32,
    pub e: u32,
    pub f: u32,
    pub g: u32,
    pub h: u32,
}

/// The working state seeded from an 8-word hash state.
pub open spec fn seed_state(hs: Seq<u32>) -> WorkingState
    recommends
        hs.len() == 8,
{
    WorkingState {
        a: hs[0],
        b: hs[1],
        c: hs[2],
        d: hs[3],
        e: hs[4],
        f: hs[5],
        g: hs[6],
        h: hs[7],
    }
}

/// One compression round with round constant `kt` and schedule word
/// `wt`; every addition wraps modulo 2^32.
pub open spec fn round_step(s: WorkingState, kt: u32, wt: u32) -> WorkingState {
    let t1 = word_add(
        word_add(word_add(word_add(s.h, spec_bsig1(s.e)), spec_ch(s.e, s.f, s.g)), kt),
        wt,
    );
    let t2 = word_add(spec_bsig0(s.a), spec_maj(s.a, s.b, s.c));
    WorkingState {
        a: word_add(t1, t2),
        b: s.a,
        c: s.b,
        d: s.c,
        e: word_add(s.d, t1),
        f: s.e,
        g: s.f,
        h: s.g,
    }
}

/// The working state after the first `t` rounds over a block.
pub open spec fn spec_rounds(init: WorkingState, block: Seq<u8>, t: int) -> WorkingState
    recommends
        block.len() == 64,
        0 <= t <= 64,
    decreases t,
{
    if t <= 0 {
        init
    } else {
        round_step(
            spec_rounds(init, block, t - 1),
            spec_round_constant(t - 1),
            spec_schedule(block, t - 1),
        )
    }
}

/// The hash state after folding one block into `hs`: 64 rounds from
/// the seeded working state, then a word-wise wrapping addition back
/// into the state.
pub open spec fn spec_compress_block(hs: Seq<u32>, block: Seq<u8>) -> Seq<u32>
    recommends
        hs.len() == 8,
        block.len() == 64,
{
    let fin = spec_rounds(seed_state(hs), block, 64);
    seq![
        word_add(hs[0], fin.a),
        word_add(hs[1], fin.b),
        word_add(hs[2], fin.c),
        word_add(hs[3], fin.d),
        word_add(hs[4], fin.e),
        word_add(hs[5], fin.f),
        word_add(hs[6], fin.g),
        word_add(hs[7], fin.h),
    ]
}

/// Decodes the sixteen big-endian words of block `i` of the padded
/// message.
fn words_of_block(message: &Vec<u8>, i: usize) -> (m: Vec<u32>)
    requires
        message@.len() % 64 == 0,
        i < message@.len() / 64,
        message@.len() <= usize::MAX,
        64 * (i as int) + 64 <= message@.len(),
    ensures
        m@.len() == 16,
        forall|t: int| 0 <= t < 16 ==> m@[t] == be_word_at(block_at(message@, i as int), t),
{
    let base: usize = 64 * i;
    let mut m: Vec<u32> = Vec::new();
    let mut t: usize = 0;
    while t < 16
        invariant
            t <= 16,
            m@.len() == t,
            base == 64 * i,
            64 * (i as int) + 64 <= message@.len(),
            message@.len() % 64 == 0,
            i < message@.len() / 64,
            forall|q: int| 0 <= q < t ==> m@[q] == be_word_at(block_at(message@, i as int), q),
        decreases 16 - t,
    {
        let p: usize = base + 4 * t;
        let b0: u8 = message[p];
        let b1: u8 = message[p + 1];
        let b2: u8 = message[p + 2];
        let b3: u8 = message[p + 3];
        let w: u32 = ((b0 as u32) << 24) | ((b1 as u32) << 16) | ((b2 as u32) << 8) | (b3 as u32);
        proof {
            assert(w == be_word_at(block_at(message@, i as int), t as int));
        }
        m.push(w);
        t += 1;
    }
    m
}

/// Expands block `i`'s sixteen words into the full 64-word schedule.
fn build_schedule(message: &Vec<u8>, i: usize) -> (w: Vec<u32>)
    requires
        message@.len() % 64 == 0,
        i < message@.len() / 64,
        message@.len() <= usize::MAX,
        64 * (i as int) + 64 <= message@.len(),
    ensures
        w@.len() == 64,
        forall|t: int| 0 <= t < 64 ==> w@[t] == spec_schedule(block_at(message@, i as int), t),
{
    let mut w: Vec<u32> = words_of_block(message, i);
    let mut t: usize = 16;
    while t < 64
        invariant
            16 <= t <= 64,
            w@.len() == t,
            forall|q: int| 0 <= q < t ==> w@[q] == spec_schedule(block_at(message@, i as int), q),
        decreases 64 - t,
    {
        let part_1: u32 = ssig1(w[t - 2]);
        let part_2: u32 = w[t - 7];
        let part_3: u32 = ssig0(w[t - 15]);
        let part_4: u32 = w[t - 16];
        let next: u32 = add_words(add_words(add_words(part_1, part_2), part_3), part_4);
        proof {
            assert(next == spec_schedule(block_at(message@, i as int), t as int));
        }
        w.push(next);
        t += 1;
    }
    w
}

/// Folds block `i` of the padded message into the hash state: the one
/// point where the running digest changes.
pub fn compress_block(hash_value: &mut Vec<u32>, message: &Vec<u8>, i: usize)
    requires
        old(hash_value)@.len() == 8,
        message@.len() % 64 == 0,
        i < message@.len() / 64,
        message@.len() <= usize::MAX,
        64 * (i as int) + 64 <= message@.len(),
    ensures
        final(hash_value)@ == spec_compress_block(old(hash_value)@, block_at(message@, i as int)),
{
    let w: Vec<u32> = build_schedule(message, i);
    let ghost block = block_at(message@, i as int);
    let ghost init = seed_state(old(hash_value)@);
    let mut a: u32 = hash_value[0];
    let mut b: u32 = hash_value[1];
    let mut c: u32 = hash_value[2];
    let mut d: u32 = hash_value[3];
    let mut e: u32 = hash_value[4];
    let mut f: u32 = hash_value[5];
    let mut g: u32 = hash_value[6];
    let mut h: u32 = hash_value[7];
    let mut t: usize = 0;
    while t < 64
        invariant
            t <= 64,
            w@.len() == 64,
            forall|q: int| 0 <= q < 64 ==> w@[q] == spec_schedule(block, q),
            a == spec_rounds(init, block, t as int).a,
            b == spec_rounds(init, block, t as int).b,
            c == spec_rounds(init, block, t as int).c,
            d == spec_rounds(init, block, t as int).d,
            e == spec_rounds(init, block, t as int).e,
            f == spec_rounds(init, block, t as int).f,
            g == spec_rounds(init, block, t as int).g,
            h == spec_rounds(init, block, t as int).h,
        decreases 64 - t,
    {
        let kt: u32 = round_constant(t);
        let t1: u32 = add_words(add_words(add_words(add_words(h, bsig1(e)), ch(e, f, g)), kt), w[t]);
        let t2: u32 = add_words(bsig0(a), maj(a, b, c));
        h = g;
        g = f;
        f = e;
        e = add_words(d, t1);
        d = c;
        c = b;
        b = a;
        a = add_words(t1, t2);
        t += 1;
        proof {
            assert(spec_rounds(init, block, t as int) == round_step(
                spec_rounds(init, block, t as int - 1),
                spec_round_constant(t as int - 1),
                spec_schedule(block, t as int - 1),
            ));
        }
    }
    let v0: u32 = add_words(hash_value[0], a);
    let v1: u32 = add_words(hash_value[1], b);
    let v2: u32 = add_words(hash_value[2], c);
    let v3: u32 = add_words(hash_value[3], d);
    let v4: u32 = add_words(hash_value[4], e);
    let v5: u32 = add_words(hash_value[5], f);
    let v6: u32 = add_words(hash_value[6], g);
    let v7: u32 = add_words(hash_value[7], h);
    hash_value.set(0, v0);
    hash_value.set(1, v1);
    hash_value.set(2, v2);
    hash_value.set(3, v3);
    hash_value.set(4, v4);
    hash_value.set(5, v5);
    hash_value.set(6, v6);
    hash_value.set(7, v7);
    proof {
        assert(hash_value@ =~= spec_compress_block(old(hash_value)@, block));
    }
}

} // verus!
