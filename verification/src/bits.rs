//! The 32-bit word operations of SHA-256: rotations, the choice and
//! majority mixers, the four sigma functions, and wrapping addition.
//!
//! Each operation has a specification function giving its meaning and
//! an executable twin proved to return exactly that value.
use vstd::prelude::*;

verus! {

/// Addition of two words modulo 2^32, the only addition SHA-256 uses.
pub open spec fn word_add(x: u32, y: u32) -> u32 {
    ((x + y) % 0x1_0000_0000) as u32
}

/// `x` rotated right by `n` bits within a 32-bit field.
pub open spec fn spec_rot_right(x: u32, n: u32) -> u32
    recommends
        0 < n < 32,
{
    (x >> n) | (x << ((32 - n) as u32))
}

/// `x` rotated left by `n` bits within a 32-bit field.
pub open spec fn spec_rot_left(x: u32, n: u32) -> u32
    recommends
        0 < n < 32,
{
    (x << n) | (x >> ((32 - n) as u32))
}

/// CH(x, y, z): each bit of `x` chooses the bit of `y` or of `z`.
pub open spec fn spec_ch(x: u32, y: u32, z: u32) -> u32 {
    (x & y) ^ (!x & z)
}

/// MAJ(x, y, z): each result bit is the majority of the three input bits.
pub open spec fn spec_maj(x: u32, y: u32, z: u32) -> u32 {
    (x & y) ^ (x & z) ^ (y & z)
}

/// BSIG0, the first mixing function over the working state.
pub open spec fn spec_bsig0(x: u32) -> u32 {
    spec_rot_right(x, 2) ^ spec_rot_right(x, 13) ^ spec_rot_right(x, 22)
}

/// BSIG1, the second mixing function over the working state.
pub open spec fn spec_bsig1(x: u32) -> u32 {
    spec_rot_right(x, 6) ^ spec_rot_right(x, 11) ^ spec_rot_right(x, 25)
}

/// SSIG0, the first mixing function of the message schedule.
pub open spec fn spec_ssig0(x: u32) -> u32 {
    spec_rot_right(x, 7) ^ spec_rot_right(x, 18) ^ (x >> 3)
}

/// SSIG1, the second mixing function of the message schedule.
pub open spec fn spec_ssig1(x: u32) -> u32 {
    spec_rot_right(x, 17) ^ spec_rot_right(x, 19) ^ (x >> 10)
}

/// Wrapping 32-bit addition; all word sums in the algorithm go through
/// this, so every intermediate addition wraps modulo 2^32 and none can
/// overflow-trap.
pub fn add_words(x: u32, y: u32) -> (r: u32)
    ensures
        r == word_add(x, y),
{
    proof {
        assert(vstd::wrapping::u32_specs::wrapping_add(x, y) == word_add(x, y)) by (bit_vector);
    }
    x.wrapping_add(y)
}

pub fn rot_right(x: u32, n: u32) -> (r: u32)
    requires
        0 < n < 32,
    ensures
        r == spec_rot_right(x, n),
{
    (x >> n) | (x << (32 - n))
}

pub fn rot_left(x: u32, n: u32) -> (r: u32)
    requires
        0 < n < 32,
    ensures
        r == spec_rot_left(x, n),
{
    (x << n) | (x >> (32 - n))
}

pub fn ch(x: u32, y: u32, z: u32) -> (r: u32)
    ensures
        r == spec_ch(x, y, z),
{
    (x & y) ^ (!x & z)
}

pub fn maj(x: u32, y: u32, z: u32) -> (r: u32)
    ensures
        r == spec_maj(x, y, z),
{
    (x & y) ^ (x & z) ^ (y & z)
}

pub fn bsig0(x: u32) -> (r: u32)
    ensures
        r == spec_bsig0(x),
{
    rot_right(x, 2) ^ rot_right(x, 13) ^ rot_right(x, 22)
}

pub fn bsig1(x: u32) -> (r: u32)
    ensures
        r == spec_bsig1(x),
{
    rot_right(x, 6) ^ rot_right(x, 11) ^ rot_right(x, 25)
}

pub fn ssig0(x: u32) -> (r: u32)
    ensures
        r == spec_ssig0(x),
{
    rot_right(x, 7) ^ rot_right(x, 18) ^ (x >> 3)
}

pub fn ssig1(x: u32) -> (r: u32)
    ensures
        r == spec_ssig1(x),
{
    rot_right(x, 17) ^ rot_right(x, 19) ^ (x >> 10)
}

} // verus!
