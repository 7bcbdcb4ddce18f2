//! The fixed data of SHA-256: the 64 round constants and the 8 words
//! of the initial hash state.
use vstd::prelude::*;

verus! {

/// Round constant K[t], the t-th word of the standard table.
pub open spec fn spec_round_constant(t: int) -> u32 {
    if t == 0 {
        0x428a2f98
    } else if t == 1 {
        0x71374491
    } else if t == 2 {
        0xb5c0fbcf
    } else if t == 3 {
        0xe9b5dba5
    } else if t == 4 {
        0x3956c25b
    } else if t == 5 {
        0x59f111f1
    } else if t == 6 {
        0x923f82a4
    } else if t == 7 {
        0xab1c5ed5
    } else if t == 8 {
        0xd807aa98
    } else if t == 9 {
        0x12835b01
    } else if t == 10 {
        0x243185be
    } else if t == 11 {
        0x550c7dc3
    } else if t == 12 {
        0x72be5d74
    } else if t == 13 {
        0x80deb1fe
    } else if t == 14 {
        0x9bdc06a7
    } else if t == 15 {
        0xc19bf174
    } else if t == 16 {
        0xe49b69c1
    } else if t == 17 {
        0xefbe4786
    } else if t == 18 {
        0x0fc19dc6
    } else if t == 19 {
        0x240ca1cc
    } else if t == 20 {
        0x2de92c6f
    } else if t == 21 {
        0x4a7484aa
    } else if t == 22 {
        0x5cb0a9dc
    } else if t == 23 {
        0x76f988da
    } else if t == 24 {
        0x983e5152
    } else if t == 25 {
        0xa831c66d
    } else if t == 26 {
        0xb00327c8
    } else if t == 27 {
        0xbf597fc7
    } else if t == 28 {
        0xc6e00bf3
    } else if t == 29 {
        0xd5a79147
    } else if t == 30 {
        0x06ca6351
    } else if t == 31 {
        0x14292967
    } else if t == 32 {
        0x27b70a85
    } else if t == 33 {
        0x2e1b2138
    } else if t == 34 {
        0x4d2c6dfc
    } else if t == 35 {
        0x53380d13
    } else if t == 36 {
        0x650a7354
    } else if t == 37 {
        0x766a0abb
    } else if t == 38 {
        0x81c2c92e
    } else if t == 39 {
        0x92722c85
    } else if t == 40 {
        0xa2bfe8a1
    } else if t == 41 {
        0xa81a664b
    } else if t == 42 {
        0xc24b8b70
    } else if t == 43 {
        0xc76c51a3
    } else if t == 44 {
        0xd192e819
    } else if t == 45 {
        0xd6990624
    } else if t == 46 {
        0xf40e3585
    } else if t == 47 {
        0x106aa070
    } else if t == 48 {
        0x19a4c116
    } else if t == 49 {
        0x1e376c08
    } else if t == 50 {
        0x2748774c
    } else if t == 51 {
        0x34b0bcb5
    } else if t == 52 {
        0x391c0cb3
    } else if t == 53 {
        0x4ed8aa4a
    } else if t == 54 {
        0x5b9cca4f
    } else if t == 55 {
        0x682e6ff3
    } else if t == 56 {
        0x748f82ee
    } else if t == 57 {
        0x78a5636f
    } else if t == 58 {
        0x84c87814
    } else if t == 59 {
        0x8cc70208
    } else if t == 60 {
        0x90befffa
    } else if t == 61 {
        0xa4506ceb
    } else if t == 62 {
        0xbef9a3f7
    } else if t == 63 {
        0xc67178f2
    } else {
        0
    }
}

/// Returns K[t]. The table is fixed data, never mutated.
pub fn round_constant(t: usize) -> (r: u32)
    requires
        t < 64,
    ensures
        r == spec_round_constant(t as int),
{
    match t {
        0 => 0x428a2f98,
        1 => 0x71374491,
        2 => 0xb5c0fbcf,
        3 => 0xe9b5dba5,
        4 => 0x3956c25b,
        5 => 0x59f111f1,
        6 => 0x923f82a4,
        7 => 0xab1c5ed5,
        8 => 0xd807aa98,
        9 => 0x12835b01,
        10 => 0x243185be,
        11 => 0x550c7dc3,
        12 => 0x72be5d74,
        13 => 0x80deb1fe,
        14 => 0x9bdc06a7,
        15 => 0xc19bf174,
        16 => 0xe49b69c1,
        17 => 0xefbe4786,
        18 => 0x0fc19dc6,
        19 => 0x240ca1cc,
        20 => 0x2de92c6f,
        21 => 0x4a7484aa,
        22 => 0x5cb0a9dc,
        23 => 0x76f988da,
        24 => 0x983e5152,
        25 => 0xa831c66d,
        26 => 0xb00327c8,
        27 => 0xbf597fc7,
        28 => 0xc6e00bf3,
        29 => 0xd5a79147,
        30 => 0x06ca6351,
        31 => 0x14292967,
        32 => 0x27b70a85,
        33 => 0x2e1b2138,
        34 => 0x4d2c6dfc,
        35 => 0x53380d13,
        36 => 0x650a7354,
        37 => 0x766a0abb,
        38 => 0x81c2c92e,
        39 => 0x92722c85,
        40 => 0xa2bfe8a1,
        41 => 0xa81a664b,
        42 => 0xc24b8b70,
        43 => 0xc76c51a3,
        44 => 0xd192e819,
        45 => 0xd6990624,
        46 => 0xf40e3585,
        47 => 0x106aa070,
        48 => 0x19a4c116,
        49 => 0x1e376c08,
        50 => 0x2748774c,
        51 => 0x34b0bcb5,
        52 => 0x391c0cb3,
        53 => 0x4ed8aa4a,
        54 => 0x5b9cca4f,
        55 => 0x682e6ff3,
        56 => 0x748f82ee,
        57 => 0x78a5636f,
        58 => 0x84c87814,
        59 => 0x8cc70208,
        60 => 0x90befffa,
        61 => 0xa4506ceb,
        62 => 0xbef9a3f7,
        63 => 0xc67178f2,
        _ => 0,
    }
}

/// The i-th word of the initial hash state H(0).
pub open spec fn spec_initial_word(i: int) -> u32 {
    if i == 0 {
        0x6a09e667
    } else if i == 1 {
        0xbb67ae85
    } else if i == 2 {
        0x3c6ef372
    } else if i == 3 {
        0xa54ff53a
    } else if i == 4 {
        0x510e527f
    } else if i == 5 {
        0x9b05688c
    } else if i == 6 {
        0x1f83d9ab
    } else if i == 7 {
        0x5be0cd19
    } else {
        0
    }
}

/// The initial hash state as an 8-word sequence.
pub open spec fn spec_initial_state() -> Seq<u32> {
    Seq::new(8, |i: int| spec_initial_word(i))
}

/// Builds the initial hash state H(0), the fixed seed of every digest
/// computation.
pub fn initial_hash() -> (r: Vec<u32>)
    ensures
        r@ == spec_initial_state(),
{
    let mut r: Vec<u32> = Vec::new();
    r.push(0x6a09e667);
    r.push(0xbb67ae85);
    r.push(0x3c6ef372);
    r.push(0xa54ff53a);
    r.push(0x510e527f);
    r.push(0x9b05688c);
    r.push(0x1f83d9ab);
    r.push(0x5be0cd19);
    proof {
        assert(r@ =~= spec_initial_state());
    }
    r
}

} // verus!
