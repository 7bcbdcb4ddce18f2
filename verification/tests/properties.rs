use sha256::padding::{k_of_l, preprocess_message};
use sha256::sha256_of_message_as_u8_vec;

fn digest_of(bytes: &[u8]) -> Vec<u8> {
    let mut message: Vec<u8> = bytes.to_vec();
    *sha256_of_message_as_u8_vec(&mut message)
}

#[test]
fn test_padding_invariant_sweep() {
    // (l + 1 + k) % 512 == 448 for byte-aligned bit lengths, small and large.
    for byte_len in 0..2048u64 {
        let l = 8 * byte_len;
        let k = k_of_l(l);
        assert_eq!((l as u128 + 1 + k as u128) % 512, 448);
        assert_eq!((l as u128 + 1 + k as u128 + 64) % 512, 0);
    }
    let large = u64::MAX - 7;
    let k = k_of_l(large);
    assert_eq!((large as u128 + 1 + k as u128) % 512, 448);
}

#[test]
fn test_length_field_round_trip() {
    for byte_len in [0usize, 1, 54, 55, 56, 63, 64, 65, 200] {
        let mut message: Vec<u8> = vec![0xaa; byte_len];
        let bit_length = (byte_len * 8) as u64;
        preprocess_message(&mut message, bit_length, k_of_l(bit_length));
        let tail = &message[message.len() - 8..];
        let mut decoded: u64 = 0;
        for &b in tail {
            decoded = decoded << 8 | b as u64;
        }
        assert_eq!(decoded, bit_length);
    }
}

#[test]
fn test_determinism() {
    let input: Vec<u8> = (0u8..=255).collect();
    let first = digest_of(&input);
    let second = digest_of(&input);
    let third = digest_of(&input);
    assert_eq!(first, second);
    assert_eq!(first, third);
}

#[test]
fn test_empty_vector() {
    let expected: Vec<u8> = vec![
        0xe3, 0xb0, 0xc4, 0x42, 0x98, 0xfc, 0x1c, 0x14, 0x9a, 0xfb, 0xf4, 0xc8, 0x99, 0x6f, 0xb9,
        0x24, 0x27, 0xae, 0x41, 0xe4, 0x64, 0x9b, 0x93, 0x4c, 0xa4, 0x95, 0x99, 0x1b, 0x78, 0x52,
        0xb8, 0x55,
    ];
    assert_eq!(digest_of(&[]), expected);
}

#[test]
fn test_abc_vector() {
    let expected: Vec<u8> = vec![
        0xba, 0x78, 0x16, 0xbf, 0x8f, 0x01, 0xcf, 0xea, 0x41, 0x41, 0x40, 0xde, 0x5d, 0xae, 0x22,
        0x23, 0xb0, 0x03, 0x61, 0xa3, 0x96, 0x17, 0x7a, 0x9c, 0xb4, 0x10, 0xff, 0x61, 0xf2, 0x00,
        0x15, 0xad,
    ];
    assert_eq!(digest_of(&[0x61, 0x62, 0x63]), expected);
}

#[test]
fn test_two_block_vector() {
    // 56 bytes, so the padding forces a second block; the round
    // additions overflow and must wrap rather than trap.
    let input = b"abcdbcdecdefdefgefghfghighijhijkijkljklmklmnlmnomnopnopq";
    let expected: Vec<u8> = vec![
        0x24, 0x8d, 0x6a, 0x61, 0xd2, 0x06, 0x38, 0xb8, 0xe5, 0xc0, 0x26, 0x93, 0x0c, 0x3e, 0x60,
        0x39, 0xa3, 0x3c, 0xe4, 0x59, 0x64, 0xff, 0x21, 0x67, 0xf6, 0xec, 0xed, 0xd4, 0x19, 0xdb,
        0x06, 0xc1,
    ];
    assert_eq!(digest_of(input), expected);
}

#[test]
fn test_block_count_boundary() {
    // 55 bytes (440 bits): 440 + 1 <= 448, one 64-byte block suffices.
    let mut short: Vec<u8> = vec![0x42; 55];
    preprocess_message(&mut short, 55 * 8, k_of_l(55 * 8));
    assert_eq!(short.len(), 64);

    // 56 bytes (448 bits): 448 + 1 > 448, a second block is needed.
    let mut long: Vec<u8> = vec![0x42; 56];
    preprocess_message(&mut long, 56 * 8, k_of_l(56 * 8));
    assert_eq!(long.len(), 128);
}

#[test]
fn test_avalanche_abc() {
    let base: Vec<u8> = vec![0x61, 0x62, 0x63];
    let base_digest = digest_of(&base);
    for byte in 0..base.len() {
        for bit in 0..8 {
            let mut flipped = base.clone();
            flipped[byte] ^= 1 << bit;
            assert_ne!(digest_of(&flipped), base_digest);
        }
    }
}
