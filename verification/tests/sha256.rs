use sha256::bits::{bsig0, bsig1, ch, maj, rot_left, rot_right, ssig0, ssig1};
use sha256::padding::{k_of_l, preprocess_message};
use sha256::sha256_of_message_as_u8_vec;

#[test]
fn test_rot_right_macro() {
    assert_eq!(rot_right(1, 3), 536870912);
}

#[test]
fn test_rot_left_macro() {
    assert_eq!(rot_left(1, 3), 8);
}

#[test]
fn test_ch_macro() {
    assert_eq!(ch(5, 7, 8), 13);
}

#[test]
fn test_maj_macro() {
    assert_eq!(maj(5, 7, 8), 5);
}

#[test]
fn test_bsig0_macro() {
    assert_eq!(bsig0(1), 1074267136);
    assert_eq!(bsig0(3), (-1072165888i32) as u32);
}

#[test]
fn test_bsig1_macro() {
    assert_eq!(bsig1(1), 69206144);
    assert_eq!(bsig1(3), 207618432);
}

#[test]
fn test_ssig0_macro() {
    assert_eq!(ssig0(1), 33570816);
    assert_eq!(ssig0(3), 100712448);
}

#[test]
fn test_ssig1_macro() {
    assert_eq!(ssig1(1), 40960);
    assert_eq!(ssig1(3), 122880);
}

#[test]
fn test_ko_of_l() {
    assert_eq!(k_of_l(837), 122);
    assert_eq!(k_of_l(40), 407);
    assert_eq!(k_of_l(449), 510);
    assert_eq!(k_of_l(961), 510);
}

#[test]
fn test_preprocess_message() {
    let mut message: Vec<u8> = vec![0b01100001, 0b01100010, 0b01100011, 0b01100100, 0b01100101];
    let byte_length = message.len();
    let bit_length = (byte_length * 8) as u64;
    preprocess_message(&mut message, bit_length, k_of_l(bit_length));

    let target: Vec<u8> = vec![
        97, 98, 99, 100, 101, 128, 0, 0, 0, 0, 0, 0, 0, 0, 0, 0, 0, 0, 0, 0, 0, 0, 0, 0, 0, 0, 0,
        0, 0, 0, 0, 0, 0, 0, 0, 0, 0, 0, 0, 0, 0, 0, 0, 0, 0, 0, 0, 0, 0, 0, 0, 0, 0, 0, 0, 0, 0,
        0, 0, 0, 0, 0, 0, 40,
    ];
    assert_eq!(message.len(), 64);
    assert_eq!(message, target);
}

#[test]
fn test_sha256_of_message_as_u8_vec() {
    // "Mu Shall Rise! And with it so shall too, sweet liberty echo through
    // the chamber halls, both high and low, and big and small."
    let mut message: Vec<u8> = vec![
        77, 117, 32, 83, 104, 97, 108, 108, 32, 82, 105, 115, 101, 33, 32, 65, 110, 100, 32, 119,
        105, 116, 104, 32, 105, 116, 32, 115, 111, 32, 115, 104, 97, 108, 108, 32, 116, 111, 111,
        44, 32, 115, 119, 101, 101, 116, 32, 108, 105, 98, 101, 114, 116, 121, 32, 101, 99, 104,
        111, 32, 116, 104, 114, 111, 117, 103, 104, 32, 116, 104, 101, 32, 99, 104, 97, 109, 98,
        101, 114, 32, 104, 97, 108, 108, 115, 44, 32, 98, 111, 116, 104, 32, 104, 105, 103, 104,
        32, 97, 110, 100, 32, 108, 111, 119, 44, 32, 97, 110, 100, 32, 98, 105, 103, 32, 97, 110,
        100, 32, 115, 109, 97, 108, 108, 46,
    ];
    let result: Vec<u8> = *sha256_of_message_as_u8_vec(&mut message);
    let expected: Vec<u8> = vec![
        61, 186, 202, 92, 52, 61, 155, 63, 150, 130, 106, 106, 206, 202, 234, 155, 196, 116, 142,
        225, 90, 173, 181, 137, 94, 173, 27, 211, 63, 132, 41, 112,
    ];
    assert_eq!(result, expected);
}
