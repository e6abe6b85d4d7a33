use rust_ipmi::helpers::bytes::{
    append_bytes, bytes_equal, push_be_bytes, push_le_bytes, read_be, read_le,
};
use rust_ipmi::helpers::utils::{
    aes_128_cbc_decrypt, aes_128_cbc_encrypt, append_u128_to_vec, append_u32_to_vec,
    generate_iv, get8bit_checksum, hash_hmac_sha_256, hash_hmac_sha_256_128, iv_from_number,
    join_two_bits_to_byte, pad_payload_bytes,
    unpad_payload_bytes,
};

fn hex(s: &str) -> Vec<u8> {
    let digits: Vec<u8> = s
        .bytes()
        .map(|c| match c {
            b'0'..=b'9' => c - b'0',
            b'a'..=b'f' => c - b'a' + 10,
            _ => panic!("not a hex digit"),
        })
        .collect();
    digits.chunks(2).map(|p| p[0] * 16 + p[1]).collect()
}

#[test]
fn checksum_of_responder_address_and_netfn() {
    assert_eq!(get8bit_checksum(&[0x20, 0x18]), 0xC8);
}

#[test]
fn checksum_closes_the_range_to_zero() {
    let data = [0x81u8, 0x20, 0x38, 0x8e, 0x04];
    let c = get8bit_checksum(&data);
    let total: u32 = data.iter().map(|b| *b as u32).sum::<u32>() + c as u32;
    assert_eq!(total % 256, 0);
}

#[test]
fn checksum_of_nothing_and_of_a_zero_sum_is_zero() {
    assert_eq!(get8bit_checksum(&[]), 0);
    assert_eq!(get8bit_checksum(&[0x80, 0x80]), 0);
    assert_eq!(get8bit_checksum(&[0x01]), 0xFF);
}

#[test]
fn join_keeps_the_low_group() {
    assert_eq!(join_two_bits_to_byte(0x0, 0x0E, 4), 0x0E);
}

#[test]
fn join_inherit_role_with_administrator() {
    assert_eq!(join_two_bits_to_byte(0x1, 0x04, 4), 0x14);
}

#[test]
fn join_netfn_with_lun() {
    assert_eq!(join_two_bits_to_byte(0x06, 0x00, 6), 0x18);
    assert_eq!(join_two_bits_to_byte(0x06, 0x03, 6), 0x1B);
    assert_eq!(join_two_bits_to_byte(0xFF, 0x00, 1), 0x80);
    assert_eq!(join_two_bits_to_byte(0x00, 0xFF, 7), 0x01);
    assert_eq!(join_two_bits_to_byte(0xFF, 0xFF, 3), 0xFF);
}

#[test]
fn pad_leaves_whole_blocks_alone() {
    let mut empty: Vec<u8> = vec![];
    pad_payload_bytes(&mut empty);
    assert_eq!(empty, Vec::<u8>::new());
    let mut block = vec![7u8; 16];
    pad_payload_bytes(&mut block);
    assert_eq!(block, vec![7u8; 16]);
}

#[test]
fn pad_counts_up_and_ends_with_the_count() {
    let mut data = vec![0xAAu8; 8];
    pad_payload_bytes(&mut data);
    let mut expected = vec![0xAAu8; 8];
    expected.extend_from_slice(&[1, 2, 3, 4, 5, 6, 7, 7]);
    assert_eq!(data, expected);

    let mut one_short = vec![0x55u8; 15];
    pad_payload_bytes(&mut one_short);
    let mut expected = vec![0x55u8; 15];
    expected.push(0);
    assert_eq!(one_short, expected);

    let mut one = vec![0x11u8];
    pad_payload_bytes(&mut one);
    assert_eq!(one.len(), 16);
    assert_eq!(one[15], 14);
    assert_eq!(&one[1..15], &[1, 2, 3, 4, 5, 6, 7, 8, 9, 10, 11, 12, 13, 14]);
}

#[test]
fn unpad_undoes_pad() {
    for len in 1..48usize {
        if len % 16 == 0 {
            continue;
        }
        let payload: Vec<u8> = (0..len).map(|i| (i * 7 + 3) as u8).collect();
        let mut padded = payload.clone();
        pad_payload_bytes(&mut padded);
        assert_eq!(padded.len() % 16, 0);
        assert_eq!(unpad_payload_bytes(padded), Some(payload));
    }
}

#[test]
fn unpad_rejects_an_impossible_count() {
    assert_eq!(unpad_payload_bytes(vec![]), None);
    assert_eq!(unpad_payload_bytes(vec![1, 2, 3, 200]), None);
    assert_eq!(unpad_payload_bytes(vec![9, 9, 9, 3]), Some(vec![]));
    assert_eq!(unpad_payload_bytes(vec![9, 9, 9, 4]), None);
}

#[test]
fn hmac_sha256_known_vectors() {
    let tag = hash_hmac_sha_256(vec![0x0b; 20], b"Hi There".to_vec());
    assert_eq!(
        tag.to_vec(),
        hex("b0344c61d8db38535ca8afceaf0bf12b881dc200c9833da726e9376c2e32cff7")
    );
    let tag = hash_hmac_sha_256(b"Jefe".to_vec(), b"what do ya want for nothing?".to_vec());
    assert_eq!(
        tag.to_vec(),
        hex("5bdcc146bf60754e6a042426089575c75a003f089d2739839dec58b964ec3843")
    );
}

#[test]
fn aes_cbc_known_vector() {
    let key: [u8; 16] = hex("2b7e151628aed2a6abf7158809cf4f3c").try_into().unwrap();
    let iv: [u8; 16] = hex("000102030405060708090a0b0c0d0e0f").try_into().unwrap();
    let plain = hex("6bc1bee22e409f96e93d7e117393172aae2d8a571e03ac9c9eb76fac45af8e51");
    let cipher = aes_128_cbc_encrypt(key, iv, plain);
    assert_eq!(
        cipher,
        hex("7649abac8119b246cee98e9b12e9197d5086cb9b507219ee95db113a917678b2")
    );
}

#[test]
fn aes_cbc_encrypt_then_decrypt_gives_the_payload() {
    let key = [0x42u8; 16];
    let iv = [0x17u8; 16];
    for len in [1usize, 7, 8, 15, 17, 31, 33, 100] {
        let payload: Vec<u8> = (0..len).map(|i| (i * 5) as u8).collect();
        let cipher = aes_128_cbc_encrypt(key, iv, payload.clone());
        assert_eq!(cipher.len() % 16, 0);
        assert!(cipher.len() >= len);
        assert_ne!(&cipher[..len], &payload[..]);
        assert_eq!(aes_128_cbc_decrypt(key, iv, cipher), Some(payload));
    }
}

#[test]
fn aes_cbc_decrypt_rejects_partial_blocks() {
    assert_eq!(aes_128_cbc_decrypt([0; 16], [0; 16], vec![1, 2, 3]), None);
    assert_eq!(aes_128_cbc_decrypt([0; 16], [0; 16], vec![]), None);
}

#[test]
fn iv_has_sixteen_bytes_and_varies() {
    let a = generate_iv();
    let b = generate_iv();
    assert_eq!(a.len(), 16);
    assert_ne!(a, b);
}

#[test]
fn append_little_endian() {
    let mut v = vec![0xEE];
    append_u32_to_vec(&mut v, 0xA0A2A3A4);
    assert_eq!(v, vec![0xEE, 0xA4, 0xA3, 0xA2, 0xA0]);
    let mut w = vec![];
    append_u128_to_vec(&mut w, 0x0102030405060708090a0b0c0d0e0f10);
    assert_eq!(w, hex("100f0e0d0c0b0a090807060504030201"));
}

#[test]
fn byte_strings_both_ways() {
    let mut v = vec![];
    push_be_bytes(&mut v, 0x01020304, 4);
    push_le_bytes(&mut v, 0x01020304, 4);
    push_le_bytes(&mut v, 0x1234, 2);
    push_be_bytes(&mut v, 0x1234, 0);
    assert_eq!(v, vec![1, 2, 3, 4, 4, 3, 2, 1, 0x34, 0x12]);
    assert_eq!(read_be(&v, 0, 4), 0x01020304);
    assert_eq!(read_le(&v, 4, 4), 0x01020304);
    assert_eq!(read_le(&v, 8, 2), 0x1234);
    assert_eq!(read_le(&v, 3, 0), 0);
    let wide: Vec<u8> = (1..=16).collect();
    assert_eq!(read_be(&wide, 0, 16), 0x0102030405060708090a0b0c0d0e0f10);
    assert_eq!(read_le(&wide, 0, 16), 0x100f0e0d0c0b0a090807060504030201);
}

#[test]
fn join_agrees_with_shift_and_mask_everywhere() {
    for split in 1usize..8 {
        let low_width = 8 - split;
        for first in 0u16..256 {
            for second in 0u16..256 {
                let high = (first & ((1 << split) - 1)) << low_width;
                let low = second & ((1 << low_width) - 1);
                assert_eq!(
                    join_two_bits_to_byte(first as u8, second as u8, split) as u16,
                    high | low
                );
            }
        }
    }
}

#[test]
fn bytes_are_compared_in_full() {
    assert!(bytes_equal(&[], &[]));
    assert!(bytes_equal(&[1, 2, 3], &[1, 2, 3]));
    assert!(!bytes_equal(&[1, 2, 3], &[1, 2, 4]));
    assert!(!bytes_equal(&[0, 2, 3], &[1, 2, 3]));
    assert!(!bytes_equal(&[1, 2, 3], &[1, 2]));
    assert!(!bytes_equal(&[], &[0]));
}

#[test]
fn bytes_are_appended() {
    let mut v = vec![1u8, 2];
    append_bytes(&mut v, &[]);
    assert_eq!(v, vec![1, 2]);
    append_bytes(&mut v, &[3, 4, 5]);
    assert_eq!(v, vec![1, 2, 3, 4, 5]);
}

#[test]
fn hmac_sha256_128_is_the_first_half_of_the_tag() {
    let full = hash_hmac_sha_256(b"Jefe".to_vec(), b"what do ya want for nothing?".to_vec());
    let half = hash_hmac_sha_256_128(b"Jefe".to_vec(), b"what do ya want for nothing?".to_vec());
    assert_eq!(&half[..], &full[..16]);
    assert_eq!(half.to_vec(), hex("5bdcc146bf60754e6a042426089575c7"));
}

#[test]
fn iv_is_the_number_least_significant_byte_first() {
    assert_eq!(iv_from_number(0), [0u8; 16]);
    assert_eq!(iv_from_number(1)[0], 1);
    assert_eq!(
        iv_from_number(0x0102030405060708090a0b0c0d0e0f10).to_vec(),
        hex("100f0e0d0c0b0a090807060504030201")
    );
    assert_eq!(iv_from_number(u128::MAX), [0xFFu8; 16]);
}
