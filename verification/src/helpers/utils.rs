//! Wire primitives: bit packing, the 8-bit checksum, block padding, and the
//! keyed hash and block cipher that the session envelope is built from.
use crate::helpers::bits::{low_bits, shift_up, store_bits};
use crate::helpers::bytes::{le_bytes, lemma_le_bytes_len, push_le_bytes};
use aes::cipher::block_padding::NoPadding;
use aes::cipher::{BlockDecryptMut, BlockEncryptMut, KeyIvInit};
use hmac::{Hmac, Mac};
use sha2::Sha256;
use vstd::prelude::*;

verus! {

/// The byte whose top `split` bits are the low `split` bits of `first` and
/// whose remaining bits are the low `8 - split` bits of `second`.
pub open spec fn join_bits(first: u8, second: u8, split: int) -> int {
    shift_up(low_bits(first as int, split), 8 - split) + low_bits(second as int, 8 - split)
}

/// Packs two bit groups into one byte, most significant group first.
pub fn join_two_bits_to_byte(first: u8, second: u8, split_index: usize) -> (r: u8)
    requires
        0 < split_index < 8,
    ensures
        r as int == join_bits(first, second, split_index as int),
{
    let high: u8 = store_bits(0, 0, split_index, first);
    store_bits(high, split_index, 8, second)
}

/// The sum of the bytes of `s`.
pub open spec fn byte_sum(s: Seq<u8>) -> nat
    decreases s.len(),
{
    if s.len() == 0 {
        0
    } else {
        byte_sum(s.drop_last()) + s.last() as nat
    }
}

/// The byte that brings the sum of `s` to zero modulo 256.
pub open spec fn checksum(s: Seq<u8>) -> u8 {
    ((256 - byte_sum(s) % 256) % 256) as u8
}

/// A byte range followed by its checksum sums to zero modulo 256.
pub proof fn lemma_checksum_closes(s: Seq<u8>)
    ensures
        byte_sum(s.push(checksum(s))) % 256 == 0,
{
    assert(s.push(checksum(s)).drop_last() =~= s);
}

/// The 8-bit two's-complement checksum of `byte_array`.
pub fn get8bit_checksum(byte_array: &[u8]) -> (r: u8)
    ensures
        r == checksum(byte_array@),
        (byte_sum(byte_array@) + r) % 256 == 0,
{
    let mut sum: u8 = 0;
    let mut i: usize = 0;
    while i < byte_array.len()
        invariant
            i <= byte_array.len(),
            sum as nat == byte_sum(byte_array@.take(i as int)) % 256,
        decreases byte_array.len() - i,
    {
        proof {
            assert(byte_array@.take(i + 1).drop_last() =~= byte_array@.take(i as int));
        }
        sum = sum.wrapping_add(byte_array[i]);
        i += 1;
    }
    proof {
        assert(byte_array@.take(i as int) =~= byte_array@);
    }
    if sum == 0 {
        0
    } else {
        (255 - sum) + 1
    }
}

/// `data` brought to a whole number of 16-byte blocks: nothing is added to
/// a length that is already a multiple of 16; otherwise the bytes 1, 2, ..
/// up to the block boundary less one, and then one byte that counts them.
pub open spec fn pad_payload(data: Seq<u8>) -> Seq<u8> {
    if data.len() % 16 == 0 {
        data
    } else {
        let count = 15 - data.len() % 16;
        data + Seq::new(count as nat, |i: int| (i + 1) as u8) + seq![count as u8]
    }
}

/// `data` without its trailing pad: the last byte counts the pad bytes
/// before it. `None` where there is no last byte or it counts more bytes
/// than there are.
pub open spec fn unpad_payload(data: Seq<u8>) -> Option<Seq<u8>> {
    if data.len() > 0 && data.last() as int + 1 <= data.len() {
        Some(data.take(data.len() - data.last() as int - 1))
    } else {
        None
    }
}

/// Padding yields whole blocks and never shortens the data.
pub proof fn lemma_pad_payload_len(data: Seq<u8>)
    ensures
        pad_payload(data).len() % 16 == 0,
        data.len() <= pad_payload(data).len() < data.len() + 16,
        pad_payload(data).take(data.len() as int) == data,
{
    assert(pad_payload(data).take(data.len() as int) =~= data);
}

/// Stripping the pad from padded data gives the data back, for every
/// length that is not already a multiple of 16 (such data gets no pad, so
/// its own last byte would be read as a count).
pub proof fn lemma_unpad_pad(data: Seq<u8>)
    requires
        data.len() % 16 != 0,
    ensures
        unpad_payload(pad_payload(data)) == Some(data),
{
    let padded = pad_payload(data);
    let count = 15 - data.len() % 16;
    assert(padded.last() == count as u8);
    assert(padded.take(padded.len() - count - 1) =~= data);
}

/// Pads `data` in place to a whole number of 16-byte blocks.
pub fn pad_payload_bytes(data: &mut Vec<u8>)
    ensures
        final(data)@ == pad_payload(old(data)@),
        final(data)@.len() % 16 == 0,
{
    proof {
        lemma_pad_payload_len(old(data)@);
    }
    let rest: usize = data.len() % 16;
    if rest != 0 {
        let count: u8 = (15 - rest) as u8;
        let mut i: u8 = 0;
        while i < count
            invariant
                i <= count <= 14,
                data@ == old(data)@ + Seq::new(i as nat, |k: int| (k + 1) as u8),
            decreases count - i,
        {
            data.push(i + 1);
            i += 1;
            assert(data@ =~= old(data)@ + Seq::new(i as nat, |k: int| (k + 1) as u8));
        }
        data.push(count);
        assert(data@ =~= pad_payload(old(data)@));
    } else {
        assert(data@ =~= old(data)@ + Seq::new(0, |k: int| (k + 1) as u8));
    }
}

/// Strips the trailing pad that `pad_payload_bytes` adds.
pub fn unpad_payload_bytes(data: Vec<u8>) -> (r: Option<Vec<u8>>)
    ensures
        r.is_some() == unpad_payload(data@).is_some(),
        r matches Some(v) ==> Some(v@) == unpad_payload(data@),
{
    let len: usize = data.len();
    if len == 0 {
        return None;
    }
    let count: usize = data[len - 1] as usize;
    if count + 1 > len {
        return None;
    }
    let mut out = data;
    out.truncate(len - count - 1);
    Some(out)
}

/// Appends the four bytes of `append`, least significant first.
pub fn append_u32_to_vec(main_vec: &mut Vec<u8>, append: u32)
    ensures
        final(main_vec)@ == old(main_vec)@ + le_bytes(append as nat, 4),
{
    push_le_bytes(main_vec, append as u128, 4);
}

/// Appends the sixteen bytes of `append`, least significant first.
pub fn append_u128_to_vec(main_vec: &mut Vec<u8>, append: u128)
    ensures
        final(main_vec)@ == old(main_vec)@ + le_bytes(append as nat, 16),
{
    push_le_bytes(main_vec, append, 16);
}

/// HMAC-SHA256 of `data` under `key`, as the `hmac` and `sha2` crates
/// compute it.
pub uninterp spec fn hmac_sha256(key: Seq<u8>, data: Seq<u8>) -> Seq<u8>;

/// AES-128 in CBC mode over whole blocks, as the `cbc` and `aes` crates
/// encrypt it.
pub uninterp spec fn aes128_cbc_encrypt_blocks(key: Seq<u8>, iv: Seq<u8>, plaintext: Seq<u8>) -> Seq<u8>;

/// AES-128 in CBC mode over whole blocks, as the `cbc` and `aes` crates
/// decrypt it.
pub uninterp spec fn aes128_cbc_decrypt_blocks(key: Seq<u8>, iv: Seq<u8>, ciphertext: Seq<u8>) -> Seq<u8>;

/// Trusted: `Hmac::<Sha256>` keyed with `key`, fed `data` once and
/// finalized. The tag is a function of key and data alone and is 32 bytes
/// long. `new_from_slice` accepts a key of any length.
#[verifier::external_body]
pub fn hash_hmac_sha_256(key: Vec<u8>, data: Vec<u8>) -> (r: [u8; 32])
    ensures
        r@ == hmac_sha256(key@, data@),
{
    let mut mac = Hmac::<Sha256>::new_from_slice(key.as_slice()).expect("any key length");
    mac.update(data.as_slice());
    mac.finalize().into_bytes().into()
}

/// Trusted: `cbc::Encryptor<aes::Aes128>` keyed with `key` and `iv`, run
/// over `plaintext` with `NoPadding`. For a whole number of blocks the
/// call succeeds and hands back as many bytes as it was given, a function
/// of key, iv and plaintext alone.
#[verifier::external_body]
fn cbc_encrypt_blocks(key: &[u8; 16], iv: &[u8; 16], plaintext: Vec<u8>) -> (r: Vec<u8>)
    requires
        plaintext@.len() % 16 == 0,
    ensures
        r@ == aes128_cbc_encrypt_blocks(key@, iv@, plaintext@),
        r@.len() == plaintext@.len(),
{
    let mut buf = plaintext;
    let len = buf.len();
    cbc::Encryptor::<aes::Aes128>::new(key.into(), iv.into())
        .encrypt_padded_mut::<NoPadding>(&mut buf, len)
        .expect("whole blocks");
    buf
}

/// Trusted: `cbc::Decryptor<aes::Aes128>` keyed with `key` and `iv`, run
/// over `ciphertext` with `NoPadding`. For a whole number of blocks the
/// call succeeds and hands back as many bytes as it was given, a function
/// of key, iv and ciphertext alone; and it undoes the encryptor: what was
/// encrypted under the same key and iv comes back unchanged.
#[verifier::external_body]
fn cbc_decrypt_blocks(key: &[u8; 16], iv: &[u8; 16], ciphertext: Vec<u8>) -> (r: Vec<u8>)
    requires
        ciphertext@.len() % 16 == 0,
    ensures
        r@ == aes128_cbc_decrypt_blocks(key@, iv@, ciphertext@),
        r@.len() == ciphertext@.len(),
        forall|p: Seq<u8>|
            p.len() % 16 == 0 && ciphertext@ == #[trigger] aes128_cbc_encrypt_blocks(key@, iv@, p)
                ==> r@ == p,
{
    let mut buf = ciphertext;
    cbc::Decryptor::<aes::Aes128>::new(key.into(), iv.into())
        .decrypt_padded_mut::<NoPadding>(&mut buf)
        .expect("whole blocks");
    buf
}

/// Trusted: `rand::random::<u128>()`, 128 bits from the thread-local
/// generator of the `rand` crate. Nothing is known of the value.
#[verifier::external_body]
pub(crate) fn random_u128() -> u128 {
    rand::random::<u128>()
}

/// A fresh 16-byte initialisation vector: the sixteen bytes of a number
/// drawn at random, least significant first.
pub fn generate_iv() -> (r: [u8; 16])
    ensures
        exists|value: u128| r@ == #[trigger] le_bytes(value as nat, 16),
{
    iv_from_number(random_u128())
}

/// The sixteen bytes of `value`, least significant first, as an
/// initialisation vector.
pub fn iv_from_number(value: u128) -> (r: [u8; 16])
    ensures
        r@ == le_bytes(value as nat, 16),
{
    let mut bytes: Vec<u8> = Vec::new();
    push_le_bytes(&mut bytes, value, 16);
    proof {
        lemma_le_bytes_len(value as nat, 16);
    }
    let mut iv: [u8; 16] = [0u8; 16];
    let mut i: usize = 0;
    while i < 16
        invariant
            i <= 16,
            bytes@.len() == 16,
            forall|k: int| 0 <= k < i ==> iv@[k] == bytes@[k],
        decreases 16 - i,
    {
        iv[i] = bytes[i];
        i += 1;
    }
    assert(iv@ =~= bytes@);
    iv
}

/// What the envelope carries for `payload`: its padded form, encrypted.
pub open spec fn encrypted_payload(key: Seq<u8>, iv: Seq<u8>, payload: Seq<u8>) -> Seq<u8> {
    aes128_cbc_encrypt_blocks(key, iv, pad_payload(payload))
}

/// What `ciphertext` decrypts to once its pad is stripped; `None` where it
/// is not a whole number of blocks or the pad count is out of range.
pub open spec fn decrypted_payload(key: Seq<u8>, iv: Seq<u8>, ciphertext: Seq<u8>) -> Option<
    Seq<u8>,
> {
    if ciphertext.len() % 16 != 0 {
        None
    } else {
        unpad_payload(aes128_cbc_decrypt_blocks(key, iv, ciphertext))
    }
}

/// Pads `payload_bytes` to whole blocks and encrypts them with AES-128 in
/// CBC mode.
pub fn aes_128_cbc_encrypt(key: [u8; 16], iv: [u8; 16], payload_bytes: Vec<u8>) -> (r: Vec<u8>)
    ensures
        r@ == encrypted_payload(key@, iv@, payload_bytes@),
        r@.len() == pad_payload(payload_bytes@).len(),
{
    let mut padded = payload_bytes;
    pad_payload_bytes(&mut padded);
    proof {
        lemma_pad_payload_len(payload_bytes@);
    }
    cbc_encrypt_blocks(&key, &iv, padded)
}

/// Decrypts `encrypted_bytes` with AES-128 in CBC mode and strips the pad.
/// Decrypting what `aes_128_cbc_encrypt` made of a payload, under the same
/// key and iv, gives the payload back whenever its length is not a
/// multiple of 16.
pub fn aes_128_cbc_decrypt(key: [u8; 16], iv: [u8; 16], encrypted_bytes: Vec<u8>) -> (r: Option<
    Vec<u8>,
>)
    ensures
        r.is_some() == decrypted_payload(key@, iv@, encrypted_bytes@).is_some(),
        r matches Some(v) ==> Some(v@) == decrypted_payload(key@, iv@, encrypted_bytes@),
        forall|p: Seq<u8>|
            p.len() % 16 != 0 && encrypted_bytes@.len() % 16 == 0 && encrypted_bytes@
                == #[trigger] encrypted_payload(key@, iv@, p) ==> r.is_some() && r.unwrap()@ == p,
{
    if encrypted_bytes.len() % 16 != 0 {
        return None;
    }
    let ghost ciphertext = encrypted_bytes@;
    let plain: Vec<u8> = cbc_decrypt_blocks(&key, &iv, encrypted_bytes);
    proof {
        assert forall|p: Seq<u8>|
            p.len() % 16 != 0 && ciphertext == #[trigger] encrypted_payload(
                key@,
                iv@,
                p,
            ) implies unpad_payload(plain@) == Some(p) by {
            lemma_pad_payload_len(p);
            lemma_unpad_pad(p);
        }
    }
    unpad_payload_bytes(plain)
}

/// The first 16 bytes of the HMAC-SHA256 tag.
pub open spec fn hmac_sha256_128(key: Seq<u8>, data: Seq<u8>) -> Seq<u8> {
    hmac_sha256(key, data).take(16)
}

/// HMAC-SHA256 cut to its first 128 bits: the integrity tag of the session
/// envelope.
pub fn hash_hmac_sha_256_128(key: Vec<u8>, data: Vec<u8>) -> (r: [u8; 16])
    ensures
        r@ == hmac_sha256_128(key@, data@),
{
    let full: [u8; 32] = hash_hmac_sha_256(key, data);
    let mut tag: [u8; 16] = [0u8; 16];
    let mut i: usize = 0;
    while i < 16
        invariant
            i <= 16,
            forall|k: int| 0 <= k < i ==> tag@[k] == full@[k],
        decreases 16 - i,
    {
        tag[i] = full[i];
        i += 1;
    }
    assert(tag@ =~= full@.take(16));
    tag
}

} // verus!
