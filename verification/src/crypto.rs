//! AES-CBC decryption of hex-encoded ciphertexts.

use vstd::prelude::*;
use cbc::cipher::{BlockDecryptMut, KeyIvInit};
use cbc::cipher::block_padding::Pkcs7;
use vstd::slice::slice_subrange;
use vstd::string::StringSliceAdditionalSpecFns;
use vstd::utf8::{
    decode_utf8,
    encode_utf8,
    encode_utf8_decode_utf8,
    encode_utf8_valid_utf8,
    valid_utf8,
};
use crate::error::{EcError, HexFault};

verus! {

/// True when `b` is one of `0-9`, `a-f`, `A-F`.
pub open spec fn is_hex_digit(b: u8) -> bool {
    (0x30 <= b <= 0x39) || (0x61 <= b <= 0x66) || (0x41 <= b <= 0x46)
}

/// The value of a hexadecimal digit.
pub open spec fn hex_value(b: u8) -> int
    recommends
        is_hex_digit(b),
{
    if 0x30 <= b <= 0x39 {
        b - 0x30
    } else if 0x61 <= b <= 0x66 {
        b - 0x61 + 10
    } else {
        b - 0x41 + 10
    }
}

/// The least index of a byte of `s` that is no hexadecimal digit.
pub open spec fn first_bad_digit(s: Seq<u8>) -> Option<int>
    decreases s.len(),
{
    if s.len() == 0 {
        None
    } else if !is_hex_digit(s[0]) {
        Some(0)
    } else {
        match first_bad_digit(s.drop_first()) {
            Some(i) => Some(i + 1),
            None => None,
        }
    }
}

/// Why `s` does not decode, if it does not: an odd length is reported before
/// a bad digit, and of the bad digits the first.
pub open spec fn hex_fault(s: Seq<u8>) -> Option<HexFault> {
    if s.len() % 2 != 0 {
        Some(HexFault::OddLength)
    } else {
        match first_bad_digit(s) {
            Some(i) => Some(HexFault::InvalidCharacter { c: s[i] as char, index: i as usize }),
            None => None,
        }
    }
}

/// The bytes that the digit pairs of `s` stand for.
pub open spec fn hex_decoded(s: Seq<u8>) -> Seq<u8> {
    Seq::new(s.len() / 2, |i: int| (16 * hex_value(s[2 * i]) + hex_value(s[2 * i + 1])) as u8)
}

/// Calls `hex::decode`. Assumed: the call fails exactly on the strings with
/// a `hex_fault`, with that fault, and otherwise returns `hex_decoded`.
#[verifier::external_body]
fn hex_decode(text: &str) -> (r: Result<Vec<u8>, HexFault>)
    ensures
        match r {
            Ok(bytes) => hex_fault(text.spec_bytes()) is None && bytes@ == hex_decoded(
                text.spec_bytes(),
            ),
            Err(fault) => hex_fault(text.spec_bytes()) == Some(fault),
        },
{
    match hex::decode(text) {
        Ok(bytes) => Ok(bytes),
        Err(hex::FromHexError::InvalidHexCharacter { c, index }) => Err(
            HexFault::InvalidCharacter { c, index },
        ),
        Err(hex::FromHexError::OddLength) => Err(HexFault::OddLength),
        Err(hex::FromHexError::InvalidStringLength) => Err(HexFault::InvalidLength),
    }
}

/// The length of a cipher block, and of the initialization vector.
pub const BLOCK_SIZE: usize = 16;

/// What is left of decrypted blocks when PKCS#7 padding is taken off: the
/// last byte `n` must be in `1..=16` and the last `n` bytes must all be `n`.
pub open spec fn pkcs7_unpadded(blocks: Seq<u8>) -> Option<Seq<u8>> {
    if blocks.len() == 0 {
        None
    } else {
        let n = blocks.last() as int;
        if 1 <= n <= 16 && n <= blocks.len() && (forall|i: int|
            blocks.len() - n <= i < blocks.len() ==> blocks[i] == n) {
            Some(blocks.take(blocks.len() - n))
        } else {
            None
        }
    }
}

/// `data` followed by PKCS#7 padding to the next multiple of 16 bytes.
pub open spec fn pkcs7_padded(data: Seq<u8>) -> Seq<u8> {
    let n = 16 - data.len() % 16;
    data + Seq::new(n as nat, |i: int| n as u8)
}

/// What is read from a ciphertext of `ciphertext_len` bytes whose block
/// decryption is `blocks`: nothing unless the ciphertext is a positive
/// number of whole blocks.
pub open spec fn unpadded_plaintext(ciphertext_len: nat, blocks: Seq<u8>) -> Option<Seq<u8>> {
    if ciphertext_len == 0 || ciphertext_len % 16 != 0 {
        None
    } else {
        pkcs7_unpadded(blocks)
    }
}

/// The block decryption of `ciphertext` by AES-128 in CBC mode, before any
/// padding is removed.
pub uninterp spec fn aes128_cbc_blocks(key: Seq<u8>, iv: Seq<u8>, ciphertext: Seq<u8>) -> Seq<u8>;

/// The block decryption of `ciphertext` by AES-192 in CBC mode, before any
/// padding is removed.
pub uninterp spec fn aes192_cbc_blocks(key: Seq<u8>, iv: Seq<u8>, ciphertext: Seq<u8>) -> Seq<u8>;

/// The block decryption of `ciphertext` by AES-256 in CBC mode, before any
/// padding is removed.
pub uninterp spec fn aes256_cbc_blocks(key: Seq<u8>, iv: Seq<u8>, ciphertext: Seq<u8>) -> Seq<u8>;

/// Calls `cbc::Decryptor::<aes::Aes128>::decrypt_padded_mut` with PKCS#7
/// padding. Assumed: the call fails when the ciphertext is empty or no whole
/// number of blocks, and otherwise decrypts all blocks and strips the
/// padding as `pkcs7_unpadded` says.
#[verifier::external_body]
fn aes128_cbc_decrypt(key: &[u8], iv: &[u8], ciphertext: &[u8]) -> (plain: Option<Vec<u8>>)
    requires
        key@.len() == 16,
        iv@.len() == 16,
    ensures
        match plain {
            Some(bytes) => unpadded_plaintext(
                ciphertext@.len(),
                aes128_cbc_blocks(key@, iv@, ciphertext@),
            ) == Some(bytes@),
            None => unpadded_plaintext(
                ciphertext@.len(),
                aes128_cbc_blocks(key@, iv@, ciphertext@),
            ) is None,
        },
{
    let mut buffer = ciphertext.to_vec();
    let cipher = cbc::Decryptor::<aes::Aes128>::new(key.into(), iv.into());
    match cipher.decrypt_padded_mut::<Pkcs7>(&mut buffer) {
        Ok(plain) => Some(plain.to_vec()),
        Err(_) => None,
    }
}

/// Calls `cbc::Decryptor::<aes::Aes192>::decrypt_padded_mut` with PKCS#7
/// padding. Assumed: the call fails when the ciphertext is empty or no whole
/// number of blocks, and otherwise decrypts all blocks and strips the
/// padding as `pkcs7_unpadded` says.
#[verifier::external_body]
fn aes192_cbc_decrypt(key: &[u8], iv: &[u8], ciphertext: &[u8]) -> (plain: Option<Vec<u8>>)
    requires
        key@.len() == 24,
        iv@.len() == 16,
    ensures
        match plain {
            Some(bytes) => unpadded_plaintext(
                ciphertext@.len(),
                aes192_cbc_blocks(key@, iv@, ciphertext@),
            ) == Some(bytes@),
            None => unpadded_plaintext(
                ciphertext@.len(),
                aes192_cbc_blocks(key@, iv@, ciphertext@),
            ) is None,
        },
{
    let mut buffer = ciphertext.to_vec();
    let cipher = cbc::Decryptor::<aes::Aes192>::new(key.into(), iv.into());
    match cipher.decrypt_padded_mut::<Pkcs7>(&mut buffer) {
        Ok(plain) => Some(plain.to_vec()),
        Err(_) => None,
    }
}

/// Calls `cbc::Decryptor::<aes::Aes256>::decrypt_padded_mut` with PKCS#7
/// padding. Assumed: the call fails when the ciphertext is empty or no whole
/// number of blocks, and otherwise decrypts all blocks and strips the
/// padding as `pkcs7_unpadded` says.
#[verifier::external_body]
fn aes256_cbc_decrypt(key: &[u8], iv: &[u8], ciphertext: &[u8]) -> (plain: Option<Vec<u8>>)
    requires
        key@.len() == 32,
        iv@.len() == 16,
    ensures
        match plain {
            Some(bytes) => unpadded_plaintext(
                ciphertext@.len(),
                aes256_cbc_blocks(key@, iv@, ciphertext@),
            ) == Some(bytes@),
            None => unpadded_plaintext(
                ciphertext@.len(),
                aes256_cbc_blocks(key@, iv@, ciphertext@),
            ) is None,
        },
{
    let mut buffer = ciphertext.to_vec();
    let cipher = cbc::Decryptor::<aes::Aes256>::new(key.into(), iv.into());
    match cipher.decrypt_padded_mut::<Pkcs7>(&mut buffer) {
        Ok(plain) => Some(plain.to_vec()),
        Err(_) => None,
    }
}

/// True when `n` is the greatest length of a prefix of `bytes` that is
/// valid UTF-8.
pub open spec fn is_valid_up_to(bytes: Seq<u8>, n: int) -> bool {
    &&& 0 <= n <= bytes.len()
    &&& valid_utf8(bytes.take(n))
    &&& forall|m: int| n < m <= bytes.len() ==> !valid_utf8(#[trigger] bytes.take(m))
}

/// The greatest length of a prefix of `bytes` that is valid UTF-8.
pub open spec fn utf8_valid_up_to(bytes: Seq<u8>) -> int {
    choose|n: int| is_valid_up_to(bytes, n)
}

/// Calls `String::from_utf8`, and `Utf8Error::valid_up_to` on its error.
/// Assumed, as std documents both: the call succeeds exactly on valid UTF-8,
/// with the decoded text, and the error gives the greatest length of a
/// valid prefix.
#[verifier::external_body]
fn text_from_utf8(bytes: Vec<u8>) -> (r: Result<String, usize>)
    ensures
        match r {
            Ok(text) => valid_utf8(bytes@) && text@ == decode_utf8(bytes@),
            Err(n) => !valid_utf8(bytes@) && is_valid_up_to(bytes@, n as int),
        },
{
    match String::from_utf8(bytes) {
        Ok(text) => Ok(text),
        Err(e) => Err(e.utf8_error().valid_up_to()),
    }
}

/// True for the key lengths that select a cipher: 16, 24 and 32 bytes.
pub open spec fn supported_key_size(length: nat) -> bool {
    length == 16 || length == 24 || length == 32
}

/// The initialization vector that goes with `key`: its first 16 bytes.
pub open spec fn derived_iv(key: Seq<u8>) -> Seq<u8>
    recommends
        key.len() >= 16,
{
    key.take(16)
}

/// The block decryption of `ciphertext` under `key`, by the cipher that the
/// key's length selects and with the initialization vector derived from it.
pub open spec fn cbc_blocks(key: Seq<u8>, ciphertext: Seq<u8>) -> Seq<u8>
    recommends
        supported_key_size(key.len()),
{
    if key.len() == 16 {
        aes128_cbc_blocks(key, derived_iv(key), ciphertext)
    } else if key.len() == 24 {
        aes192_cbc_blocks(key, derived_iv(key), ciphertext)
    } else {
        aes256_cbc_blocks(key, derived_iv(key), ciphertext)
    }
}

/// The text read from decrypted and unpadded `bytes`.
pub open spec fn text_of_plaintext(bytes: Seq<u8>) -> Result<Seq<char>, EcError> {
    if valid_utf8(bytes) {
        Ok(decode_utf8(bytes))
    } else {
        Err(EcError::EncodingError { valid_up_to: utf8_valid_up_to(bytes) as usize })
    }
}

/// What decrypting the hex string `ciphertext_hex` under `key` gives: the
/// plaintext, or the first failure in the order decoding, key size,
/// padding, text encoding.
pub open spec fn decryption(ciphertext_hex: Seq<u8>, key: Seq<u8>) -> Result<Seq<char>, EcError> {
    match hex_fault(ciphertext_hex) {
        Some(fault) => Err(EcError::InvalidEncoding { fault }),
        None => if !supported_key_size(key.len()) {
            Err(EcError::UnsupportedKeySize { length: key.len() as usize })
        } else {
            let ciphertext = hex_decoded(ciphertext_hex);
            match unpadded_plaintext(ciphertext.len(), cbc_blocks(key, ciphertext)) {
                None => Err(EcError::PaddingError),
                Some(bytes) => text_of_plaintext(bytes),
            }
        },
    }
}

/// True when `r` is the outcome `model`, the text taken by its characters.
pub open spec fn is_outcome(r: Result<String, EcError>, model: Result<Seq<char>, EcError>) -> bool
{
    match r {
        Ok(text) => model == Ok::<Seq<char>, EcError>(text@),
        Err(e) => model == Err::<Seq<char>, EcError>(e),
    }
}

/// Reads decrypted and unpadded bytes as UTF-8 text.
pub fn plaintext_to_text(bytes: Vec<u8>) -> (r: Result<String, EcError>)
    ensures
        is_outcome(r, text_of_plaintext(bytes@)),
{
    let ghost model = bytes@;
    match text_from_utf8(bytes) {
        Ok(text) => Ok(text),
        Err(n) => {
            proof {
                lemma_valid_up_to_unique(model, n as int, utf8_valid_up_to(model));
            }
            Err(EcError::EncodingError { valid_up_to: n })
        },
    }
}

/// At most one length is the greatest length of a valid prefix.
pub proof fn lemma_valid_up_to_unique(bytes: Seq<u8>, a: int, b: int)
    requires
        is_valid_up_to(bytes, a),
    ensures
        is_valid_up_to(bytes, utf8_valid_up_to(bytes)),
        is_valid_up_to(bytes, b) ==> a == b,
{
}

/// Decrypts the blocks of `ciphertext` and removes the padding, with the
/// cipher that the length of `key` selects.
fn decrypt_blocks(key: &[u8], ciphertext: &[u8]) -> (plain: Option<Vec<u8>>)
    requires
        supported_key_size(key@.len()),
    ensures
        match plain {
            Some(bytes) => unpadded_plaintext(ciphertext@.len(), cbc_blocks(key@, ciphertext@))
                == Some(bytes@),
            None => unpadded_plaintext(ciphertext@.len(), cbc_blocks(key@, ciphertext@)) is None,
        },
{
    let iv = slice_subrange(key, 0, BLOCK_SIZE);
    assert(iv@ == derived_iv(key@));
    if key.len() == 16 {
        aes128_cbc_decrypt(key, iv, ciphertext)
    } else if key.len() == 24 {
        aes192_cbc_decrypt(key, iv, ciphertext)
    } else {
        aes256_cbc_decrypt(key, iv, ciphertext)
    }
}

/// Decrypts a hex-encoded AES-CBC ciphertext with PKCS#7 padding.
///
/// The cipher is AES-128, AES-192 or AES-256 by the length of the key in
/// bytes; the initialization vector is the first 16 bytes of the key.
pub fn decrypt_aes_cbc(ciphertext_hex: &str, key: &str) -> (r: Result<String, EcError>)
    ensures
        is_outcome(r, decryption(ciphertext_hex.spec_bytes(), key.spec_bytes())),
{
    let ciphertext = match hex_decode(ciphertext_hex) {
        Ok(bytes) => bytes,
        Err(fault) => {
            return Err(EcError::InvalidEncoding { fault });
        },
    };
    let key_bytes = key.as_bytes();
    let key_len = key_bytes.len();
    if !(key_len == 16 || key_len == 24 || key_len == 32) {
        return Err(EcError::UnsupportedKeySize { length: key_len });
    }
    match decrypt_blocks(key_bytes, ciphertext.as_slice()) {
        None => Err(EcError::PaddingError),
        Some(bytes) => plaintext_to_text(bytes),
    }
}

/// True when `ciphertext` is as long as the padded UTF-8 encoding of
/// `plaintext` and its blocks decrypt to it under `key`. This is how the
/// library speaks of a ciphertext made from `plaintext` in CBC mode with
/// PKCS#7 padding, under `key` and the initialization vector derived from
/// it: it has no encryption of its own.
pub open spec fn is_encryption_of(ciphertext: Seq<u8>, key: Seq<u8>, plaintext: Seq<char>) -> bool
{
    let padded = pkcs7_padded(encode_utf8(plaintext));
    ciphertext.len() == padded.len() && cbc_blocks(key, ciphertext) == padded
}

/// Removing the padding from padded data gives the data back, and padded
/// data is a positive number of whole blocks.
pub proof fn lemma_pkcs7_round_trip(data: Seq<u8>)
    ensures
        pkcs7_unpadded(pkcs7_padded(data)) == Some(data),
        pkcs7_padded(data).len() > 0,
        pkcs7_padded(data).len() % 16 == 0,
{
    let n = 16 - data.len() % 16;
    let padded = pkcs7_padded(data);
    assert(padded.len() == data.len() + n);
    assert(padded.last() == n as u8);
    assert(padded.take(padded.len() - n) =~= data);
}

/// Decryption gives the plaintext back: for a key of 16, 24 or 32 bytes,
/// the hex encoding of a ciphertext that `is_encryption_of` a plaintext
/// decrypts to that plaintext.
pub proof fn lemma_decrypt_recovers_plaintext(
    ciphertext_hex: Seq<u8>,
    key: Seq<u8>,
    plaintext: Seq<char>,
)
    requires
        supported_key_size(key.len()),
        hex_fault(ciphertext_hex) is None,
        is_encryption_of(hex_decoded(ciphertext_hex), key, plaintext),
    ensures
        decryption(ciphertext_hex, key) == Ok::<Seq<char>, EcError>(plaintext),
{
    let data = encode_utf8(plaintext);
    lemma_pkcs7_round_trip(data);
    encode_utf8_valid_utf8(plaintext);
    encode_utf8_decode_utf8(plaintext);
}

/// A key whose length is none of 16, 24 and 32 bytes is refused with
/// `UnsupportedKeySize`, whatever the decodable ciphertext.
pub proof fn lemma_unsupported_key_size(ciphertext_hex: Seq<u8>, key: Seq<u8>)
    requires
        hex_fault(ciphertext_hex) is None,
        !supported_key_size(key.len()),
    ensures
        decryption(ciphertext_hex, key) == Err::<Seq<char>, EcError>(
            EcError::UnsupportedKeySize { length: key.len() as usize },
        ),
{
}

/// `first_bad_digit` finds the least index of a byte that is no digit, and
/// finds none exactly when all bytes are digits.
pub proof fn lemma_first_bad_digit(s: Seq<u8>)
    ensures
        match first_bad_digit(s) {
            Some(i) => 0 <= i < s.len() && !is_hex_digit(s[i]) && forall|j: int|
                0 <= j < i ==> is_hex_digit(s[j]),
            None => forall|j: int| 0 <= j < s.len() ==> is_hex_digit(s[j]),
        },
    decreases s.len(),
{
    if s.len() > 0 && is_hex_digit(s[0]) {
        let rest = s.drop_first();
        lemma_first_bad_digit(rest);
        match first_bad_digit(rest) {
            Some(i) => {
                assert forall|j: int| 0 <= j < i + 1 implies is_hex_digit(s[j]) by {
                    if j > 0 {
                        assert(s[j] == rest[j - 1]);
                    }
                }
            },
            None => {
                assert forall|j: int| 0 <= j < s.len() implies is_hex_digit(s[j]) by {
                    if j > 0 {
                        assert(s[j] == rest[j - 1]);
                    }
                }
            },
        }
    }
}

/// A ciphertext string that holds a byte that is no hexadecimal digit is
/// refused with `InvalidEncoding`, whatever the key.
pub proof fn lemma_non_hex_is_invalid_encoding(ciphertext_hex: Seq<u8>, key: Seq<u8>, i: int)
    requires
        0 <= i < ciphertext_hex.len(),
        !is_hex_digit(ciphertext_hex[i]),
    ensures
        decryption(ciphertext_hex, key) matches Err(EcError::InvalidEncoding { .. }),
{
    lemma_first_bad_digit(ciphertext_hex);
}

} // verus!
