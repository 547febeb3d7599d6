use aes::{Aes128, Aes192, Aes256};
use cbc::cipher::block_padding::{NoPadding, Pkcs7};
use cbc::cipher::{BlockEncryptMut, KeyIvInit};
use ec_cli::crypto::decrypt_aes_cbc;
use ec_cli::error::{EcError, HexFault};

const KEY_128: &str = "0123456789abcdef";
const KEY_192: &str = "0123456789abcdef01234567";
const KEY_256: &str = "0123456789abcdef0123456789abcdef";

fn encrypt_hex(plaintext: &[u8], key: &str) -> String {
    let key = key.as_bytes();
    let iv = &key[..16];
    let ciphertext = match key.len() {
        16 => Aes128Enc::new(key.into(), iv.into()).encrypt_padded_vec_mut::<Pkcs7>(plaintext),
        24 => Aes192Enc::new(key.into(), iv.into()).encrypt_padded_vec_mut::<Pkcs7>(plaintext),
        _ => Aes256Enc::new(key.into(), iv.into()).encrypt_padded_vec_mut::<Pkcs7>(plaintext),
    };
    hex::encode(ciphertext)
}

fn encrypt_blocks_hex(blocks: &[u8], key: &str) -> String {
    let key = key.as_bytes();
    let iv = &key[..16];
    let ciphertext =
        Aes128Enc::new(key.into(), iv.into()).encrypt_padded_vec_mut::<NoPadding>(blocks);
    hex::encode(ciphertext)
}

type Aes128Enc = cbc::Encryptor<Aes128>;
type Aes192Enc = cbc::Encryptor<Aes192>;
type Aes256Enc = cbc::Encryptor<Aes256>;

#[test]
fn test_decrypt_basic() {
    // This is a simplified test - in real usage, you'd need actual encrypted data
    // from the Everybody Codes API
    let key = "0123456789abcdef0123456789abcdef";
    let result = decrypt_aes_cbc("invalid_hex", key);
    assert!(result.is_err());
}

#[test]
fn decrypt_round_trip_aes128() {
    let hex = encrypt_hex("Hello, quest!".as_bytes(), KEY_128);
    assert_eq!(decrypt_aes_cbc(&hex, KEY_128), Ok("Hello, quest!".to_string()));
}

#[test]
fn decrypt_round_trip_aes192() {
    let hex = encrypt_hex("Hello, quest!".as_bytes(), KEY_192);
    assert_eq!(decrypt_aes_cbc(&hex, KEY_192), Ok("Hello, quest!".to_string()));
}

#[test]
fn decrypt_round_trip_aes256() {
    let hex = encrypt_hex("Hello, quest!".as_bytes(), KEY_256);
    assert_eq!(decrypt_aes_cbc(&hex, KEY_256), Ok("Hello, quest!".to_string()));
}

#[test]
fn decrypt_round_trip_over_several_blocks() {
    let text = "The quick brown fox jumps over the lazy dog. \u{00e9}\u{4e2d}\u{1F389}\n".repeat(7);
    for key in [KEY_128, KEY_192, KEY_256] {
        let hex = encrypt_hex(text.as_bytes(), key);
        assert_eq!(decrypt_aes_cbc(&hex, key), Ok(text.clone()));
    }
}

#[test]
fn decrypt_round_trip_of_whole_blocks_and_of_nothing() {
    let sixteen = "0123456789ABCDEF";
    let hex = encrypt_hex(sixteen.as_bytes(), KEY_128);
    assert_eq!(hex.len(), 64);
    assert_eq!(decrypt_aes_cbc(&hex, KEY_128), Ok(sixteen.to_string()));
    let hex = encrypt_hex(b"", KEY_128);
    assert_eq!(hex.len(), 32);
    assert_eq!(decrypt_aes_cbc(&hex, KEY_128), Ok(String::new()));
}

#[test]
fn decrypt_known_ciphertext() {
    // AES-128-CBC of "abc" under key and IV "0123456789abcdef".
    let hex = encrypt_hex(b"abc", KEY_128);
    let result = decrypt_aes_cbc(&hex, KEY_128);
    assert_eq!(result, Ok("abc".to_string()));
    assert_ne!(result, Ok(hex.clone()));
    assert_ne!(result, Ok(KEY_128.to_string()));
}

#[test]
fn decrypt_accepts_upper_case_hex() {
    let hex = encrypt_hex(b"Mixed Case", KEY_192).to_uppercase();
    assert_eq!(decrypt_aes_cbc(&hex, KEY_192), Ok("Mixed Case".to_string()));
}

#[test]
fn decrypt_is_deterministic() {
    let hex = encrypt_hex(b"same in, same out", KEY_256);
    assert_eq!(decrypt_aes_cbc(&hex, KEY_256), decrypt_aes_cbc(&hex, KEY_256));
    assert_eq!(decrypt_aes_cbc(&hex, KEY_128), decrypt_aes_cbc(&hex, KEY_128));
}

#[test]
fn decrypt_refuses_unsupported_key_sizes() {
    let hex = encrypt_hex(b"anything", KEY_128);
    for length in [15usize, 17, 23, 33, 0, 1, 25, 31, 64] {
        let key = "k".repeat(length);
        assert_eq!(decrypt_aes_cbc(&hex, &key), Err(EcError::UnsupportedKeySize { length }));
    }
}

#[test]
fn decrypt_counts_key_bytes_not_characters() {
    let hex = encrypt_hex(b"anything", KEY_128);
    // Sixteen characters, seventeen bytes.
    let key = "0123456789abcd\u{00e9}f";
    assert_eq!(key.chars().count(), 16);
    assert_eq!(decrypt_aes_cbc(&hex, key), Err(EcError::UnsupportedKeySize { length: 17 }));
}

#[test]
fn decrypt_refuses_non_hex_characters() {
    assert_eq!(
        decrypt_aes_cbc("gg00", KEY_128),
        Err(EcError::InvalidEncoding { fault: HexFault::InvalidCharacter { c: 'g', index: 0 } })
    );
    assert_eq!(
        decrypt_aes_cbc("00ab0z", KEY_128),
        Err(EcError::InvalidEncoding { fault: HexFault::InvalidCharacter { c: 'z', index: 5 } })
    );
    assert_eq!(
        decrypt_aes_cbc("invalid_hex", KEY_256),
        Err(EcError::InvalidEncoding { fault: HexFault::OddLength })
    );
}

#[test]
fn decrypt_refuses_odd_length_before_bad_digits() {
    assert_eq!(
        decrypt_aes_cbc("abc", KEY_128),
        Err(EcError::InvalidEncoding { fault: HexFault::OddLength })
    );
    assert_eq!(
        decrypt_aes_cbc("zzz", KEY_128),
        Err(EcError::InvalidEncoding { fault: HexFault::OddLength })
    );
}

#[test]
fn decrypt_reports_bad_hex_before_bad_key() {
    assert_eq!(
        decrypt_aes_cbc("gg00", "short"),
        Err(EcError::InvalidEncoding { fault: HexFault::InvalidCharacter { c: 'g', index: 0 } })
    );
}

#[test]
fn decrypt_refuses_partial_blocks_and_empty_ciphertext() {
    assert_eq!(decrypt_aes_cbc("", KEY_128), Err(EcError::PaddingError));
    assert_eq!(decrypt_aes_cbc("00", KEY_128), Err(EcError::PaddingError));
    let hex = encrypt_hex(b"abc", KEY_128);
    assert_eq!(decrypt_aes_cbc(&hex[..30], KEY_128), Err(EcError::PaddingError));
}

#[test]
fn decrypt_refuses_malformed_padding() {
    // A block that ends in 0 has no padding, one that ends in 17 too much,
    // and one that ends in 3 must end in three threes.
    let mut block = [b'a'; 16];
    block[15] = 0;
    assert_eq!(
        decrypt_aes_cbc(&encrypt_blocks_hex(&block, KEY_128), KEY_128),
        Err(EcError::PaddingError)
    );
    block[15] = 17;
    assert_eq!(
        decrypt_aes_cbc(&encrypt_blocks_hex(&block, KEY_128), KEY_128),
        Err(EcError::PaddingError)
    );
    block[15] = 3;
    assert_eq!(
        decrypt_aes_cbc(&encrypt_blocks_hex(&block, KEY_128), KEY_128),
        Err(EcError::PaddingError)
    );
    block[14] = 3;
    block[13] = 3;
    assert_eq!(
        decrypt_aes_cbc(&encrypt_blocks_hex(&block, KEY_128), KEY_128),
        Ok("a".repeat(13))
    );
}

#[test]
fn decrypt_strips_a_whole_block_of_padding() {
    let block = [16u8; 16];
    assert_eq!(
        decrypt_aes_cbc(&encrypt_blocks_hex(&block, KEY_128), KEY_128),
        Ok(String::new())
    );
}

#[test]
fn decrypt_with_the_wrong_key_fails() {
    let hex = encrypt_hex("A longer text, so that a wrong key shows.".as_bytes(), KEY_128);
    let result = decrypt_aes_cbc(&hex, "fedcba9876543210");
    assert!(matches!(
        result,
        Err(EcError::PaddingError) | Err(EcError::EncodingError { .. })
    ));
}

#[test]
fn decrypt_refuses_text_that_is_not_utf8() {
    let hex = encrypt_hex(&[b'a', 0xff, b'b'], KEY_128);
    assert_eq!(decrypt_aes_cbc(&hex, KEY_128), Err(EcError::EncodingError { valid_up_to: 1 }));
    let hex = encrypt_hex(&[b'o', b'k', 0xe2, 0x82], KEY_256);
    assert_eq!(decrypt_aes_cbc(&hex, KEY_256), Err(EcError::EncodingError { valid_up_to: 2 }));
}
