use encryption_node::crypto::{decryptable, keystream_covers};
use zeroize::Zeroize;
use encryption_node::crypto::{
    decrypt, encrypt, encrypt_with_nonce, frame_envelope, parse_envelope, CryptoError, SecretKey,
    ENVELOPE_VERSION_V1, HEADER_LEN, KEY_LEN, NONCE_LEN, TAG_LEN,
};

// T2: identical (plaintext, key) must produce distinct envelopes.
#[test]
fn nonce_is_fresh_per_encryption() {
    let key = SecretKey::generate();
    let plaintext = b"deterministic input";
    let a = encrypt(plaintext, &key).expect("encrypt a");
    let b = encrypt(plaintext, &key).expect("encrypt b");
    assert_ne!(a, b);
}

// T3: a single bit flipped in the Poly1305 tag must fail authentication.
#[test]
fn tampered_tag_fails_authentication() {
    let key = SecretKey::generate();
    let mut envelope = encrypt(b"payload", &key).expect("encrypt");
    let last = envelope.len() - 1;
    envelope[last] ^= 0x01;
    assert!(matches!(
        decrypt(&envelope, &key),
        Err(CryptoError::AuthFailure)
    ));
}

// T4: a single bit flipped in the ciphertext body must fail authentication.
#[test]
fn tampered_ciphertext_fails_authentication() {
    let key = SecretKey::generate();
    let plaintext = b"long enough that the ciphertext body is non-empty";
    let mut envelope = encrypt(plaintext, &key).expect("encrypt");
    envelope[HEADER_LEN] ^= 0x01;
    assert!(matches!(
        decrypt(&envelope, &key),
        Err(CryptoError::AuthFailure)
    ));
}

// T5: an envelope smaller than `header + tag` must surface as `TooShort`.
#[test]
fn truncated_envelope_is_rejected() {
    let key = SecretKey::generate();
    let too_small = vec![ENVELOPE_VERSION_V1; HEADER_LEN + TAG_LEN - 1];
    assert!(matches!(
        decrypt(&too_small, &key),
        Err(CryptoError::TooShort { .. })
    ));
}

// T6: an unrecognized version byte must surface distinctly.
#[test]
fn unknown_version_is_rejected() {
    let key = SecretKey::generate();
    let mut envelope = encrypt(b"x", &key).expect("encrypt");
    envelope[0] = 0xFF;
    assert!(matches!(
        decrypt(&envelope, &key),
        Err(CryptoError::UnsupportedVersion(0xFF))
    ));
}

// T7: a ciphertext authenticated under one key must not decrypt under another.
#[test]
fn wrong_key_fails_authentication() {
    let key = SecretKey::generate();
    let other = SecretKey::generate();
    let envelope = encrypt(b"secret", &key).expect("encrypt");
    assert!(matches!(
        decrypt(&envelope, &other),
        Err(CryptoError::AuthFailure)
    ));
}

// T8: `SecretKey::from_bytes` must reject any length other than KEY_LEN.
#[test]
fn from_bytes_rejects_wrong_length() {
    assert!(matches!(
        SecretKey::from_bytes(&[0u8; 16]),
        Err(CryptoError::InvalidKeyLength(16))
    ));
    assert!(matches!(
        SecretKey::from_bytes(&[0u8; 64]),
        Err(CryptoError::InvalidKeyLength(64))
    ));
}

#[test]
fn from_bytes_keeps_the_bytes() {
    let bytes: Vec<u8> = (0..32u8).collect();
    let key = SecretKey::from_bytes(&bytes).expect("32 bytes");
    assert_eq!(key.expose(), &bytes[..]);
    assert_eq!(key.expose().len(), KEY_LEN);
}

#[test]
fn from_bytes_rejects_empty() {
    assert!(matches!(
        SecretKey::from_bytes(&[]),
        Err(CryptoError::InvalidKeyLength(0))
    ));
}

#[test]
fn generated_key_has_full_length() {
    assert_eq!(SecretKey::generate().expose().len(), KEY_LEN);
}

#[test]
fn envelope_layout_is_version_nonce_sealed() {
    let key = SecretKey::from_bytes(&[7u8; 32]).expect("key");
    let nonce = [9u8; 24];
    let plaintext = b"layout";
    let envelope = encrypt_with_nonce(plaintext, &key, &nonce).expect("encrypt");
    assert_eq!(envelope.len(), plaintext.len() + HEADER_LEN + TAG_LEN);
    assert_eq!(envelope[0], ENVELOPE_VERSION_V1);
    assert_eq!(&envelope[1..HEADER_LEN], &nonce[..]);
    // The ciphertext is not the plaintext.
    assert_ne!(&envelope[HEADER_LEN..HEADER_LEN + plaintext.len()], &plaintext[..]);
    assert_eq!(decrypt(&envelope, &key).expect("decrypt"), plaintext);
}

#[test]
fn encryption_with_a_fixed_nonce_is_deterministic() {
    let key = SecretKey::from_bytes(&[1u8; 32]).expect("key");
    let nonce = [2u8; 24];
    let a = encrypt_with_nonce(b"same", &key, &nonce).expect("a");
    let b = encrypt_with_nonce(b"same", &key, &nonce).expect("b");
    assert_eq!(a, b);
}

fn hex(s: &str) -> Vec<u8> {
    (0..s.len())
        .step_by(2)
        .map(|i| u8::from_str_radix(&s[i..i + 2], 16).unwrap())
        .collect()
}

#[test]
fn known_answer_for_zero_key_and_nonce() {
    // XChaCha20-Poly1305 of the empty message under the all-zero key and nonce:
    // only the 16-byte tag.
    let key = SecretKey::from_bytes(&[0u8; 32]).expect("key");
    let nonce = [0u8; 24];
    let envelope = encrypt_with_nonce(b"", &key, &nonce).expect("encrypt");
    let mut expected = vec![ENVELOPE_VERSION_V1];
    expected.extend_from_slice(&nonce);
    expected.extend_from_slice(&hex("8f3b945a51906dc8600de9f8962d00e6"));
    assert_eq!(envelope, expected);
    assert_eq!(decrypt(&envelope, &key).expect("decrypt"), Vec::<u8>::new());
}

#[test]
fn known_answer_for_counting_key_and_nonce() {
    let key_bytes: Vec<u8> = (0..32u8).collect();
    let nonce: Vec<u8> = (0..24u8).collect();
    let key = SecretKey::from_bytes(&key_bytes).expect("key");
    let envelope = encrypt_with_nonce(b"hello", &key, &nonce).expect("encrypt");
    let mut expected = vec![ENVELOPE_VERSION_V1];
    expected.extend_from_slice(&nonce);
    expected.extend_from_slice(&hex("f6a76313ffb32df8d043e83027743feaa6af464ce2"));
    assert_eq!(envelope, expected);
    assert_eq!(decrypt(&expected, &key).expect("decrypt"), b"hello");
}

#[test]
fn empty_plaintext_round_trips() {
    let key = SecretKey::generate();
    let envelope = encrypt(b"", &key).expect("encrypt");
    assert_eq!(envelope.len(), HEADER_LEN + TAG_LEN);
    assert_eq!(decrypt(&envelope, &key).expect("decrypt"), Vec::<u8>::new());
}

#[test]
fn too_short_reports_length_and_minimum() {
    let key = SecretKey::generate();
    match decrypt(&[ENVELOPE_VERSION_V1; 40], &key) {
        Err(CryptoError::TooShort { len, min }) => {
            assert_eq!(len, 40);
            assert_eq!(min, 41);
        }
        _ => panic!("expected TooShort"),
    }
    // Length is checked before the version.
    assert!(matches!(
        decrypt(&[0xFFu8; 3], &key),
        Err(CryptoError::TooShort { len: 3, min: 41 })
    ));
}

#[test]
fn minimal_envelope_with_bad_tag_fails_authentication() {
    let key = SecretKey::generate();
    let envelope = vec![ENVELOPE_VERSION_V1; HEADER_LEN + TAG_LEN];
    assert!(matches!(
        decrypt(&envelope, &key),
        Err(CryptoError::AuthFailure)
    ));
}

#[test]
fn frame_then_parse_gives_the_parts_back() {
    let nonce = [5u8; NONCE_LEN];
    let sealed = [6u8; 20];
    let envelope = frame_envelope(&nonce, &sealed);
    assert_eq!(envelope.len(), 1 + NONCE_LEN + 20);
    assert_eq!(envelope[0], ENVELOPE_VERSION_V1);
    let (n, s) = parse_envelope(&envelope).expect("parse");
    assert_eq!(n, &nonce[..]);
    assert_eq!(s, &sealed[..]);
}

#[test]
fn parse_rejects_short_and_unknown_version() {
    assert!(matches!(
        parse_envelope(&[ENVELOPE_VERSION_V1; 40]),
        Err(CryptoError::TooShort { len: 40, min: 41 })
    ));
    assert!(matches!(
        parse_envelope(&[0x02u8; 41]),
        Err(CryptoError::UnsupportedVersion(0x02))
    ));
}

#[test]
fn keystream_limits_of_the_cipher() {
    let full = (u32::MAX as usize - 1) * 64;
    assert!(keystream_covers(0));
    assert!(keystream_covers(full - 1));
    assert!(keystream_covers(full));
    assert!(!keystream_covers(full + 1));
    assert!(!keystream_covers(full + 63));
    assert!(keystream_covers(full + 64));
    assert!(decryptable(&[]));
    assert!(decryptable(&[ENVELOPE_VERSION_V1; 40]));
    assert!(decryptable(&[ENVELOPE_VERSION_V1; 41]));
}

#[test]
fn zeroize_wipes_the_key() {
    let mut key = SecretKey::from_bytes(&[9u8; 32]).unwrap();
    key.zeroize();
    assert_eq!(key.expose(), &[0u8; 32][..]);
}

#[test]
fn every_changed_tag_byte_is_refused() {
    let key = SecretKey::generate();
    let envelope = encrypt(b"payload", &key).expect("encrypt");
    for i in envelope.len() - TAG_LEN..envelope.len() {
        let mut tampered = envelope.clone();
        tampered[i] ^= 0x80;
        assert!(matches!(decrypt(&tampered, &key), Err(CryptoError::AuthFailure)));
    }
    assert_eq!(decrypt(&envelope, &key).expect("decrypt"), b"payload");
}
