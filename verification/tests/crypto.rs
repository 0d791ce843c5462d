use zeroai::messages_bridge::crypto::{decrypt, encrypt, encrypt_with_iv, BugleCryptoKeys, CryptoError, MIN_DATA_LEN};

fn test_keys() -> BugleCryptoKeys {
    BugleCryptoKeys {
        aes_key: [0x42u8; 32],
        hmac_key: [0x7fu8; 32],
    }
}

#[test]
fn round_trip_encrypt_decrypt() {
    let keys = test_keys();
    let plaintext = b"Hello, Google Messages!";
    let encrypted = encrypt(&keys, plaintext);
    let decrypted = decrypt(&keys, &encrypted).expect("decryption should succeed");
    assert_eq!(decrypted, plaintext);
}

#[test]
fn decrypt_rejects_tampered_data() {
    let keys = test_keys();
    let plaintext = b"sensitive payload";
    let mut encrypted = encrypt(&keys, plaintext);
    // Flip a byte in the ciphertext portion.
    encrypted[0] ^= 0xff;
    let result = decrypt(&keys, &encrypted);
    assert!(
        matches!(result, Err(CryptoError::HmacMismatch)),
        "expected HmacMismatch, got {:?}",
        result
    );
}

#[test]
fn decrypt_rejects_too_short() {
    let keys = test_keys();
    let short_data = [0u8; 10];
    let result = decrypt(&keys, &short_data);
    assert!(
        matches!(result, Err(CryptoError::DataTooShort(10))),
        "expected DataTooShort(10), got {:?}",
        result
    );
}

#[test]
fn empty_plaintext_round_trip() {
    let keys = test_keys();
    let plaintext: &[u8] = &[];
    let encrypted = encrypt(&keys, plaintext);
    // Encrypted form must be exactly IV + HMAC (48 bytes) for empty input.
    assert_eq!(encrypted.len(), MIN_DATA_LEN);
    let decrypted =
        decrypt(&keys, &encrypted).expect("decryption of empty plaintext should succeed");
    assert_eq!(decrypted, plaintext);
}

#[test]
fn ciphertext_hides_the_plaintext_and_carries_the_iv() {
    let keys = test_keys();
    let plaintext = b"attack at dawn, bring snacks";
    let iv = [0x11u8; 16];
    let wire = encrypt_with_iv(&keys, &iv, plaintext);
    assert_eq!(wire.len(), plaintext.len() + MIN_DATA_LEN);
    assert_ne!(&wire[..plaintext.len()], &plaintext[..]);
    assert_eq!(&wire[plaintext.len()..plaintext.len() + 16], &iv[..]);
    let tag = &wire[plaintext.len() + 16..];
    assert_eq!(tag.len(), 32);
    assert_eq!(decrypt(&keys, &wire).unwrap(), plaintext);
    let again = encrypt_with_iv(&keys, &iv, plaintext);
    assert_eq!(again, wire);
}
