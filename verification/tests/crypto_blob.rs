use base64::Engine;
use artycon_overlay::api::crypto::{decrypt, derive_key, encrypt, encrypt_with_nonce, machine_id_from, decrypt_with_key};

const MACHINE: &[u8] = b"test-machine-id";

#[test]
fn round_trip() {
    let pt = b"hello world";
    let blob = encrypt(pt, MACHINE).unwrap();
    let back = decrypt(&blob, MACHINE).unwrap();
    assert_eq!(back, pt);
}

#[test]
fn tampered_fails() {
    let blob = encrypt(b"secret", MACHINE).unwrap();
    // flip a character somewhere in the body
    let mut bytes = blob.into_bytes();
    if let Some(b) = bytes.get_mut(20) {
        // when the character already is 'A' the blob would be left intact
        *b = if *b == b'A' { b'B' } else { b'A' };
    }
    let blob = String::from_utf8(bytes).unwrap();
    assert!(decrypt(&blob, MACHINE).is_err());
}

#[test]
fn other_machine_cannot_decrypt() {
    let blob = encrypt(b"secret", MACHINE).unwrap();
    assert_eq!(decrypt(&blob, b"another-machine").unwrap_err(), "decrypt failed: aead::Error");
}

#[test]
fn blob_layout_is_nonce_then_ciphertext_with_tag() {
    let key = derive_key(MACHINE);
    assert_eq!(key.len(), 32);
    let nonce = [7u8; 12];
    let blob = encrypt_with_nonce(b"abc", &key, &nonce).unwrap();
    // 12 + 3 + 16 = 31 bytes -> 44 base64 characters
    assert_eq!(blob.len(), 44);
    // same key, nonce and plaintext give the same blob
    assert_eq!(blob, encrypt_with_nonce(b"abc", &key, &nonce).unwrap());
    assert_eq!(decrypt_with_key(&blob, &key).unwrap(), b"abc");
    // the nonce is the blob's prefix: 12 bytes of 7 encode as "BwcHBwcHBwcHBwcH"
    assert!(blob.starts_with("BwcHBwcHBwcHBwcH"));
}

#[test]
fn derive_key_depends_on_machine() {
    assert_eq!(derive_key(MACHINE), derive_key(MACHINE));
    assert_ne!(derive_key(MACHINE), derive_key(b"x"));
}

#[test]
fn decrypt_errors() {
    let e = decrypt("not base64!", MACHINE).unwrap_err();
    assert!(e.starts_with("base64 decode: "), "{e}");
    assert_eq!(decrypt("AAAA", MACHINE).unwrap_err(), "ciphertext too short");
}

#[test]
fn fresh_nonces_differ() {
    let a = encrypt(b"same", MACHINE).unwrap();
    let b = encrypt(b"same", MACHINE).unwrap();
    assert_ne!(a, b);
}

#[test]
fn machine_id_prefers_uid() {
    assert_eq!(
        machine_id_from(Some("uid-1".to_string()), Some("h".to_string()), None, None),
        b"uid-1".to_vec()
    );
}

#[test]
fn machine_id_fallback() {
    assert_eq!(
        machine_id_from(None, Some("host".to_string()), Some("alice".to_string()), Some("bob".to_string())),
        b"fallback::host::alice".to_vec()
    );
    assert_eq!(
        machine_id_from(None, None, None, Some("bob".to_string())),
        b"fallback::unknown-host::bob".to_vec()
    );
    assert_eq!(machine_id_from(None, None, None, None), b"fallback::unknown-host::unknown-user".to_vec());
}

#[test]
fn decoded_blob_is_nonce_then_sealed_text() {
    let key = derive_key(MACHINE);
    let nonce = [9u8; 12];
    let pt = b"plaintext!";
    let blob = encrypt_with_nonce(pt, &key, &nonce).unwrap();
    let raw = base64::engine::general_purpose::STANDARD.decode(blob.as_bytes()).unwrap();
    assert_eq!(raw.len(), pt.len() + 28);
    assert_eq!(&raw[..12], &nonce);
    let blob = encrypt(pt, MACHINE).unwrap();
    let raw = base64::engine::general_purpose::STANDARD.decode(blob.as_bytes()).unwrap();
    assert_eq!(raw.len(), pt.len() + 28);
}
