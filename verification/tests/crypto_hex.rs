use borg_db::crypto::{content_hash_hex, derive_hmac_key, generate_salt, resolve_hmac_salt, SaltSource};
use borg_db::hex::{decode_salt_hex, to_hex_lower};

#[test]
fn hex_is_lowercase_two_digits_per_byte() {
    assert_eq!(to_hex_lower(&[0x00, 0x0f, 0xa0, 0xff]), "000fa0ff");
    assert_eq!(to_hex_lower(&[]), "");
}

#[test]
fn salt_round_trips_through_hex() {
    let salt: Vec<u8> = (0u8..32).map(|i| i.wrapping_mul(37).wrapping_add(5)).collect();
    let hex = to_hex_lower(&salt);
    assert_eq!(hex.len(), 64);
    assert_eq!(decode_salt_hex(&hex), Some(salt));
}

#[test]
fn salt_decoding_accepts_uppercase_and_plus_groups() {
    let mut text = String::from("+A");
    text.push_str(&"Ff".repeat(31));
    let decoded = decode_salt_hex(&text).unwrap();
    assert_eq!(decoded[0], 0x0a);
    assert!(decoded[1..].iter().all(|b| *b == 0xff));
}

#[test]
fn corrupt_salt_text_is_rejected() {
    assert_eq!(decode_salt_hex("abcd"), None);
    assert_eq!(decode_salt_hex(&"zz".repeat(32)), None);
    assert_eq!(decode_salt_hex(&"0".repeat(63)), None);
    let mut text = "00".repeat(31);
    text.push_str("0g");
    assert_eq!(decode_salt_hex(&text), None);
}

#[test]
fn fresh_salt_is_32_bytes_with_matching_hex() {
    let s = generate_salt();
    assert_eq!(s.salt.len(), 32);
    assert_eq!(s.hex, to_hex_lower(&s.salt));
    assert_eq!(decode_salt_hex(&s.hex), Some(s.salt.clone()));
}

#[test]
fn stored_salt_is_reused_and_corrupt_one_regenerated() {
    let hex = "ab".repeat(32);
    match resolve_hmac_salt(Some(&hex)) {
        SaltSource::Stored(v) => assert_eq!(v, vec![0xab; 32]),
        SaltSource::Fresh(_) => panic!("stored salt should be reused"),
    }
    match resolve_hmac_salt(Some("not hex")) {
        SaltSource::Fresh(n) => assert_eq!(n.salt.len(), 32),
        SaltSource::Stored(_) => panic!("corrupt salt should be regenerated"),
    }
    assert!(matches!(resolve_hmac_salt(None), SaltSource::Fresh(_)));
}

#[test]
fn content_hash_is_sha256_hex() {
    assert_eq!(
        content_hash_hex(""),
        "e3b0c44298fc1c149afbf4c8996fb92427ae41e4649b934ca495991b7852b855"
    );
    assert_eq!(
        content_hash_hex("abc"),
        "ba7816bf8f01cfea414140de5dae2223b00361a396177a9cb410ff61f20015ad"
    );
}

#[test]
fn hmac_key_matches_rfc4231_case_2() {
    let key = derive_hmac_key(b"Jefe", b"what do ya want for nothing?");
    assert_eq!(
        to_hex_lower(&key),
        "5bdcc146bf60754e6a042426089575c75a003f089d2739839dec58b964ec3843"
    );
}

#[test]
fn hmac_keys_differ_by_domain() {
    let salt = vec![7u8; 32];
    let a = derive_hmac_key(&salt, b"vitals");
    let b = derive_hmac_key(&salt, b"bond");
    assert_eq!(a.len(), 32);
    assert_ne!(a, b);
    assert_eq!(a, derive_hmac_key(&salt, b"vitals"));
}

#[test]
fn fresh_salts_are_random() {
    let a = generate_salt();
    let b = generate_salt();
    assert_ne!(a.salt, b.salt);
    assert_ne!(a.salt, vec![0u8; 32]);
}
