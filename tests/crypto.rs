use safe_chat::crypto::{
    decode_x509_to_raw_key, encode_raw_key_to_x509, generate_keypair_base64, validate_x509_public_key,
};

#[test]
fn test_generate_keypair_x509_format() {
    let key_b64 = generate_keypair_base64();
    assert!(validate_x509_public_key(&key_b64));
}

#[test]
fn test_raw_to_x509_conversion() {
    let raw_key = [1u8; 32];
    let x509_b64 = encode_raw_key_to_x509(&raw_key);
    let decoded_raw = decode_x509_to_raw_key(&x509_b64).unwrap();
    assert_eq!(raw_key, decoded_raw);
}

#[test]
fn test_x509_validation() {
    let valid_key = generate_keypair_base64();
    assert!(validate_x509_public_key(&valid_key));

    let invalid_key = "invalid_base64";
    assert!(!validate_x509_public_key(invalid_key));
}

#[test]
fn x509_text_of_known_key() {
    let raw_key = [0u8; 32];
    let text = encode_raw_key_to_x509(&raw_key);
    assert_eq!(text, "MCowBQYDK2VuAyEAAAAAAAAAAAAAAAAAAAAAAAAAAAAAAAAAAAAAAAAAAAA=");
    assert_eq!(text.len(), 60);
}

#[test]
fn bare_raw_key_is_accepted() {
    // 32 bytes of 0x02, base64 without the X.509 prefix
    let text = "AgICAgICAgICAgICAgICAgICAgICAgICAgICAgICAgI=";
    assert_eq!(decode_x509_to_raw_key(text), Ok([2u8; 32]));
}

#[test]
fn wrong_key_length_is_refused() {
    assert_eq!(decode_x509_to_raw_key("AQID"), Err("Invalid X.509 key length"));
}

#[test]
fn wrong_x509_header_is_refused() {
    let good = encode_raw_key_to_x509(&[7u8; 32]);
    assert_eq!(good, "MCowBQYDK2VuAyEABwcHBwcHBwcHBwcHBwcHBwcHBwcHBwcHBwcHBwcHBwc=");
    // the same 44 bytes with the first byte changed from 0x30 to 0x31
    let bad = "MSowBQYDK2VuAyEABwcHBwcHBwcHBwcHBwcHBwcHBwcHBwcHBwcHBwcHBwc=";
    assert_eq!(decode_x509_to_raw_key(bad), Err("Invalid X.509 header for X25519 key"));
}

#[test]
fn undecodable_key_text_is_refused() {
    assert_eq!(decode_x509_to_raw_key("not base64!"), Err("Invalid base64 encoding"));
}
