use intent_api::webhook_hmac::{build_canonical_string, hex_encode, sign_payload, WEBHOOK_HMAC_SECRET_ENV_VAR};

#[test]
fn test_build_canonical_string() {
    let ts = "2026-05-16T12:00:00Z";
    let id = "550e8400-e29b-41d4-a716-446655440000";
    let body = r#"{"event":"intent_changed"}"#;
    let canonical = build_canonical_string(ts, id, body);
    assert_eq!(
        canonical,
        "2026-05-16T12:00:00Z.550e8400-e29b-41d4-a716-446655440000.{\"event\":\"intent_changed\"}"
    );
}

#[test]
fn test_sign_payload_fixed_vector() {
    // Fixed vector: known secret + known payload → known hex signature
    let secret = "super_secret_key_42";
    let payload = "2026-05-16T12:00:00Z.550e8400-e29b-41d4-a716-446655440000.{\"foo\":\"bar\"}";
    let signature = sign_payload(secret, payload).unwrap();

    // The signature is a 64-character hex string (32 bytes * 2)
    assert_eq!(signature.len(), 64);
    assert!(signature.chars().all(|c| c.is_ascii_hexdigit()));

    // Same inputs produce the same signature
    let signature2 = sign_payload(secret, payload).unwrap();
    assert_eq!(signature, signature2);

    // A different secret produces a different signature
    let signature3 = sign_payload("different_secret", payload).unwrap();
    assert_ne!(signature, signature3);

    // A different payload produces a different signature
    let signature4 = sign_payload(secret, "different_payload").unwrap();
    assert_ne!(signature, signature4);
}

#[test]
fn test_hex_encode() {
    assert_eq!(hex_encode(&[0x00, 0x0f, 0xff]), "000fff");
    assert_eq!(hex_encode(&[]), "");
    assert_eq!(hex_encode(&[0xde, 0xad, 0xbe, 0xef]), "deadbeef");
}

#[test]
fn sign_payload_matches_rfc4231_case_two() {
    // RFC 4231, test case 2: key "Jefe", data "what do ya want for nothing?"
    let sig = sign_payload("Jefe", "what do ya want for nothing?").unwrap();
    assert_eq!(sig, "5bdcc146bf60754e6a042426089575c75a003f089d2739839dec58b964ec3843");
}

#[test]
fn sign_payload_with_empty_secret_still_signs() {
    let sig = sign_payload("", "payload").unwrap();
    assert_eq!(sig.len(), 64);
}

#[test]
fn secret_env_var_name() {
    assert_eq!(WEBHOOK_HMAC_SECRET_ENV_VAR, "INTENT_API_WEBHOOK_HMAC_SECRET");
}

#[test]
fn canonical_string_with_empty_body() {
    assert_eq!(build_canonical_string("t", "i", ""), "t.i.");
}
