use base64::Engine;
use ed25519_dalek::{Signer, Verifier};
use paseto_auth::claims::{build_default_claims, claims_issued_at, PasetoClaims};
use paseto_auth::error::AuthError;
use paseto_auth::keys::PasetoKeys;
use paseto_auth::time::Timestamp;
use paseto_auth::token::{check_expiry, issue_v4_public, verify_at, verify_v4_public};

const SEED_A: [u8; 32] = [0x11; 32];
const SEED_B: [u8; 32] = [0x22; 32];

fn b64(bytes: &[u8]) -> String {
    base64::engine::general_purpose::URL_SAFE_NO_PAD.encode(bytes)
}

fn unb64(text: &str) -> Vec<u8> {
    base64::engine::general_purpose::URL_SAFE_NO_PAD.decode(text).unwrap()
}

fn keys_of(seed: &[u8; 32]) -> PasetoKeys {
    PasetoKeys {
        verifying_key: ed25519_dalek::SigningKey::from_bytes(seed).verifying_key().to_bytes(),
        signing_key: Some(*seed),
    }
}

fn verify_only(seed: &[u8; 32]) -> PasetoKeys {
    PasetoKeys { verifying_key: keys_of(seed).verifying_key, signing_key: None }
}

fn framed(payload: &[u8]) -> Vec<u8> {
    let mut out = Vec::new();
    out.extend_from_slice(&3u64.to_le_bytes());
    out.extend_from_slice(&10u64.to_le_bytes());
    out.extend_from_slice(b"v4.public.");
    out.extend_from_slice(&(payload.len() as u64).to_le_bytes());
    out.extend_from_slice(payload);
    out.extend_from_slice(&0u64.to_le_bytes());
    out
}

fn signed_token(seed: &[u8; 32], payload: &[u8]) -> String {
    let signature = ed25519_dalek::SigningKey::from_bytes(seed).sign(&framed(payload));
    format!("v4.public.{}.{}", b64(payload), b64(&signature.to_bytes()))
}

fn alice() -> PasetoClaims {
    PasetoClaims {
        sub: "user-123".to_string(),
        email: Some("a@b.com".to_string()),
        name: Some("Alice".to_string()),
        iat: "2023-11-14T22:13:20Z".to_string(),
        exp: "2023-11-14T23:13:20Z".to_string(),
    }
}

fn at(secs: i64, nanos: u32) -> Timestamp {
    Timestamp { secs, nanos }
}

const ISSUED: i64 = 1_700_000_000;
const EXPIRY: i64 = 1_700_003_600;

fn replace_char(text: &str, index: usize, with: char) -> String {
    let mut chars: Vec<char> = text.chars().collect();
    assert_ne!(chars[index], with);
    chars[index] = with;
    chars.into_iter().collect()
}

#[test]
fn issued_token_has_the_wire_form() {
    let token = issue_v4_public(&keys_of(&SEED_A), &alice()).unwrap();
    assert!(token.starts_with("v4.public."));
    let rest = &token["v4.public.".len()..];
    let parts: Vec<&str> = rest.split('.').collect();
    assert_eq!(parts.len(), 2);
    assert_eq!(
        parts[0],
        "eyJzdWIiOiJ1c2VyLTEyMyIsImVtYWlsIjoiYUBiLmNvbSIsIm5hbWUiOiJBbGljZSIsImlhdCI6IjIwMjMtMTEtMTRUMjI6MTM6MjBaIiwiZXhwIjoiMjAyMy0xMS0xNFQyMzoxMzoyMFoifQ"
    );
    assert_eq!(unb64(parts[1]).len(), 64);
    assert!(!token.contains('='));
}

#[test]
fn issued_token_is_the_signed_framing_of_the_payload() {
    let token = issue_v4_public(&keys_of(&SEED_A), &alice()).unwrap();
    let payload = b"{\"sub\":\"user-123\",\"email\":\"a@b.com\",\"name\":\"Alice\",\"iat\":\"2023-11-14T22:13:20Z\",\"exp\":\"2023-11-14T23:13:20Z\"}";
    assert_eq!(token, signed_token(&SEED_A, payload));
}

#[test]
fn issued_signature_is_valid_for_the_framed_payload() {
    let token = issue_v4_public(&keys_of(&SEED_A), &alice()).unwrap();
    let rest = &token["v4.public.".len()..];
    let parts: Vec<&str> = rest.split('.').collect();
    let payload = unb64(parts[0]);
    let signature: [u8; 64] = unb64(parts[1]).try_into().unwrap();
    let key = ed25519_dalek::SigningKey::from_bytes(&SEED_A).verifying_key();
    let signature = ed25519_dalek::Signature::from_bytes(&signature);
    assert!(key.verify(&framed(&payload), &signature).is_ok());
    assert!(key.verify(&payload, &signature).is_err());
}

#[test]
fn issuing_is_deterministic() {
    let a = issue_v4_public(&keys_of(&SEED_A), &alice()).unwrap();
    let b = issue_v4_public(&keys_of(&SEED_A), &alice()).unwrap();
    assert_eq!(a, b);
    let other = issue_v4_public(&keys_of(&SEED_B), &alice()).unwrap();
    assert_ne!(a, other);
}

#[test]
fn issuing_without_a_signing_key_fails() {
    let r = issue_v4_public(&verify_only(&SEED_A), &alice());
    assert_eq!(r.err(), Some(AuthError::MissingSigningKey));
}

#[test]
fn round_trip_returns_the_claims() {
    let keys = keys_of(&SEED_A);
    let token = issue_v4_public(&keys, &alice()).unwrap();
    let claims = verify_at(&keys, token.as_bytes(), at(ISSUED, 0)).unwrap();
    assert_eq!(claims.sub, "user-123");
    assert_eq!(claims.email.as_deref(), Some("a@b.com"));
    assert_eq!(claims.name.as_deref(), Some("Alice"));
    assert_eq!(claims.iat, "2023-11-14T22:13:20Z");
    assert_eq!(claims.exp, "2023-11-14T23:13:20Z");
}

#[test]
fn round_trip_with_a_verify_only_key_set() {
    let token = issue_v4_public(&keys_of(&SEED_A), &alice()).unwrap();
    let claims = verify_at(&verify_only(&SEED_A), token.as_bytes(), at(ISSUED, 0)).unwrap();
    assert_eq!(claims.sub, "user-123");
}

#[test]
fn round_trip_without_email_and_name() {
    let keys = keys_of(&SEED_A);
    let mut claims = alice();
    claims.email = None;
    claims.name = None;
    let token = issue_v4_public(&keys, &claims).unwrap();
    let back = verify_at(&keys, token.as_bytes(), at(ISSUED, 0)).unwrap();
    assert_eq!(back.sub, "user-123");
    assert_eq!(back.email, None);
    assert_eq!(back.name, None);
}

#[test]
fn round_trip_of_unusual_texts() {
    let keys = keys_of(&SEED_B);
    for sub in ["", " ", "a.b.c", "\"quoted\"", "line\nbreak", "\u{1f600}\u{0}\u{7f}", "v4.public."] {
        let claims = claims_issued_at(
            sub.to_string(),
            Some(format!("{sub}@example.org")),
            Some(format!("Name of {sub}")),
            at(ISSUED, 123),
        )
        .unwrap();
        let token = issue_v4_public(&keys, &claims).unwrap();
        let back = verify_at(&keys, token.as_bytes(), at(ISSUED, 500)).unwrap();
        assert_eq!(back.sub, sub);
        assert_eq!(back.email, Some(format!("{sub}@example.org")));
        assert_eq!(back.name, Some(format!("Name of {sub}")));
    }
}

#[test]
fn round_trip_by_the_clock() {
    let keys = keys_of(&SEED_A);
    let claims = build_default_claims(
        "user-123".to_string(),
        Some("a@b.com".to_string()),
        Some("Alice".to_string()),
    )
    .unwrap();
    let token = issue_v4_public(&keys, &claims).unwrap();
    let back = verify_v4_public(&keys, &token).unwrap();
    assert_eq!(back.sub, "user-123");
    assert_eq!(back.email.as_deref(), Some("a@b.com"));
    assert_eq!(back.name.as_deref(), Some("Alice"));
    assert_eq!(back.iat, claims.iat);
    assert_eq!(back.exp, claims.exp);
}

#[test]
fn login_scenario_then_expiry() {
    let keys = keys_of(&SEED_A);
    let claims = claims_issued_at(
        "user-123".to_string(),
        Some("a@b.com".to_string()),
        Some("Alice".to_string()),
        at(ISSUED, 250_000_000),
    )
    .unwrap();
    let token = issue_v4_public(&keys, &claims).unwrap();
    let back = verify_at(&keys, token.as_bytes(), at(ISSUED, 250_000_001)).unwrap();
    assert_eq!(back.sub, "user-123");
    assert_eq!(back.email.as_deref(), Some("a@b.com"));
    assert_eq!(back.name.as_deref(), Some("Alice"));
    let later = verify_at(&keys, token.as_bytes(), at(ISSUED + 3601, 0));
    assert_eq!(later.err(), Some(AuthError::ExpiredToken));
}

#[test]
fn backdated_claims_are_expired_by_the_clock() {
    let keys = keys_of(&SEED_A);
    let token = issue_v4_public(&keys, &alice()).unwrap();
    let r = verify_v4_public(&keys, &token);
    assert_eq!(r.err(), Some(AuthError::ExpiredToken));
}

#[test]
fn expiry_is_checked_to_the_nanosecond() {
    let keys = keys_of(&SEED_A);
    let token = issue_v4_public(&keys, &alice()).unwrap();
    assert!(verify_at(&keys, token.as_bytes(), at(EXPIRY - 1, 999_999_999)).is_ok());
    assert!(verify_at(&keys, token.as_bytes(), at(EXPIRY, 0)).is_ok());
    assert_eq!(
        verify_at(&keys, token.as_bytes(), at(EXPIRY, 1)).err(),
        Some(AuthError::ExpiredToken)
    );
    assert_eq!(
        verify_at(&keys, token.as_bytes(), at(EXPIRY + 1, 0)).err(),
        Some(AuthError::ExpiredToken)
    );
    assert!(verify_at(&keys, token.as_bytes(), at(0, 0)).is_ok());
    assert!(verify_at(&keys, token.as_bytes(), at(-5, 0)).is_ok());
}

#[test]
fn expiry_with_a_fraction_and_an_offset() {
    let keys = keys_of(&SEED_A);
    let mut claims = alice();
    claims.exp = "2023-11-15T00:13:20.5+01:00".to_string();
    let token = issue_v4_public(&keys, &claims).unwrap();
    assert!(verify_at(&keys, token.as_bytes(), at(EXPIRY, 500_000_000)).is_ok());
    assert_eq!(
        verify_at(&keys, token.as_bytes(), at(EXPIRY, 500_000_001)).err(),
        Some(AuthError::ExpiredToken)
    );
}

#[test]
fn expiry_that_is_no_timestamp_is_a_claims_error() {
    let keys = keys_of(&SEED_A);
    for exp in ["", "tomorrow", "1700003600", "2023-11-14", "2023-11-14T23:13:20"] {
        let mut claims = alice();
        claims.exp = exp.to_string();
        let token = issue_v4_public(&keys, &claims).unwrap();
        let r = verify_at(&keys, token.as_bytes(), at(ISSUED, 0));
        assert_eq!(r.err(), Some(AuthError::ClaimsFormat));
    }
}

#[test]
fn issue_time_is_not_checked() {
    let keys = keys_of(&SEED_A);
    let mut claims = alice();
    claims.iat = "not a time".to_string();
    let token = issue_v4_public(&keys, &claims).unwrap();
    let back = verify_at(&keys, token.as_bytes(), at(ISSUED, 0)).unwrap();
    assert_eq!(back.iat, "not a time");
}

#[test]
fn authentic_payload_that_is_no_claims_record() {
    let keys = keys_of(&SEED_A);
    for payload in [
        &b"[1,2,3]"[..],
        b"{}",
        b"not json",
        b"",
        b"{\"sub\":5,\"iat\":\"I\",\"exp\":\"2999-01-01T00:00:00Z\"}",
        b"{\"sub\":\"S\",\"email\":1,\"iat\":\"I\",\"exp\":\"2999-01-01T00:00:00Z\"}",
        b"{\"sub\":\"S\",\"iat\":\"I\"}",
    ] {
        if payload.is_empty() {
            continue;
        }
        let token = signed_token(&SEED_A, payload);
        let r = verify_at(&keys, token.as_bytes(), at(ISSUED, 0));
        assert_eq!(r.err(), Some(AuthError::ClaimsFormat));
    }
}

#[test]
fn authentic_payload_from_another_writer() {
    let keys = keys_of(&SEED_A);
    let payload = b"{ \"exp\": \"2023-11-14T23:13:20Z\", \"extra\": [1, 2], \"sub\": \"S\", \"iat\": \"I\" }";
    let token = signed_token(&SEED_A, payload);
    let claims = verify_at(&keys, token.as_bytes(), at(ISSUED, 0)).unwrap();
    assert_eq!(claims.sub, "S");
    assert_eq!(claims.email, None);
    assert_eq!(claims.name, None);
    assert_eq!(claims.exp, "2023-11-14T23:13:20Z");
}

#[test]
fn wrong_prefix_is_a_format_error() {
    let keys = keys_of(&SEED_A);
    let token = issue_v4_public(&keys, &alice()).unwrap();
    let rest = &token["v4.public.".len()..];
    for prefix in ["", "v4.public", "v4.local.", "v3.public.", "V4.PUBLIC.", " v4.public.", "v4.public,", "v4public."] {
        let changed = format!("{prefix}{rest}");
        let r = verify_at(&keys, changed.as_bytes(), at(ISSUED, 0));
        assert_eq!(r.err(), Some(AuthError::TokenFormat));
    }
    for short in ["", "v", "v4", "v4.", "v4.public"] {
        let r = verify_at(&keys, short.as_bytes(), at(ISSUED, 0));
        assert_eq!(r.err(), Some(AuthError::TokenFormat));
    }
}

#[test]
fn wrong_prefix_is_refused_before_anything_else() {
    let keys = keys_of(&SEED_A);
    let r = verify_at(&keys, b"v5.public.!!!.???.###", at(ISSUED, 0));
    assert_eq!(r.err(), Some(AuthError::TokenFormat));
    let r = verify_v4_public(&keys, "Bearer v4.public.a.b");
    assert_eq!(r.err(), Some(AuthError::TokenFormat));
}

#[test]
fn wrong_segment_count_is_a_format_error() {
    let keys = keys_of(&SEED_A);
    let token = issue_v4_public(&keys, &alice()).unwrap();
    let rest = &token["v4.public.".len()..];
    let parts: Vec<&str> = rest.split('.').collect();
    let cases = [
        "v4.public.".to_string(),
        format!("v4.public.{}", parts[0]),
        format!("v4.public.{}{}", parts[0], parts[1]),
        format!("v4.public.{}.{}.", parts[0], parts[1]),
        format!("v4.public.{}.{}.{}", parts[0], parts[1], parts[1]),
        format!("v4.public.{}.{}.Zm9vdGVy", parts[0], parts[1]),
        format!("v4.public..{}.{}", parts[0], parts[1]),
        format!("v4.public.{}..{}", parts[0], parts[1]),
        "v4.public.a.b.c.d".to_string(),
    ];
    for case in cases {
        let r = verify_at(&keys, case.as_bytes(), at(ISSUED, 0));
        assert_eq!(r.err(), Some(AuthError::TokenFormat));
    }
}

#[test]
fn empty_segment_is_a_format_error() {
    let keys = keys_of(&SEED_A);
    let token = issue_v4_public(&keys, &alice()).unwrap();
    let rest = &token["v4.public.".len()..];
    let parts: Vec<&str> = rest.split('.').collect();
    let cases = [
        "v4.public..".to_string(),
        format!("v4.public.{}.", parts[0]),
        format!("v4.public..{}", parts[1]),
    ];
    for case in cases {
        let r = verify_at(&keys, case.as_bytes(), at(ISSUED, 0));
        assert_eq!(r.err(), Some(AuthError::TokenFormat));
    }
}

#[test]
fn segment_that_is_not_base64url_is_a_format_error() {
    let keys = keys_of(&SEED_A);
    let token = issue_v4_public(&keys, &alice()).unwrap();
    let rest = &token["v4.public.".len()..];
    let parts: Vec<&str> = rest.split('.').collect();
    let cases = [
        format!("v4.public.{}!.{}", parts[0], parts[1]),
        format!("v4.public.{}.{}=", parts[0], parts[1]),
        format!("v4.public.{}=.{}", parts[0], parts[1]),
        format!("v4.public.{}.{} ", parts[0], parts[1]),
        format!("v4.public.{}.+{}", parts[0], &parts[1][1..]),
        format!("v4.public.{}.{}B", parts[0], &parts[1][..parts[1].len() - 1]),
        format!("v4.public.{}.{}AAA", parts[0], parts[1]),
        format!("v4.public.\u{e9}{}.{}", parts[0], parts[1]),
    ];
    for case in cases {
        let r = verify_at(&keys, case.as_bytes(), at(ISSUED, 0));
        assert_eq!(r.err(), Some(AuthError::TokenFormat));
    }
    let mut raw = token.clone().into_bytes();
    raw[12] = 0xff;
    let r = verify_at(&keys, &raw, at(ISSUED, 0));
    assert_eq!(r.err(), Some(AuthError::TokenFormat));
}

#[test]
fn signature_of_the_wrong_length_is_a_signature_error() {
    let keys = keys_of(&SEED_A);
    let token = issue_v4_public(&keys, &alice()).unwrap();
    let rest = &token["v4.public.".len()..];
    let parts: Vec<&str> = rest.split('.').collect();
    let signature = unb64(parts[1]);
    let mut long = signature.clone();
    long.push(0);
    let cases = [
        format!("v4.public.{}.{}", parts[0], b64(&signature[..63])),
        format!("v4.public.{}.{}", parts[0], b64(&long)),
        format!("v4.public.{}.{}", parts[0], b64(&signature[..32])),
        format!("v4.public.{}.AAAA", parts[0]),
        format!("v4.public.{}.{}A", parts[0], parts[1]),
    ];
    for case in cases {
        let r = verify_at(&keys, case.as_bytes(), at(ISSUED, 0));
        assert_eq!(r.err(), Some(AuthError::Signature));
    }
}

#[test]
fn tampered_payload_is_a_signature_error() {
    let keys = keys_of(&SEED_A);
    let token = issue_v4_public(&keys, &alice()).unwrap();
    let start = "v4.public.".len();
    let dot = token[start..].find('.').unwrap() + start;
    for index in [start, start + 1, start + 20, dot - 2] {
        let with = if token.as_bytes()[index] == b'B' { 'C' } else { 'B' };
        let changed = replace_char(&token, index, with);
        let r = verify_at(&keys, changed.as_bytes(), at(ISSUED, 0));
        assert_eq!(r.err(), Some(AuthError::Signature));
    }
}

#[test]
fn every_bit_of_the_payload_bytes_is_signed() {
    let keys = keys_of(&SEED_A);
    let token = issue_v4_public(&keys, &alice()).unwrap();
    let rest = &token["v4.public.".len()..];
    let parts: Vec<&str> = rest.split('.').collect();
    let payload = unb64(parts[0]);
    for byte in [0usize, 1, 8, payload.len() / 2, payload.len() - 1] {
        for bit in 0..8 {
            let mut changed = payload.clone();
            changed[byte] ^= 1 << bit;
            let forged = format!("v4.public.{}.{}", b64(&changed), parts[1]);
            let r = verify_at(&keys, forged.as_bytes(), at(ISSUED, 0));
            assert_eq!(r.err(), Some(AuthError::Signature));
        }
    }
}

#[test]
fn every_bit_of_the_signature_bytes_counts() {
    let keys = keys_of(&SEED_A);
    let token = issue_v4_public(&keys, &alice()).unwrap();
    let rest = &token["v4.public.".len()..];
    let parts: Vec<&str> = rest.split('.').collect();
    let signature = unb64(parts[1]);
    for byte in 0..64 {
        for bit in 0..8 {
            let mut changed = signature.clone();
            changed[byte] ^= 1 << bit;
            let forged = format!("v4.public.{}.{}", parts[0], b64(&changed));
            let r = verify_at(&keys, forged.as_bytes(), at(ISSUED, 0));
            assert_eq!(r.err(), Some(AuthError::Signature));
        }
    }
}

#[test]
fn extended_payload_is_a_signature_error() {
    let keys = keys_of(&SEED_A);
    let token = issue_v4_public(&keys, &alice()).unwrap();
    let rest = &token["v4.public.".len()..];
    let parts: Vec<&str> = rest.split('.').collect();
    let mut payload = unb64(parts[0]);
    payload.push(b' ');
    let forged = format!("v4.public.{}.{}", b64(&payload), parts[1]);
    let r = verify_at(&keys, forged.as_bytes(), at(ISSUED, 0));
    assert_eq!(r.err(), Some(AuthError::Signature));
}

#[test]
fn signature_over_the_bare_payload_is_refused() {
    let keys = keys_of(&SEED_A);
    let payload = b"{\"sub\":\"S\",\"iat\":\"I\",\"exp\":\"2999-01-01T00:00:00Z\"}";
    let signature = ed25519_dalek::SigningKey::from_bytes(&SEED_A).sign(payload);
    let token = format!("v4.public.{}.{}", b64(payload), b64(&signature.to_bytes()));
    let r = verify_at(&keys, token.as_bytes(), at(ISSUED, 0));
    assert_eq!(r.err(), Some(AuthError::Signature));
    let good = signed_token(&SEED_A, payload);
    assert!(verify_at(&keys, good.as_bytes(), at(ISSUED, 0)).is_ok());
}

#[test]
fn tampering_is_reported_before_expiry() {
    let keys = keys_of(&SEED_A);
    let token = issue_v4_public(&keys, &alice()).unwrap();
    let rest = &token["v4.public.".len()..];
    let parts: Vec<&str> = rest.split('.').collect();
    let mut payload = unb64(parts[0]);
    let n = payload.len();
    payload[n - 20] ^= 1;
    let forged = format!("v4.public.{}.{}", b64(&payload), parts[1]);
    let r = verify_at(&keys, forged.as_bytes(), at(EXPIRY + 100, 0));
    assert_eq!(r.err(), Some(AuthError::Signature));
    let r = verify_at(&keys, token.as_bytes(), at(EXPIRY + 100, 0));
    assert_eq!(r.err(), Some(AuthError::ExpiredToken));
}

#[test]
fn forged_expiry_does_not_help() {
    let keys = keys_of(&SEED_A);
    let token = issue_v4_public(&keys, &alice()).unwrap();
    let rest = &token["v4.public.".len()..];
    let parts: Vec<&str> = rest.split('.').collect();
    let mut later = alice();
    later.exp = "2999-01-01T00:00:00Z".to_string();
    let other = issue_v4_public(&keys_of(&SEED_B), &later).unwrap();
    let other_rest = &other["v4.public.".len()..];
    let other_parts: Vec<&str> = other_rest.split('.').collect();
    let forged = format!("v4.public.{}.{}", other_parts[0], parts[1]);
    let r = verify_at(&keys, forged.as_bytes(), at(EXPIRY + 100, 0));
    assert_eq!(r.err(), Some(AuthError::Signature));
}

#[test]
fn token_of_another_key_is_a_signature_error() {
    let token = issue_v4_public(&keys_of(&SEED_A), &alice()).unwrap();
    let r = verify_at(&keys_of(&SEED_B), token.as_bytes(), at(ISSUED, 0));
    assert_eq!(r.err(), Some(AuthError::Signature));
    let r = verify_at(&verify_only(&SEED_B), token.as_bytes(), at(ISSUED, 0));
    assert_eq!(r.err(), Some(AuthError::Signature));
    assert!(verify_at(&keys_of(&SEED_A), token.as_bytes(), at(ISSUED, 0)).is_ok());
}

#[test]
fn mismatched_key_set_does_not_accept_its_own_tokens() {
    let keys = PasetoKeys {
        verifying_key: keys_of(&SEED_B).verifying_key,
        signing_key: Some(SEED_A),
    };
    let token = issue_v4_public(&keys, &alice()).unwrap();
    let r = verify_at(&keys, token.as_bytes(), at(ISSUED, 0));
    assert_eq!(r.err(), Some(AuthError::Signature));
}

#[test]
fn bytes_that_are_no_key_accept_nothing() {
    let mut no_key = [0u8; 32];
    let mut found = false;
    for first in 0u8..=255 {
        no_key[0] = first;
        if ed25519_dalek::VerifyingKey::from_bytes(&no_key).is_err() {
            found = true;
            break;
        }
    }
    assert!(found);
    let keys = PasetoKeys { verifying_key: no_key, signing_key: None };
    let token = issue_v4_public(&keys_of(&SEED_A), &alice()).unwrap();
    let r = verify_at(&keys, token.as_bytes(), at(ISSUED, 0));
    assert_eq!(r.err(), Some(AuthError::Signature));
}

#[test]
fn keys_loaded_from_text_issue_and_verify() {
    let public = ed25519_dalek::SigningKey::from_bytes(&SEED_A).verifying_key().to_bytes();
    let issuer = PasetoKeys::from_base64(&b64(&public), Some(&b64(&SEED_A))).unwrap();
    let verifier = PasetoKeys::from_base64(&b64(&public), None).unwrap();
    let token = issue_v4_public(&issuer, &alice()).unwrap();
    assert!(verify_at(&verifier, token.as_bytes(), at(ISSUED, 0)).is_ok());
    assert_eq!(
        issue_v4_public(&verifier, &alice()).err(),
        Some(AuthError::MissingSigningKey)
    );
}

#[test]
fn check_expiry_decides_by_the_instant() {
    let e = Some(at(100, 5));
    assert!(check_expiry(alice(), e, at(100, 5)).is_ok());
    assert!(check_expiry(alice(), e, at(100, 4)).is_ok());
    assert!(check_expiry(alice(), e, at(99, 999_999_999)).is_ok());
    assert_eq!(check_expiry(alice(), e, at(100, 6)).err(), Some(AuthError::ExpiredToken));
    assert_eq!(check_expiry(alice(), e, at(101, 0)).err(), Some(AuthError::ExpiredToken));
    assert_eq!(check_expiry(alice(), None, at(0, 0)).err(), Some(AuthError::ClaimsFormat));
    assert_eq!(check_expiry(alice(), e, at(0, 0)).unwrap().sub, "user-123");
    let negative = Some(at(-10, 0));
    assert!(check_expiry(alice(), negative, at(-11, 999_999_999)).is_ok());
    assert_eq!(check_expiry(alice(), negative, at(-9, 0)).err(), Some(AuthError::ExpiredToken));
}

#[test]
fn fresh_tokens_verify_within_the_hour_in_any_year() {
    let keys = keys_of(&SEED_A);
    for secs in [-62_198_755_200i64, -1, 0, ISSUED, 253_402_300_799, 4_000_000_000_000] {
        let claims = claims_issued_at("s".to_string(), None, None, at(secs, 999_999_999)).unwrap();
        let token = issue_v4_public(&keys, &claims).unwrap();
        assert!(verify_at(&keys, token.as_bytes(), at(secs, 999_999_999)).is_ok());
        assert!(verify_at(&keys, token.as_bytes(), at(secs + 3599, 999_999_999)).is_ok());
        assert!(verify_at(&keys, token.as_bytes(), at(secs + 3600, 0)).is_ok());
        assert_eq!(
            verify_at(&keys, token.as_bytes(), at(secs + 3600, 1)).err(),
            Some(AuthError::ExpiredToken)
        );
    }
}

#[test]
fn expiry_in_a_leap_second() {
    let keys = keys_of(&SEED_A);
    let mut claims = alice();
    claims.exp = "2016-12-31T23:59:60Z".to_string();
    let token = issue_v4_public(&keys, &claims).unwrap();
    assert!(verify_at(&keys, token.as_bytes(), at(1_483_228_799, 999_999_999)).is_ok());
    assert!(verify_at(&keys, token.as_bytes(), at(1_483_228_799, 1_000_000_000)).is_ok());
    assert_eq!(
        verify_at(&keys, token.as_bytes(), at(1_483_228_800, 0)).err(),
        Some(AuthError::ExpiredToken)
    );
}

#[test]
fn authentic_array_payload_is_a_claims_error() {
    let keys = keys_of(&SEED_A);
    let payload = b"[\"user-123\",\"a@b.com\",\"Alice\",\"2023-11-14T22:13:20Z\",\"2999-01-01T00:00:00Z\"]";
    let token = signed_token(&SEED_A, payload);
    let r = verify_at(&keys, token.as_bytes(), at(ISSUED, 0));
    assert_eq!(r.err(), Some(AuthError::ClaimsFormat));
}

#[test]
fn authentic_payload_with_a_repeated_key_counts_the_last_value() {
    let keys = keys_of(&SEED_A);
    let payload = b"{\"sub\":\"first\",\"iat\":\"I\",\"exp\":\"2023-11-14T23:13:20Z\",\"sub\":\"second\",\"exp\":\"2023-11-14T22:00:00Z\"}";
    let token = signed_token(&SEED_A, payload);
    let r = verify_at(&keys, token.as_bytes(), at(ISSUED - 3600, 0)).unwrap();
    assert_eq!(r.sub, "second");
    assert_eq!(r.exp, "2023-11-14T22:00:00Z");
    let r = verify_at(&keys, token.as_bytes(), at(ISSUED, 0));
    assert_eq!(r.err(), Some(AuthError::ExpiredToken));
}

#[test]
fn keys_that_belong_together_are_a_pair() {
    assert!(keys_of(&SEED_A).is_key_pair());
    assert!(keys_of(&SEED_B).is_key_pair());
    assert!(!verify_only(&SEED_A).is_key_pair());
    let mixed = PasetoKeys {
        verifying_key: keys_of(&SEED_B).verifying_key,
        signing_key: Some(SEED_A),
    };
    assert!(!mixed.is_key_pair());
    let mut off_by_a_bit = keys_of(&SEED_A);
    off_by_a_bit.verifying_key[31] ^= 1;
    assert!(!off_by_a_bit.is_key_pair());
}

#[test]
fn a_key_pair_accepts_what_it_issues() {
    for seed in [[0u8; 32], [0xffu8; 32], SEED_A, SEED_B] {
        let keys = keys_of(&seed);
        assert!(keys.is_key_pair());
        let token = issue_v4_public(&keys, &alice()).unwrap();
        assert!(verify_at(&keys, token.as_bytes(), at(ISSUED, 0)).is_ok());
    }
}
