use echo_auth::error::AuthError;
use echo_auth::token::{check_claims, issue_at, verify_at, RawClaims, SESSION_SECONDS};
use echo_auth::types::auth::Claims;

const NOW: u64 = 1_700_000_000;

fn signed(claims: serde_json::Map<String, serde_json::Value>, secret: &str) -> String {
    jsonwebtoken::encode(
        &jsonwebtoken::Header::default(),
        &claims,
        &jsonwebtoken::EncodingKey::from_secret(secret.as_bytes()),
    )
    .unwrap()
}

fn sextet(symbol: u8) -> u32 {
    match symbol {
        b'A'..=b'Z' => (symbol - b'A') as u32,
        b'a'..=b'z' => (symbol - b'a') as u32 + 26,
        b'0'..=b'9' => (symbol - b'0') as u32 + 52,
        b'-' => 62,
        b'_' => 63,
        other => panic!("no base64url symbol: {}", other),
    }
}

fn payload_of(token: &str) -> String {
    let part = token.split('.').nth(1).unwrap();
    let mut bytes = Vec::new();
    for chunk in part.as_bytes().chunks(4) {
        let mut word: u32 = 0;
        for at in 0..4 {
            word = (word << 6) | if at < chunk.len() { sextet(chunk[at]) } else { 0 };
        }
        let decoded = [(word >> 16) as u8, (word >> 8) as u8, word as u8];
        bytes.extend_from_slice(&decoded[..chunk.len() - 1]);
    }
    String::from_utf8(bytes).unwrap()
}

#[test]
fn session_lasts_five_weeks() {
    assert_eq!(SESSION_SECONDS, 3_024_000);
    assert_eq!(SESSION_SECONDS, 5 * 7 * 24 * 60 * 60);
}

#[test]
fn issued_token_verifies_to_its_subject() {
    let token = issue_at("u1", NOW, "secret").unwrap();
    let claims = verify_at(&token, NOW + 1, "secret").unwrap();
    assert_eq!(
        claims,
        Claims { sub: "u1".to_string(), exp: 1_703_024_000, iat: 1_700_000_000 }
    );
}

#[test]
fn issued_token_is_a_compact_three_part_token() {
    let token = issue_at("u1", NOW, "secret").unwrap();
    assert_ne!(token, "u1");
    assert_eq!(token.split('.').count(), 3);
    assert_eq!(token.split('.').next().unwrap(), "eyJ0eXAiOiJKV1QiLCJhbGciOiJIUzI1NiJ9");
}

#[test]
fn payload_holds_subject_expiry_and_issue_instant() {
    let token = issue_at("u1", NOW, "secret").unwrap();
    assert_eq!(payload_of(&token), "{\"sub\":\"u1\",\"exp\":1703024000,\"iat\":1700000000}");
}

#[test]
fn issuing_is_deterministic() {
    assert_eq!(issue_at("u1", NOW, "secret"), issue_at("u1", NOW, "secret"));
    assert_ne!(issue_at("u1", NOW, "secret"), issue_at("u2", NOW, "secret"));
    assert_ne!(issue_at("u1", NOW, "secret"), issue_at("u1", NOW + 1, "secret"));
    assert_ne!(issue_at("u1", NOW, "secret"), issue_at("u1", NOW, "other"));
}

#[test]
fn token_is_valid_right_up_to_its_expiry() {
    let token = issue_at("u1", NOW, "secret").unwrap();
    assert!(verify_at(&token, NOW, "secret").is_ok());
    assert!(verify_at(&token, 0, "secret").is_ok());
    assert!(verify_at(&token, NOW + 3_023_999, "secret").is_ok());
    assert_eq!(verify_at(&token, NOW + 3_024_000, "secret"), Err(AuthError::TokenExpired));
    assert_eq!(verify_at(&token, NOW + 3_024_001, "secret"), Err(AuthError::TokenExpired));
    assert_eq!(verify_at(&token, u64::MAX, "secret"), Err(AuthError::TokenExpired));
}

#[test]
fn expiry_is_not_softened_by_a_leeway() {
    let token = issue_at("u1", NOW, "secret").unwrap();
    assert_eq!(verify_at(&token, NOW + 3_024_030, "secret"), Err(AuthError::TokenExpired));
}

#[test]
fn subjects_of_any_text_round_trip() {
    for subject in ["", "user_01HRBJ8FVP3JT28DEWXN6JPKF5", "a\"b\\c", "zoë 用户 \u{1F600}", "a.b.c"] {
        let token = issue_at(subject, NOW, "k").unwrap();
        assert_eq!(verify_at(&token, NOW, "k").unwrap().sub, subject);
    }
}

#[test]
fn empty_secret_still_signs_and_verifies() {
    let token = issue_at("u1", NOW, "").unwrap();
    assert_eq!(verify_at(&token, NOW, "").unwrap().sub, "u1");
    assert_eq!(verify_at(&token, NOW, "x"), Err(AuthError::InvalidToken));
}

#[test]
fn token_under_another_secret_is_invalid() {
    let token = issue_at("u1", NOW, "secret").unwrap();
    assert_eq!(verify_at(&token, NOW, "Secret"), Err(AuthError::InvalidToken));
    assert_eq!(
        verify_at(&token, NOW + 4_000_000, "Secret"),
        Err(AuthError::InvalidToken)
    );
}

#[test]
fn tampering_any_one_byte_invalidates_the_token() {
    let token = issue_at("user_01HY5EW9Z5XVE34GZXKH4NC2Y1", NOW, "secret").unwrap();
    assert!(token.is_ascii());
    for at in 0..token.len() {
        for replacement in [b'A', b'B', b'.', b'_', b'9', b'='] {
            let mut bytes = token.clone().into_bytes();
            if bytes[at] == replacement {
                continue;
            }
            bytes[at] = replacement;
            let tampered = String::from_utf8(bytes).unwrap();
            assert_eq!(
                verify_at(&tampered, NOW, "secret"),
                Err(AuthError::InvalidToken),
                "byte {} replaced by {}",
                at,
                replacement
            );
        }
    }
}

#[test]
fn tampered_token_is_invalid_even_after_expiry() {
    let token = issue_at("u1", NOW, "secret").unwrap();
    let mut bytes = token.into_bytes();
    let last = bytes.len() - 1;
    bytes[last] = if bytes[last] == b'A' { b'B' } else { b'A' };
    let tampered = String::from_utf8(bytes).unwrap();
    assert_eq!(verify_at(&tampered, NOW + 9_000_000, "secret"), Err(AuthError::InvalidToken));
}

#[test]
fn malformed_tokens_are_invalid() {
    for token in ["", ".", "..", "a.b.c", "abc", "a.b", "a.b.c.d", "Bearer x", "\u{0}"] {
        assert_eq!(verify_at(token, NOW, "secret"), Err(AuthError::InvalidToken), "{:?}", token);
    }
}

#[test]
fn token_of_another_algorithm_is_invalid() {
    let mut claims = serde_json::Map::new();
    claims.insert("sub".to_string(), serde_json::Value::from("u1"));
    claims.insert("exp".to_string(), serde_json::Value::from(NOW + 100));
    claims.insert("iat".to_string(), serde_json::Value::from(NOW));
    let token = jsonwebtoken::encode(
        &jsonwebtoken::Header::new(jsonwebtoken::Algorithm::HS512),
        &claims,
        &jsonwebtoken::EncodingKey::from_secret(b"secret"),
    )
    .unwrap();
    assert_eq!(verify_at(&token, NOW, "secret"), Err(AuthError::InvalidToken));
}

#[test]
fn well_signed_token_without_a_claim_is_invalid() {
    for missing in ["sub", "exp", "iat"] {
        let mut claims = serde_json::Map::new();
        claims.insert("sub".to_string(), serde_json::Value::from("u1"));
        claims.insert("exp".to_string(), serde_json::Value::from(NOW + 100));
        claims.insert("iat".to_string(), serde_json::Value::from(NOW));
        claims.remove(missing);
        let token = signed(claims, "secret");
        assert_eq!(verify_at(&token, NOW, "secret"), Err(AuthError::InvalidToken), "{}", missing);
    }
}

#[test]
fn well_signed_token_with_a_claim_of_the_wrong_type_is_invalid() {
    let mut claims = serde_json::Map::new();
    claims.insert("sub".to_string(), serde_json::Value::from(7));
    claims.insert("exp".to_string(), serde_json::Value::from(NOW + 100));
    claims.insert("iat".to_string(), serde_json::Value::from(NOW));
    assert_eq!(verify_at(&signed(claims, "secret"), NOW, "secret"), Err(AuthError::InvalidToken));

    let mut claims = serde_json::Map::new();
    claims.insert("sub".to_string(), serde_json::Value::from("u1"));
    claims.insert("exp".to_string(), serde_json::Value::from("tomorrow"));
    claims.insert("iat".to_string(), serde_json::Value::from(NOW));
    assert_eq!(verify_at(&signed(claims, "secret"), NOW, "secret"), Err(AuthError::InvalidToken));

    let mut claims = serde_json::Map::new();
    claims.insert("sub".to_string(), serde_json::Value::from("u1"));
    claims.insert("exp".to_string(), serde_json::Value::from(NOW + 100));
    claims.insert("iat".to_string(), serde_json::Value::from(-5));
    assert_eq!(verify_at(&signed(claims, "secret"), NOW, "secret"), Err(AuthError::InvalidToken));
}

#[test]
fn foreign_token_with_our_secret_is_judged_by_its_own_expiry() {
    let mut claims = serde_json::Map::new();
    claims.insert("iat".to_string(), serde_json::Value::from(5));
    claims.insert("role".to_string(), serde_json::Value::from("x"));
    claims.insert("sub".to_string(), serde_json::Value::from("someone"));
    claims.insert("exp".to_string(), serde_json::Value::from(1000));
    let token = signed(claims, "secret");
    assert_eq!(
        verify_at(&token, 999, "secret"),
        Ok(Claims { sub: "someone".to_string(), exp: 1000, iat: 5 })
    );
    assert_eq!(verify_at(&token, 1000, "secret"), Err(AuthError::TokenExpired));
}

#[test]
fn issuing_fails_where_the_expiry_does_not_fit() {
    assert_eq!(issue_at("u1", u64::MAX, "secret"), Err(AuthError::IssueFailed));
    assert_eq!(issue_at("u1", u64::MAX - 3_023_999, "secret"), Err(AuthError::IssueFailed));
    if usize::MAX as u64 == u64::MAX {
        let token = issue_at("u1", u64::MAX - 3_024_000, "secret").unwrap();
        assert_eq!(verify_at(&token, u64::MAX - 1, "secret").unwrap().exp, usize::MAX);
    }
}

#[test]
fn undecoded_token_is_invalid_at_any_time() {
    assert_eq!(check_claims(None, 0), Err(AuthError::InvalidToken));
    assert_eq!(check_claims(None, u64::MAX), Err(AuthError::InvalidToken));
}

#[test]
fn decoded_claims_are_checked_against_the_clock() {
    let raw = RawClaims { sub: Some("u1".to_string()), exp: Some(100), iat: Some(10) };
    assert_eq!(
        check_claims(Some(raw.clone()), 99),
        Ok(Claims { sub: "u1".to_string(), exp: 100, iat: 10 })
    );
    assert_eq!(check_claims(Some(raw.clone()), 100), Err(AuthError::TokenExpired));
    assert_eq!(check_claims(Some(raw), 101), Err(AuthError::TokenExpired));
}

#[test]
fn decoded_claims_with_a_gap_are_invalid() {
    let full = RawClaims { sub: Some("u1".to_string()), exp: Some(100), iat: Some(10) };
    assert_eq!(
        check_claims(Some(RawClaims { sub: None, ..full.clone() }), 0),
        Err(AuthError::InvalidToken)
    );
    assert_eq!(
        check_claims(Some(RawClaims { exp: None, ..full.clone() }), 0),
        Err(AuthError::InvalidToken)
    );
    assert_eq!(
        check_claims(Some(RawClaims { iat: None, ..full.clone() }), 0),
        Err(AuthError::InvalidToken)
    );
    assert_eq!(
        check_claims(Some(RawClaims { sub: None, ..full }), 1000),
        Err(AuthError::InvalidToken)
    );
}

#[test]
fn token_issued_now_verifies_now() {
    let before = chrono::Utc::now().timestamp() as usize;
    let token = echo_auth::token::issue("u1", "secret").unwrap();
    let claims = echo_auth::token::verify(&token, "secret").unwrap();
    let after = chrono::Utc::now().timestamp() as usize;
    assert_eq!(claims.sub, "u1");
    assert!(before <= claims.iat && claims.iat <= after);
    assert_eq!(claims.exp, claims.iat + 3_024_000);
}

#[test]
fn token_issued_long_ago_is_expired_now() {
    let now = chrono::Utc::now().timestamp() as u64;
    let old = issue_at("u1", now - 3_024_000, "secret").unwrap();
    assert_eq!(echo_auth::token::verify(&old, "secret"), Err(AuthError::TokenExpired));
    let recent = issue_at("u1", now - 3_024_000 + 60, "secret").unwrap();
    assert_eq!(echo_auth::token::verify(&recent, "secret").unwrap().sub, "u1");
    assert_eq!(echo_auth::token::verify("junk", "secret"), Err(AuthError::InvalidToken));
}

#[test]
fn issuing_gives_the_token_that_was_made() {
    assert_eq!(echo_auth::token::issue_outcome(Some("a.b.c".to_string())), Ok("a.b.c".to_string()));
    assert_eq!(echo_auth::token::issue_outcome(None), Err(AuthError::IssueFailed));
}
