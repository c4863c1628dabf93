use order_service::errors::{ApiError, AuthError};
use order_service::user_actions::{header_is_text, named_user_at};
use order_service::token_utils::{
    check_claims, claims_issued_at, decode_jwt_and_get_user_id, decode_jwt_at,
    decode_jwt_bytes_at, generate_jwt, generate_jwt_at, UserToken, KEY, ONE_WEEK,
};

const UID: u128 = 0x67e5_5044_10b1_426f_9247_bb68_0e5f_e0c8;

#[test]
fn one_week_is_604800_seconds() {
    assert_eq!(ONE_WEEK, 604800);
    assert_eq!(ONE_WEEK, 60 * 60 * 24 * 7);
}

#[test]
fn claims_expire_one_week_after_issue() {
    let claims = claims_issued_at(UID, 1_700_000_000).unwrap();
    assert_eq!(claims, UserToken { iat: 1_700_000_000, exp: 1_700_604_800, user_id: UID });
}

#[test]
fn claims_cannot_be_issued_past_the_end_of_the_clock() {
    assert!(claims_issued_at(UID, i64::MAX).is_none());
    assert!(claims_issued_at(UID, i64::MAX - ONE_WEEK + 1).is_none());
    let last = claims_issued_at(UID, i64::MAX - ONE_WEEK).unwrap();
    assert_eq!(last.exp, i64::MAX);
}

#[test]
fn token_cannot_be_issued_past_the_end_of_the_clock() {
    assert_eq!(generate_jwt_at(UID, i64::MAX), Err(ApiError::InternalError));
}

#[test]
fn check_claims_accepts_up_to_expiry() {
    let claims = UserToken { iat: 10, exp: 20, user_id: 7 };
    assert_eq!(check_claims(Some(claims), 10), Ok(7));
    assert_eq!(check_claims(Some(claims), 20), Ok(7));
    assert_eq!(check_claims(Some(claims), 21), Err(AuthError::Invalid));
    assert_eq!(check_claims(Some(claims), i64::MAX), Err(AuthError::Invalid));
    assert_eq!(check_claims(Some(claims), i64::MIN), Ok(7));
    assert_eq!(check_claims(None, 0), Err(AuthError::Invalid));
}

#[test]
fn issued_token_passes_immediately() {
    let token = generate_jwt(UID).unwrap();
    assert_eq!(decode_jwt_and_get_user_id(&token), Ok(UID));
}

#[test]
fn issued_token_passes_at_issue_and_until_expiry() {
    let now = 1_700_000_000;
    let token = generate_jwt_at(UID, now).unwrap();
    assert_eq!(decode_jwt_at(&token, now), Ok(UID));
    assert_eq!(decode_jwt_at(&token, now + 1), Ok(UID));
    assert_eq!(decode_jwt_at(&token, now + ONE_WEEK), Ok(UID));
}

#[test]
fn issued_token_fails_after_expiry() {
    let now = 1_700_000_000;
    let token = generate_jwt_at(UID, now).unwrap();
    assert_eq!(decode_jwt_at(&token, now + ONE_WEEK + 1), Err(AuthError::Invalid));
    assert_eq!(decode_jwt_at(&token, i64::MAX), Err(AuthError::Invalid));
}

#[test]
fn token_issued_long_ago_fails_now() {
    let token = generate_jwt_at(UID, 1_000_000).unwrap();
    assert_eq!(decode_jwt_and_get_user_id(&token), Err(AuthError::Invalid));
}

#[test]
fn token_with_negative_instants_round_trips() {
    let token = generate_jwt_at(UID, -5_000_000).unwrap();
    assert_eq!(decode_jwt_at(&token, -5_000_000), Ok(UID));
    assert_eq!(decode_jwt_at(&token, -5_000_000 + ONE_WEEK + 1), Err(AuthError::Invalid));
}

#[test]
fn token_carries_each_user_id_exactly() {
    for uid in [0u128, 1, UID, u128::MAX, 1u128 << 127, (1u128 << 64) - 1] {
        let token = generate_jwt_at(uid, 42).unwrap();
        assert_eq!(decode_jwt_at(&token, 42), Ok(uid));
    }
}

#[test]
fn token_is_a_function_of_user_and_instant() {
    let a = generate_jwt_at(UID, 1000).unwrap();
    let b = generate_jwt_at(UID, 1000).unwrap();
    let c = generate_jwt_at(UID, 1001).unwrap();
    let d = generate_jwt_at(UID + 1, 1000).unwrap();
    assert_eq!(a, b);
    assert_ne!(a, c);
    assert_ne!(a, d);
}

#[test]
fn token_has_three_parts_and_can_stand_in_a_header() {
    for (uid, now) in [(UID, 1000i64), (0, -1), (u128::MAX, i64::MAX - ONE_WEEK), (1, i64::MIN)] {
        let token = generate_jwt_at(uid, now).unwrap();
        assert_eq!(token.split('.').count(), 3);
        assert!(token
            .bytes()
            .all(|b| b.is_ascii_alphanumeric() || b == b'-' || b == b'_' || b == b'.'));
        assert!(header_is_text(token.as_bytes()));
        assert_eq!(named_user_at(Some(token.as_bytes()), now), Ok(uid));
    }
}

#[test]
fn tampered_signature_fails() {
    let now = 1_700_000_000;
    let token = generate_jwt_at(UID, now).unwrap();
    let dot = token.rfind('.').unwrap();
    for at in dot + 1..token.len() {
        let mut bytes = token.clone().into_bytes();
        bytes[at] = if bytes[at] == b'A' { b'B' } else { b'A' };
        let forged = String::from_utf8(bytes).unwrap();
        assert_ne!(forged, token);
        assert_eq!(decode_jwt_at(&forged, now), Err(AuthError::Invalid));
    }
    let cut = &token[..token.len() - 1];
    assert_eq!(decode_jwt_at(cut, now), Err(AuthError::Invalid));
    let longer = format!("{}A", token);
    assert_eq!(decode_jwt_at(&longer, now), Err(AuthError::Invalid));
}

#[test]
fn tampered_payload_fails() {
    let now = 1_700_000_000;
    let token = generate_jwt_at(UID, now).unwrap();
    let other = generate_jwt_at(UID + 1, now).unwrap();
    let parts: Vec<&str> = token.split('.').collect();
    let other_parts: Vec<&str> = other.split('.').collect();
    let forged = format!("{}.{}.{}", parts[0], other_parts[1], parts[2]);
    assert_eq!(decode_jwt_at(&forged, now), Err(AuthError::Invalid));
}

#[test]
fn malformed_tokens_fail() {
    for text in ["", ".", "..", "a.b.c", "not a token", "a.b", "a.b.c.d"] {
        assert_eq!(decode_jwt_at(text, 0), Err(AuthError::Invalid));
        assert_eq!(decode_jwt_and_get_user_id(text), Err(AuthError::Invalid));
    }
}

#[test]
fn token_signed_with_another_secret_fails() {
    let mut payload = serde_json::Map::new();
    payload.insert("iat".to_string(), serde_json::Value::from(1000i64));
    payload.insert("exp".to_string(), serde_json::Value::from(1000i64 + ONE_WEEK));
    payload.insert(
        "user_id".to_string(),
        serde_json::Value::from(uuid::Uuid::from_u128(UID).to_string()),
    );
    let header = jsonwebtoken::Header::default();
    let wrong = jsonwebtoken::EncodingKey::from_secret(b"another secret");
    let forged = jsonwebtoken::encode(&header, &payload, &wrong).unwrap();
    assert_eq!(decode_jwt_at(&forged, 1000), Err(AuthError::Invalid));
    let right = jsonwebtoken::EncodingKey::from_secret(&KEY);
    let genuine = jsonwebtoken::encode(&header, &payload, &right).unwrap();
    assert_eq!(decode_jwt_at(&genuine, 1000), Ok(UID));
    assert_eq!(genuine, generate_jwt_at(UID, 1000).unwrap());
}

#[test]
fn token_whose_payload_lacks_a_claim_fails() {
    let header = jsonwebtoken::Header::default();
    let key = jsonwebtoken::EncodingKey::from_secret(&KEY);
    let uid = serde_json::Value::from(uuid::Uuid::from_u128(UID).to_string());
    let full = [
        ("iat", serde_json::Value::from(1000i64)),
        ("exp", serde_json::Value::from(2000i64)),
        ("user_id", uid.clone()),
    ];
    for skip in 0..3 {
        let mut payload = serde_json::Map::new();
        for (i, (name, value)) in full.iter().enumerate() {
            if i != skip {
                payload.insert(name.to_string(), value.clone());
            }
        }
        let token = jsonwebtoken::encode(&header, &payload, &key).unwrap();
        assert_eq!(decode_jwt_at(&token, 1000), Err(AuthError::Invalid));
    }
    let mut payload = serde_json::Map::new();
    payload.insert("iat".to_string(), serde_json::Value::from(1000i64));
    payload.insert("exp".to_string(), serde_json::Value::from(2000i64));
    payload.insert("user_id".to_string(), serde_json::Value::from("no uuid"));
    let token = jsonwebtoken::encode(&header, &payload, &key).unwrap();
    assert_eq!(decode_jwt_at(&token, 1000), Err(AuthError::Invalid));
    payload.insert("user_id".to_string(), uid);
    payload.insert("exp".to_string(), serde_json::Value::from("2000"));
    let token = jsonwebtoken::encode(&header, &payload, &key).unwrap();
    assert_eq!(decode_jwt_at(&token, 1000), Err(AuthError::Invalid));
}

#[test]
fn token_payload_reads_as_the_three_claims() {
    let token = generate_jwt_at(UID, 1_700_000_000).unwrap();
    let rules = jsonwebtoken::Validation { validate_exp: false, ..Default::default() };
    let key = jsonwebtoken::DecodingKey::from_secret(&KEY);
    let data = jsonwebtoken::decode::<serde_json::Value>(&token, &key, &rules).unwrap();
    assert_eq!(data.header.alg, jsonwebtoken::Algorithm::HS256);
    assert_eq!(data.claims.get("iat").unwrap().as_i64(), Some(1_700_000_000));
    assert_eq!(data.claims.get("exp").unwrap().as_i64(), Some(1_700_604_800));
    assert_eq!(
        data.claims.get("user_id").unwrap().as_str(),
        Some("67e55044-10b1-426f-9247-bb680e5fe0c8")
    );
    assert_eq!(data.claims.as_object().unwrap().len(), 3);
}

#[test]
fn fresh_token_is_accepted_by_the_crate_with_its_own_expiry_check() {
    let token = generate_jwt(UID).unwrap();
    let key = jsonwebtoken::DecodingKey::from_secret(&KEY);
    let rules = jsonwebtoken::Validation::default();
    assert!(jsonwebtoken::decode::<serde_json::Value>(&token, &key, &rules).is_ok());
    let old = generate_jwt_at(UID, 1_000_000).unwrap();
    assert!(jsonwebtoken::decode::<serde_json::Value>(&old, &key, &rules).is_err());
}

#[test]
fn token_bytes_that_are_no_text_fail() {
    let token = generate_jwt_at(UID, 1000).unwrap();
    assert_eq!(decode_jwt_bytes_at(token.as_bytes(), 1000), Ok(UID));
    let mut bytes = token.into_bytes();
    bytes.push(0xff);
    assert_eq!(decode_jwt_bytes_at(&bytes, 1000), Err(AuthError::Invalid));
    assert_eq!(decode_jwt_bytes_at(&[0xc3, 0x28], 1000), Err(AuthError::Invalid));
    assert_eq!(decode_jwt_bytes_at(&[], 1000), Err(AuthError::Invalid));
}

#[test]
fn a_token_is_issued_at_every_instant_whose_expiry_the_clock_can_show() {
    for now in [i64::MIN, -1, 0, 1, 1 << 48, i64::MAX - ONE_WEEK] {
        assert!(generate_jwt_at(UID, now).is_ok());
    }
    for now in [i64::MAX - ONE_WEEK + 1, i64::MAX] {
        assert_eq!(generate_jwt_at(UID, now), Err(ApiError::InternalError));
    }
    for uid in [0u128, UID, u128::MAX] {
        assert!(generate_jwt(uid).is_ok());
    }
}

#[test]
fn the_clock_shows_an_instant_within_the_range_of_its_calendar() {
    let token = generate_jwt(UID).unwrap();
    let rules = jsonwebtoken::Validation { validate_exp: false, ..Default::default() };
    let key = jsonwebtoken::DecodingKey::from_secret(&KEY);
    let data = jsonwebtoken::decode::<serde_json::Value>(&token, &key, &rules).unwrap();
    let iat = data.claims.get("iat").unwrap().as_i64().unwrap();
    assert!(-(1i64 << 48) < iat && iat < (1i64 << 48));
    assert!(iat > 1_700_000_000);
    let latest = chrono::DateTime::<chrono::Utc>::MAX_UTC.timestamp();
    let earliest = chrono::DateTime::<chrono::Utc>::MIN_UTC.timestamp();
    assert!(latest < (1i64 << 48));
    assert!(earliest > -(1i64 << 48));
}
