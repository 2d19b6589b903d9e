use auth_core::claims::{
    check_decoded, Claims, SigningContext, TokenFault, TokenPayload, JWT_EXPIRATION_HOURS,
    JWT_EXPIRATION_SECONDS,
};
use auth_core::error::AuthError;
use auth_core::model::Auth;

fn identity() -> Auth {
    Auth {
        id: "V1StGXR8_Z5jdHi6B-myT".to_string(),
        email: "a@b.com".to_string(),
        first_name: "Ada".to_string(),
        last_name: "Byron".to_string(),
        password_hash: "$argon2id$v=19$m=64,t=1,p=1$c2FsdHNhbHRzYWx0c2FsdA$AAAA".to_string(),
        roles: vec!["ROLE_USER".to_string()],
        active: true,
        reset_password: false,
        created_ts: 1_700_000_000_000,
        updated_ts: 1_700_000_000_000,
    }
}

fn context() -> SigningContext {
    SigningContext::new(b"a key that is handed in".to_vec())
}

/// A token with the given body, signed with the key of `context()`.
fn signed(body: serde_json::Value) -> String {
    jsonwebtoken::encode(
        &jsonwebtoken::Header::default(),
        &body,
        &jsonwebtoken::EncodingKey::from_secret(b"a key that is handed in"),
    )
    .unwrap()
}

fn object(entries: Vec<(&str, serde_json::Value)>) -> serde_json::Value {
    let mut map = serde_json::Map::new();
    for (key, value) in entries {
        map.insert(key.to_string(), value);
    }
    serde_json::Value::Object(map)
}

fn full_body(exp: i64) -> Vec<(&'static str, serde_json::Value)> {
    vec![
        ("sub", serde_json::Value::from("someone")),
        ("permissions", serde_json::Value::from(vec!["ROLE_USER".to_string()])),
        ("exp", serde_json::Value::from(exp)),
        ("iat", serde_json::Value::from(1000_i64)),
    ]
}

#[test]
fn lifetime_is_a_day() {
    assert_eq!(JWT_EXPIRATION_HOURS, 24);
    assert_eq!(JWT_EXPIRATION_SECONDS, 86_400);
    assert_eq!(context().lifetime_seconds(), 86_400);
    assert_eq!(SigningContext::with_lifetime(vec![1], 60).lifetime_seconds(), 60);
}

#[test]
fn claims_are_issued_at_now_for_the_lifetime() {
    let claims =
        Claims::issued_at(&"id".to_string(), &vec!["ROLE_USER".to_string()], 1_700_000_000, 86_400);
    assert_eq!(
        claims,
        Claims {
            sub: "id".to_string(),
            permissions: vec!["ROLE_USER".to_string()],
            exp: 1_700_086_400,
            iat: 1_700_000_000,
        }
    );
}

#[test]
fn claims_from_the_clock_last_a_day() {
    let claims = Claims::new(&"id".to_string(), &vec!["A".to_string(), "B".to_string()]);
    assert_eq!(claims.sub, "id");
    assert_eq!(claims.permissions, vec!["A".to_string(), "B".to_string()]);
    assert_eq!(claims.exp, claims.iat + 86_400);
    assert!(claims.iat > 1_600_000_000);
}

#[test]
fn token_round_trip() {
    let now = 1_700_000_000;
    let response = Claims::create_jwt_token_at(&context(), &identity(), now).unwrap();
    assert_eq!(response.token_type, "Bearer");
    assert_eq!(response.access_token.split('.').count(), 3);
    let claims = Claims::decode_jwt_at(&context(), &response.access_token, now).unwrap();
    assert_eq!(claims.sub, "V1StGXR8_Z5jdHi6B-myT");
    assert_eq!(claims.permissions, vec!["ROLE_USER".to_string()]);
    assert_eq!(claims.iat, now);
    assert_eq!(claims.exp, now + 86_400);
    assert!(claims.iat <= now && now <= claims.exp);
}

#[test]
fn token_is_a_function_of_key_claims_and_time() {
    let a = Claims::create_jwt_token_at(&context(), &identity(), 1_700_000_000).unwrap();
    let b = Claims::create_jwt_token_at(&context(), &identity(), 1_700_000_000).unwrap();
    let c = Claims::create_jwt_token_at(&context(), &identity(), 1_700_000_001).unwrap();
    assert_eq!(a, b);
    assert_ne!(a, c);
}

#[test]
fn token_round_trip_with_unusual_text() {
    let mut who = identity();
    who.id = "quote \" backslash \\ newline \n snowman \u{2603} nul \u{0}".to_string();
    who.roles = vec!["".to_string(), "ROLE_\u{1F600}".to_string(), "a.b.c".to_string()];
    let response = Claims::create_jwt_token_at(&context(), &who, -5).unwrap();
    let claims = Claims::decode_jwt_at(&context(), &response.access_token, -5).unwrap();
    assert_eq!(claims.sub, who.id);
    assert_eq!(claims.permissions, who.roles);
    assert_eq!(claims.iat, -5);
    assert_eq!(claims.exp, 86_395);
}

#[test]
fn token_is_accepted_until_it_expires() {
    let now = 1_700_000_000;
    let token = Claims::create_jwt_token_at(&context(), &identity(), now).unwrap().access_token;
    assert!(Claims::decode_jwt_at(&context(), &token, now + 86_399).is_ok());
    assert_eq!(Claims::decode_jwt_at(&context(), &token, now + 86_400), Err(AuthError::Expired));
    assert_eq!(Claims::decode_jwt_at(&context(), &token, now + 86_401), Err(AuthError::Expired));
    assert_eq!(Claims::decode_jwt_at(&context(), &token, i64::MAX), Err(AuthError::Expired));
}

#[test]
fn token_with_expiry_in_the_past_is_expired() {
    let ctx = SigningContext::with_lifetime(b"k".to_vec(), 10);
    // issued on a clock that stood at 100, checked on one that stands at 1000
    let token = Claims::create_jwt_token_at(&ctx, &identity(), 100).unwrap().access_token;
    assert_eq!(Claims::decode_jwt_at(&ctx, &token, 1000), Err(AuthError::Expired));
    // the real clock is far beyond 110 as well
    assert_eq!(Claims::decode_jwt(&ctx, &token), Err(AuthError::Expired));
}

#[test]
fn token_without_lifetime_is_expired_at_once() {
    let ctx = SigningContext::with_lifetime(b"k".to_vec(), 0);
    let token = Claims::create_jwt_token_at(&ctx, &identity(), 100).unwrap().access_token;
    assert_eq!(Claims::decode_jwt_at(&ctx, &token, 100), Err(AuthError::Expired));
    assert!(Claims::decode_jwt_at(&ctx, &token, 99).is_ok());
}

#[test]
fn token_from_the_clock_is_accepted_by_the_clock() {
    let response = Claims::create_jwt_token(&context(), &identity()).unwrap();
    let claims = Claims::decode_jwt(&context(), &response.access_token).unwrap();
    assert_eq!(claims.sub, identity().id);
    assert_eq!(claims.permissions, identity().roles);
    assert_eq!(claims.exp - claims.iat, 86_400);
}

#[test]
fn tampered_signature_is_rejected() {
    let now = 1_700_000_000;
    let token = Claims::create_jwt_token_at(&context(), &identity(), now).unwrap().access_token;
    let start = token.rfind('.').unwrap() + 1;
    assert!(token.len() - start > 40);
    for position in start..token.len() {
        let mut bytes = token.clone().into_bytes();
        bytes[position] = if bytes[position] == b'A' { b'B' } else { b'A' };
        let forged = String::from_utf8(bytes).unwrap();
        assert_eq!(
            Claims::decode_jwt_at(&context(), &forged, now),
            Err(AuthError::InvalidSignature),
            "position {}",
            position
        );
    }
}

#[test]
fn tampered_body_is_rejected() {
    let now = 1_700_000_000;
    let token = Claims::create_jwt_token_at(&context(), &identity(), now).unwrap().access_token;
    let other = Claims::create_jwt_token_at(&context(), &identity(), now + 1).unwrap().access_token;
    let parts: Vec<&str> = token.split('.').collect();
    let other_parts: Vec<&str> = other.split('.').collect();
    let forged = format!("{}.{}.{}", parts[0], other_parts[1], parts[2]);
    assert_eq!(Claims::decode_jwt_at(&context(), &forged, now), Err(AuthError::InvalidSignature));
}

#[test]
fn other_key_is_rejected() {
    let now = 1_700_000_000;
    let token = Claims::create_jwt_token_at(&context(), &identity(), now).unwrap().access_token;
    let other = SigningContext::new(b"another key".to_vec());
    assert_eq!(Claims::decode_jwt_at(&other, &token, now), Err(AuthError::InvalidSignature));
}

#[test]
fn signature_is_checked_before_the_expiry() {
    let token = Claims::create_jwt_token_at(&context(), &identity(), 100).unwrap().access_token;
    let other = SigningContext::new(b"another key".to_vec());
    assert_eq!(Claims::decode_jwt_at(&other, &token, 1_700_000_000), Err(AuthError::InvalidSignature));
}

#[test]
fn other_algorithm_is_rejected() {
    let token = jsonwebtoken::encode(
        &jsonwebtoken::Header::new(jsonwebtoken::Algorithm::HS512),
        &object(full_body(2000)),
        &jsonwebtoken::EncodingKey::from_secret(b"a key that is handed in"),
    )
    .unwrap();
    assert_eq!(Claims::decode_jwt_at(&context(), &token, 1500), Err(AuthError::InvalidSignature));
}

#[test]
fn text_that_is_no_token_is_malformed() {
    for text in ["", "abc", "a.b", "a.b.c", "a.b.c.d", "..", "Bearer x", "\u{2603}.\u{2603}.\u{2603}"] {
        assert_eq!(Claims::decode_jwt_at(&context(), text, 0), Err(AuthError::Malformed), "{:?}", text);
    }
}

#[test]
fn token_with_a_fourth_part_is_malformed() {
    let token = Claims::create_jwt_token_at(&context(), &identity(), 100).unwrap().access_token;
    assert_eq!(
        Claims::decode_jwt_at(&context(), &format!("{}.x", token), 100),
        Err(AuthError::Malformed)
    );
}

#[test]
fn signed_token_with_all_claims_is_accepted() {
    let token = signed(object(full_body(2000)));
    let claims = Claims::decode_jwt_at(&context(), &token, 1999).unwrap();
    assert_eq!(
        claims,
        Claims {
            sub: "someone".to_string(),
            permissions: vec!["ROLE_USER".to_string()],
            exp: 2000,
            iat: 1000,
        }
    );
    assert_eq!(Claims::decode_jwt_at(&context(), &token, 2000), Err(AuthError::Expired));
}

#[test]
fn signed_token_with_a_missing_claim_is_malformed() {
    for missing in ["sub", "permissions", "exp", "iat"] {
        let body: Vec<_> = full_body(2000).into_iter().filter(|(k, _)| *k != missing).collect();
        let token = signed(object(body));
        assert_eq!(
            Claims::decode_jwt_at(&context(), &token, 1500),
            Err(AuthError::Malformed),
            "without {}",
            missing
        );
    }
}

#[test]
fn signed_token_with_a_claim_of_another_type_is_malformed() {
    let wrong: Vec<(&str, serde_json::Value)> = vec![
        ("sub", serde_json::Value::from(7)),
        ("permissions", serde_json::Value::from("ROLE_USER")),
        ("permissions", serde_json::Value::from(vec![serde_json::Value::from("a"), serde_json::Value::from(1)])),
        ("exp", serde_json::Value::from("2000")),
        ("exp", serde_json::Value::from(u64::MAX)),
        ("iat", serde_json::Value::Null),
    ];
    for (key, value) in wrong {
        let mut body: Vec<_> = full_body(2000).into_iter().filter(|(k, _)| *k != key).collect();
        body.push((key, value.clone()));
        let token = signed(object(body));
        assert_eq!(
            Claims::decode_jwt_at(&context(), &token, 1500),
            Err(AuthError::Malformed),
            "{} = {}",
            key,
            value
        );
    }
}

#[test]
fn missing_claim_counts_before_the_expiry() {
    let body: Vec<_> = full_body(2000).into_iter().filter(|(k, _)| *k != "sub").collect();
    let token = signed(object(body));
    assert_eq!(Claims::decode_jwt_at(&context(), &token, 5000), Err(AuthError::Malformed));
}

#[test]
fn signed_token_with_more_claims_is_accepted() {
    let mut body = full_body(2000);
    body.push(("name", serde_json::Value::from("extra")));
    let token = signed(object(body));
    assert!(Claims::decode_jwt_at(&context(), &token, 1500).is_ok());
}

#[test]
fn signed_token_with_empty_permissions_is_accepted() {
    let mut body: Vec<_> = full_body(2000).into_iter().filter(|(k, _)| *k != "permissions").collect();
    body.push(("permissions", serde_json::Value::from(Vec::<String>::new())));
    let token = signed(object(body));
    let claims = Claims::decode_jwt_at(&context(), &token, 1500).unwrap();
    assert!(claims.permissions.is_empty());
}

#[test]
fn signed_token_with_negative_expiry_is_expired() {
    let token = signed(object(full_body(-10)));
    assert_eq!(Claims::decode_jwt_at(&context(), &token, 0), Err(AuthError::Expired));
    assert!(Claims::decode_jwt_at(&context(), &token, -11).is_ok());
}

#[test]
fn signed_body_that_is_no_object_is_malformed() {
    let token = signed(serde_json::Value::from(vec![1, 2, 3]));
    assert_eq!(Claims::decode_jwt_at(&context(), &token, 0), Err(AuthError::Malformed));
}

#[test]
fn decoded_payload_is_checked() {
    let payload = TokenPayload {
        sub: Some("s".to_string()),
        permissions: Some(vec![]),
        exp: Some(10),
        iat: Some(5),
    };
    assert_eq!(
        check_decoded(Ok(payload.clone()), 9),
        Ok(Claims { sub: "s".to_string(), permissions: vec![], exp: 10, iat: 5 })
    );
    assert_eq!(check_decoded(Ok(payload.clone()), 10), Err(AuthError::Expired));
    assert_eq!(check_decoded(Ok(payload.clone()), 11), Err(AuthError::Expired));
    assert_eq!(
        check_decoded(Ok(TokenPayload { sub: None, ..payload.clone() }), 9),
        Err(AuthError::Malformed)
    );
    assert_eq!(
        check_decoded(Ok(TokenPayload { permissions: None, ..payload.clone() }), 9),
        Err(AuthError::Malformed)
    );
    assert_eq!(
        check_decoded(Ok(TokenPayload { exp: None, ..payload.clone() }), 9),
        Err(AuthError::Malformed)
    );
    assert_eq!(
        check_decoded(Ok(TokenPayload { iat: None, ..payload.clone() }), 9),
        Err(AuthError::Malformed)
    );
    assert_eq!(check_decoded(Err(TokenFault::Signature), 9), Err(AuthError::InvalidSignature));
    assert_eq!(check_decoded(Err(TokenFault::Algorithm), 9), Err(AuthError::InvalidSignature));
    assert_eq!(check_decoded(Err(TokenFault::Structure), 9), Err(AuthError::Malformed));
}

#[test]
fn empty_key_signs_and_checks() {
    let ctx = SigningContext::new(Vec::new());
    let token = Claims::create_jwt_token_at(&ctx, &identity(), 100).unwrap().access_token;
    assert!(Claims::decode_jwt_at(&ctx, &token, 100).is_ok());
    assert_eq!(Claims::decode_jwt_at(&context(), &token, 100), Err(AuthError::InvalidSignature));
}
