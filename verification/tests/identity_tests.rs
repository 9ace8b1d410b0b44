use sakaloka::error::SecureError;
use sakaloka::jwt::{secs_or_zero, 
    check_service_audience, join_strings, service_claims_at, service_token_error, user_claims_at,
    user_token_error, TokenRejection,
};
use sakaloka::newtypes::{EmailAddress, Password, Planet, ServiceName, SessionId, TokenId, UserId, Username};
use sakaloka::tokens::{hash_refresh_token, jti_verdict, rotation_step, RefreshTokenRecord, RotationStep, TokenCache};

#[test]
fn user_claims_carry_earth_audience_and_ttl() {
    let user_id = UserId::new("user:123").unwrap();
    let session_id = SessionId::from_u128(0x0123_4567_89ab_4def_8123_4567_89ab_cdef);
    let jti = TokenId::new();
    let claims = user_claims_at(&user_id, "viewer", &["product:read"], &session_id, Some("organization:test"), 1_000, &jti);
    assert_eq!(claims.sub, user_id.as_str());
    assert_eq!(claims.iss, "sakaloka:iam");
    assert_eq!(claims.aud, vec!["sakaloka:earth".to_string()]);
    assert_eq!(claims.exp, 1_900);
    assert_eq!(claims.iat, 1_000);
    assert_eq!(claims.role, "viewer");
    assert_eq!(claims.scopes, vec!["product:read".to_string()]);
    assert_eq!(claims.session_id, session_id.to_string());
    assert_eq!(claims.session_id, "01234567-89ab-4def-8123-456789abcdef");
    assert_eq!(claims.org_id.as_deref(), Some("organization:test"));
    assert_eq!(claims.jti, jti.to_string());
}

#[test]
fn service_claims_target_one_planet() {
    let earth = Planet::new("earth").unwrap();
    let jupiter = Planet::new("jupiter").unwrap();
    let saturn = Planet::new("saturn").unwrap();
    let claims = service_claims_at(&earth, &jupiter, &["db:read"], 50, &TokenId::new());
    assert_eq!(claims.sub, "service:earth");
    assert_eq!(claims.aud, vec!["sakaloka:jupiter".to_string()]);
    assert_eq!(claims.exp, 350);
    assert_eq!(claims.planet, "earth");
    assert!(check_service_audience(claims.clone(), &jupiter).is_ok());
    match check_service_audience(claims, &saturn) {
        Err(SecureError::AudienceMismatch { expected, got }) => {
            assert_eq!(expected, "sakaloka:saturn");
            assert_eq!(got, "sakaloka:jupiter");
        }
        other => panic!("unexpected: {other:?}"),
    }
}

#[test]
fn decode_errors_are_mapped() {
    assert_eq!(user_token_error(TokenRejection::Expired, "x"), SecureError::TokenExpired);
    assert_eq!(user_token_error(TokenRejection::WrongAudience, "InvalidAudience"), SecureError::JwtDecode("InvalidAudience".to_string()));
    let saturn = Planet::new("Saturn").unwrap();
    assert_eq!(
        service_token_error(TokenRejection::WrongAudience, "InvalidAudience", &saturn),
        SecureError::AudienceMismatch { expected: "sakaloka:saturn".to_string(), got: "unknown".to_string() }
    );
    assert_eq!(service_token_error(TokenRejection::Other("bad".to_string()), "bad", &saturn), SecureError::JwtDecode("bad".to_string()));
}

#[test]
fn join_strings_matches_std_join() {
    let parts = vec!["a".to_string(), "bc".to_string(), "".to_string()];
    assert_eq!(join_strings(&parts, ", "), parts.join(", "));
    assert_eq!(join_strings(&vec![], ", "), "");
}

#[test]
fn refresh_token_hash_is_hex_sha256() {
    let hash = hash_refresh_token("my-token");
    assert_eq!(hash.len(), 64);
    assert_eq!(hash_refresh_token("abc"), "ba7816bf8f01cfea414140de5dae2223b00361a396177a9cb410ff61f20015ad");
    assert!(hash.chars().all(|c| c.is_ascii_hexdigit() && !c.is_ascii_uppercase()));
}

#[test]
fn blocklisted_jti_is_reuse() {
    assert_eq!(jti_verdict(true), Err(SecureError::TokenReused));
    assert_eq!(jti_verdict(false), Ok(()));
}

#[test]
fn rotation_decisions() {
    let session = SessionId::from_u128(7);
    assert!(matches!(rotation_step(&None, &Ok(10)), RotationStep::Refuse(SecureError::JwtDecode(m)) if m == "Invalid refresh token"));
    let reused = Some(RefreshTokenRecord { session_id: session, expires_at: 100, rotated_at: Some(5) });
    assert!(matches!(rotation_step(&reused, &Ok(10)), RotationStep::TerminateSession(s) if s == session));
    let fresh = Some(RefreshTokenRecord { session_id: session, expires_at: 100, rotated_at: None });
    assert!(matches!(rotation_step(&fresh, &Ok(101)), RotationStep::Refuse(SecureError::TokenExpired)));
    assert!(matches!(rotation_step(&fresh, &Ok(100)), RotationStep::Rotate { expires_at: 604_900, .. }));
    assert!(matches!(rotation_step(&fresh, &Err("clock".to_string())), RotationStep::Refuse(SecureError::SyncPoisoned(m)) if m == "clock"));
}

#[test]
fn token_cache_read_after_write() {
    let mut cache = TokenCache::new();
    assert_eq!(cache.fresh_token("jupiter", 0), None);
    cache.store_issued("jupiter", "t1".to_string(), 1_000);
    assert_eq!(cache.fresh_token("jupiter", 1_000), Some("t1".to_string()));
    assert_eq!(cache.fresh_token("jupiter", 1_239), Some("t1".to_string()));
    assert_eq!(cache.fresh_token("jupiter", 1_240), None);
    assert_eq!(cache.fresh_token("saturn", 1_000), None);
    cache.store_issued("jupiter", "t2".to_string(), 1_240);
    assert_eq!(cache.fresh_token("jupiter", 1_240), Some("t2".to_string()));
}

#[test]
fn newtypes_validate_inputs() {
    assert!(UserId::new("").is_err());
    assert_eq!(Planet::new("EARTH").unwrap().as_str(), "earth");
    assert_eq!(Planet::new("earth").unwrap().audience(), "sakaloka:earth");
    assert!(Planet::new("").is_err());
    assert!(ServiceName::new("").is_err());
    assert_eq!(EmailAddress::new("  Alice@Example.COM ").unwrap().as_str(), "alice@example.com");
    assert!(EmailAddress::new("no-at-sign").is_err());
    assert!(EmailAddress::new("a@b@c.com").is_err());
    assert!(Username::new("ab").is_err());
    assert_eq!(Username::new("  alice_01 ").unwrap().as_str(), "alice_01");
    assert!(Username::new("bad name").is_err());
    assert!(Password::new("short").is_err());
    assert_eq!(Password::new("correct-horse-battery").unwrap().as_str(), "correct-horse-battery");
    let raw = "session:01234567-89ab-4def-8123-456789abcdef";
    let s = SessionId::new_with_raw(raw).unwrap();
    assert_eq!(s.to_record_id_string(), raw);
    assert!(SessionId::new_with_raw("session:nope").is_err());
    assert_ne!(TokenId::new(), TokenId::new());
}

#[test]
fn secure_error_messages() {
    assert_eq!(SecureError::TokenExpired.to_string(), "token expired");
    assert_eq!(
        SecureError::AudienceMismatch { expected: "a".to_string(), got: "b".to_string() }.to_string(),
        "audience mismatch: expected `a`, got `b`"
    );
    assert_eq!(SecureError::MissingEnvVar("X".to_string()).to_string(), "missing environment variable `X`");
}

#[test]
fn lengths_count_characters_not_bytes() {
    assert!(matches!(Username::new("éé"), Err(SecureError::InvalidUsername(_))));
    let forty = "é".repeat(40);
    assert_eq!(Username::new(&forty).unwrap().as_str(), forty);
    assert!(Username::new(&"é".repeat(65)).is_err());
    assert!(Password::new("éééééé").is_err());
    assert!(Password::new("ééééééééééé").is_err());
    assert!(Password::new("éééééééééééé").is_ok());
    assert!(Password::new("12345678901").is_err());
    assert_eq!(Password::new("123456789012").unwrap().as_str(), "123456789012");
}

#[test]
fn clock_errors_read_as_zero() {
    assert_eq!(secs_or_zero(&Ok(42)), 42);
    assert_eq!(secs_or_zero(&Err("second time provided was later than self".to_string())), 0);
}
