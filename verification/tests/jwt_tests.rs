use sakaloka::error::SecureError;
use sakaloka::jwt::{
    check_service_claims, check_user_claims, current_unix_secs, service_claims_at, sign_token,
    token_payload, user_claims_at, ServiceClaims, UserClaims,
};
use sakaloka::newtypes::{Planet, SessionId, TokenId, UserId};
use sakaloka::vault::{qdrant_claims_json, ApiKeyVault, QdrantKeyClaims, QdrantScope};
use serde_json::Value;

const SECRET: &[u8] = b"test-secret-for-sakaloka";

fn text_list(items: &[String]) -> Value {
    Value::Array(items.iter().map(|s| Value::String(s.clone())).collect())
}

fn user_json(c: &UserClaims) -> String {
    let mut m = serde_json::Map::new();
    m.insert("sub".to_string(), Value::String(c.sub.clone()));
    m.insert("iss".to_string(), Value::String(c.iss.clone()));
    m.insert("aud".to_string(), text_list(&c.aud));
    m.insert("exp".to_string(), Value::from(c.exp));
    m.insert("iat".to_string(), Value::from(c.iat));
    m.insert("jti".to_string(), Value::String(c.jti.clone()));
    m.insert("role".to_string(), Value::String(c.role.clone()));
    m.insert("scopes".to_string(), text_list(&c.scopes));
    m.insert("session_id".to_string(), Value::String(c.session_id.clone()));
    if let Some(o) = &c.org_id {
        m.insert("org_id".to_string(), Value::String(o.clone()));
    }
    Value::Object(m).to_string()
}

fn service_json(c: &ServiceClaims) -> String {
    let mut m = serde_json::Map::new();
    m.insert("sub".to_string(), Value::String(c.sub.clone()));
    m.insert("iss".to_string(), Value::String(c.iss.clone()));
    m.insert("aud".to_string(), text_list(&c.aud));
    m.insert("exp".to_string(), Value::from(c.exp));
    m.insert("iat".to_string(), Value::from(c.iat));
    m.insert("jti".to_string(), Value::String(c.jti.clone()));
    m.insert("service_scopes".to_string(), text_list(&c.service_scopes));
    m.insert("planet".to_string(), Value::String(c.planet.clone()));
    Value::Object(m).to_string()
}

fn missing(field: &str) -> SecureError {
    SecureError::JwtDecode(format!("JSON error: missing field `{field}`"))
}

fn text(m: &serde_json::Map<String, Value>, k: &str) -> Result<String, SecureError> {
    m.get(k).and_then(|v| v.as_str()).map(|s| s.to_string()).ok_or_else(|| missing(k))
}

fn number(m: &serde_json::Map<String, Value>, k: &str) -> Result<u64, SecureError> {
    m.get(k).and_then(|v| v.as_u64()).ok_or_else(|| missing(k))
}

fn texts(m: &serde_json::Map<String, Value>, k: &str) -> Result<Vec<String>, SecureError> {
    m.get(k)
        .and_then(|v| v.as_array())
        .map(|a| a.iter().filter_map(|x| x.as_str().map(|s| s.to_string())).collect())
        .ok_or_else(|| missing(k))
}

fn object(payload: &str) -> serde_json::Map<String, Value> {
    match serde_json::from_str::<Value>(payload).unwrap() {
        Value::Object(m) => m,
        _ => panic!("payload is not an object"),
    }
}

fn user_claims(payload: &str) -> Result<UserClaims, SecureError> {
    let m = object(payload);
    Ok(UserClaims {
        sub: text(&m, "sub")?,
        iss: text(&m, "iss")?,
        aud: texts(&m, "aud")?,
        exp: number(&m, "exp")?,
        iat: number(&m, "iat")?,
        jti: text(&m, "jti")?,
        role: text(&m, "role")?,
        scopes: texts(&m, "scopes")?,
        session_id: text(&m, "session_id")?,
        org_id: m.get("org_id").and_then(|v| v.as_str()).map(|s| s.to_string()),
    })
}

fn service_claims(payload: &str) -> Result<ServiceClaims, SecureError> {
    let m = object(payload);
    Ok(ServiceClaims {
        sub: text(&m, "sub")?,
        iss: text(&m, "iss")?,
        aud: texts(&m, "aud")?,
        exp: number(&m, "exp")?,
        iat: number(&m, "iat")?,
        jti: text(&m, "jti")?,
        service_scopes: texts(&m, "service_scopes")?,
        planet: text(&m, "planet")?,
    })
}

fn issue_service(issuing: &Planet, target: &Planet, scopes: &[&str]) -> String {
    let c = service_claims_at(issuing, target, scopes, current_unix_secs(), &TokenId::new());
    sign_token(SECRET, &service_json(&c)).unwrap()
}

fn validate_service(token: &str, expected: &Planet) -> Result<ServiceClaims, SecureError> {
    let payload = token_payload(SECRET, token)?;
    check_service_claims(service_claims(&payload)?, expected, current_unix_secs())
}

fn validate_user(token: &str) -> Result<UserClaims, SecureError> {
    let payload = token_payload(SECRET, token)?;
    check_user_claims(user_claims(&payload)?, current_unix_secs())
}

#[test]
fn test_user_jwt_issue_and_validate() {
    let user_id = UserId::new("user:123").unwrap();
    let session_id = SessionId::new();
    let role = "viewer";
    let scopes = vec!["product:read"];
    let c = user_claims_at(&user_id, role, &scopes, &session_id, Some("organization:test"), current_unix_secs(), &TokenId::new());
    let token = sign_token(SECRET, &user_json(&c)).unwrap();
    let claims = validate_user(&token).unwrap();
    assert_eq!(claims.sub, user_id.as_str());
    assert_eq!(claims.session_id, session_id.to_string());
    assert_eq!(claims.role, "viewer");
}

#[test]
fn test_service_jwt_issue_and_validate() {
    let earth = Planet::new("earth").unwrap();
    let jupiter = Planet::new("jupiter").unwrap();
    let token = issue_service(&earth, &jupiter, &["db:read"]);
    let claims = validate_service(&token, &jupiter).unwrap();
    assert_eq!(claims.sub, "service:earth");
    assert_eq!(claims.aud, vec!["sakaloka:jupiter".to_string()]);
}

#[test]
fn test_service_jwt_audience_mismatch() {
    let earth = Planet::new("earth").unwrap();
    let jupiter = Planet::new("jupiter").unwrap();
    let saturn = Planet::new("saturn").unwrap();
    let token = issue_service(&earth, &jupiter, &[]);
    let err = validate_service(&token, &saturn).unwrap_err();
    assert!(matches!(err, SecureError::AudienceMismatch { .. }));
    let user_err = validate_user(&token).unwrap_err();
    assert!(matches!(user_err, SecureError::JwtDecode(_)));
}

#[test]
fn tampered_and_foreign_tokens_are_refused() {
    let earth = Planet::new("earth").unwrap();
    let jupiter = Planet::new("jupiter").unwrap();
    let token = issue_service(&earth, &jupiter, &["db:read"]);
    assert_eq!(token_payload(b"another-secret", &token), Err(SecureError::JwtDecode("InvalidSignature".to_string())));
    assert!(matches!(token_payload(SECRET, "not.a-token"), Err(SecureError::JwtDecode(_))));
    let payload = token_payload(SECRET, &token).unwrap();
    assert_eq!(object(&payload).get("planet").and_then(|v| v.as_str()), Some("earth"));
}

#[test]
fn claim_checks_follow_the_validator_order() {
    let user_id = UserId::new("user:9").unwrap();
    let session_id = SessionId::new();
    let c = user_claims_at(&user_id, "admin", &[], &session_id, None, 1_000, &TokenId::new());
    assert_eq!(check_user_claims(c.clone(), 1_959).unwrap().sub, "user:9");
    assert_eq!(check_user_claims(c.clone(), 1_961).unwrap_err(), SecureError::TokenExpired);
    let mut wrong_issuer = c.clone();
    wrong_issuer.iss = "someone".to_string();
    assert_eq!(check_user_claims(wrong_issuer, 1_000).unwrap_err(), SecureError::JwtDecode("InvalidIssuer".to_string()));
    let mut wrong_audience = c;
    wrong_audience.aud = vec!["sakaloka:jupiter".to_string()];
    assert_eq!(check_user_claims(wrong_audience, 1_000).unwrap_err(), SecureError::JwtDecode("InvalidAudience".to_string()));
}

#[test]
fn qdrant_keys_are_signed_claims() {
    let c = QdrantKeyClaims { exp: 3_610, access: "rw".to_string() };
    assert_eq!(qdrant_claims_json(&c), "{\"access\":\"rw\",\"exp\":3610}");
    let vault = ApiKeyVault::new("my-master-key".to_string());
    let key = vault.get_qdrant_key_at(QdrantScope::ReadOnly, 10).unwrap();
    let payload = sakaloka::jwt::token_payload(b"my-master-key", &key).unwrap();
    assert_eq!(payload, "{\"access\":\"r\",\"exp\":3610}");
    assert!(matches!(vault.get_qdrant_key_at(QdrantScope::WriteOnly, 10), Err(SecureError::JwtEncode(_))));
}
