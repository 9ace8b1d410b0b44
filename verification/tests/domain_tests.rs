use sakaloka::error::SecureError;
use sakaloka::ai::{check_embed_input, AiError, EmbeddingModel};
use sakaloka::domain::{BomStatus, PlanetId, ProductionRunStatus, RequestId, JWT_ISSUER, USER_TOKEN_TTL_SECS, REFRESH_TOKEN_TTL_SECS, SERVICE_TOKEN_TTL_SECS};
use sakaloka::hal::{write_reading, SensorReading};
use sakaloka::password::{argon2_instance, hash_password_blocking, verify_password_blocking, Argon2Algorithm, Argon2Version};
use sakaloka::newtypes::Password;
use sakaloka::vault::{ApiKeyVault, QdrantScope};

#[test]
fn planet_id_round_trips_its_text() {
    let id = PlanetId::new("earth");
    assert_eq!(id.as_str(), "earth");
    assert_eq!(id.to_string(), "earth");
}

#[test]
fn request_ids_are_random_v4() {
    let a = RequestId::new();
    let b = RequestId::default();
    assert_ne!(a, b);
    let text = a.to_string();
    assert_eq!(text.len(), 36);
    assert_eq!(&text[14..15], "4");
}

#[test]
fn bom_status_texts_round_trip() {
    for s in [BomStatus::Draft, BomStatus::Active, BomStatus::Archived] {
        assert_eq!(BomStatus::from_str(&s.to_string()), Ok(s));
    }
    assert_eq!(BomStatus::from_str("ACTIVE"), Ok(BomStatus::Active));
    assert_eq!(BomStatus::from_str("gone"), Err("invalid status: gone".to_string()));
    assert_eq!(BomStatus::default(), BomStatus::Draft);
}

#[test]
fn production_run_status_texts_round_trip() {
    for s in [
        ProductionRunStatus::Planned,
        ProductionRunStatus::InProgress,
        ProductionRunStatus::Completed,
        ProductionRunStatus::Cancelled,
    ] {
        assert_eq!(ProductionRunStatus::from_str(&s.to_string()), Ok(s));
    }
    assert_eq!(ProductionRunStatus::InProgress.to_string(), "in_progress");
    assert_eq!(ProductionRunStatus::from_str("In_Progress"), Ok(ProductionRunStatus::InProgress));
    assert!(ProductionRunStatus::from_str("in progress").is_err());
    assert_eq!(ProductionRunStatus::default(), ProductionRunStatus::Planned);
}

#[test]
fn platform_constants() {
    assert_eq!(JWT_ISSUER, "sakaloka:iam");
    assert_eq!(USER_TOKEN_TTL_SECS, 900);
    assert_eq!(REFRESH_TOKEN_TTL_SECS, 604_800);
    assert_eq!(SERVICE_TOKEN_TTL_SECS, 300);
}

#[test]
fn sensor_frame_is_little_endian() {
    let r = SensorReading { sensor_id: 1, value_raw: 42, timestamp_ms: 1000 };
    let bytes = r.to_bytes();
    assert_eq!(bytes[0], 1);
    assert_eq!(bytes, [1, 42, 0, 0, 0, 0xe8, 0x03, 0, 0]);
    let r2 = SensorReading { sensor_id: 255, value_raw: 0x0102_0304, timestamp_ms: u32::MAX };
    assert_eq!(r2.to_bytes(), [255, 4, 3, 2, 1, 255, 255, 255, 255]);
    write_reading(&r);
}

#[test]
fn embedding_model_load_and_input_check() {
    match EmbeddingModel::load("/definitely/missing/model.bin") {
        Err(AiError::ModelNotLoaded(p)) => assert_eq!(p, "/definitely/missing/model.bin"),
        _ => panic!("expected ModelNotLoaded"),
    }
    let m = EmbeddingModel::from_existing("/models/x.bin", true).unwrap();
    assert_eq!(m.path(), "/models/x.bin");
    assert_eq!(check_embed_input("   "), Err(AiError::InvalidInput("text cannot be empty".to_string())));
    assert_eq!(check_embed_input(" Hello Sakaloka "), Ok(()));
    assert_eq!(AiError::ModelNotLoaded("p".to_string()).to_string(), "model file not found at `p`");
}

#[test]
fn scoped_qdrant_keys() {
    let vault = ApiKeyVault::new("my-master-key".to_string());
    assert_eq!(vault.signing_secret(), "my-master-key");
    let c = vault.qdrant_key_claims(QdrantScope::ReadWrite, 10).unwrap();
    assert_eq!((c.exp, c.access.as_str()), (3610, "rw"));
    assert!(vault.qdrant_key_claims(QdrantScope::WriteOnly, 0).is_none());
    assert_eq!(vault.qdrant_key_claims(QdrantScope::ReadOnly, 0).unwrap().access, "r");
}

#[test]
fn test_hash_and_verify_roundtrip() {
    let settings = argon2_instance();
    assert_eq!(settings.algorithm, Argon2Algorithm::Argon2id);
    assert_eq!(settings.version, Argon2Version::V0x13);
    assert_eq!((settings.m_cost, settings.t_cost, settings.p_cost), (19_456, 2, 1));
    let password = Password::new("secure-sakaloka-password").unwrap();
    let hash = hash_password_blocking(&password).unwrap();
    assert!(hash.starts_with("$argon2id$"));
    assert!(hash.starts_with("$argon2id$v=19$m=19456,t=2,p=1$"));
    assert!(verify_password_blocking(&password, &hash).unwrap());
}

#[test]
fn test_verify_rejects_wrong_password() {
    let correct = Password::new("correct-password").unwrap();
    let wrong = Password::new("wrong-password").unwrap();
    let hash = hash_password_blocking(&correct).unwrap();
    assert!(!verify_password_blocking(&wrong, &hash).unwrap());
}

#[test]
fn test_verify_rejects_malformed_hash() {
    let password = Password::new("correct-password").unwrap();
    let result = verify_password_blocking(&password, "not-a-hash");
    assert!(matches!(result, Err(SecureError::VerifyFailed)));
}
