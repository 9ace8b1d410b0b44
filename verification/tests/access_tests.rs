use sakaloka::permission::{normalize_permissions, PermissionAction, PermissionActions, PermissionEntry, PermissionsValue};
use sakaloka::guard::{scope_decision, GuardDecision, RequireScope};
use sakaloka::jwt::UserClaims;
use sakaloka::rbac::{allowed_scopes, Role, Scope};

fn claims_with_scopes(scopes: &[&str]) -> UserClaims {
    UserClaims {
        sub: "user:test".to_string(),
        iss: "sakaloka:iam".to_string(),
        aud: vec!["sakaloka:earth".to_string()],
        exp: u64::MAX,
        iat: 1,
        jti: "token:test".to_string(),
        role: "tester".to_string(),
        scopes: scopes.iter().map(|scope| (*scope).to_string()).collect(),
        session_id: "session:test".to_string(),
        org_id: Some("organization:test".to_string()),
    }
}

#[test]
fn require_scope_allows_request_with_matching_scope() {
    let guard = RequireScope::new(Scope::ProductRead).layer(());
    let claims = claims_with_scopes(&["product:read"]);
    assert_eq!(guard.check(Some(&claims)), GuardDecision::Allow);
}

#[test]
fn require_scope_rejects_request_with_missing_scope() {
    let guard = RequireScope::new(Scope::ProductDelete).layer(());
    let claims = claims_with_scopes(&["product:read"]);
    match guard.check(Some(&claims)) {
        GuardDecision::Forbidden { error, message } => {
            assert_eq!(error, "forbidden");
            assert_eq!(message, "Missing required scope: product:delete");
        }
        GuardDecision::Allow => panic!("expected a refusal"),
    }
}

#[test]
fn require_scope_rejects_request_without_claims() {
    let guard = RequireScope::new(Scope::ProductRead).layer(());
    match guard.check(None) {
        GuardDecision::Forbidden { error, message } => {
            assert_eq!(error, "forbidden");
            assert_eq!(message, "Missing JWT claims in request extension");
        }
        GuardDecision::Allow => panic!("expected a refusal"),
    }
}

#[test]
fn require_scope_new_keeps_scope() {
    let guard = RequireScope::new(Scope::ProductCreate);
    assert_eq!(guard.required_scope, Scope::ProductCreate);
    let service = guard.layer(7u8);
    assert_eq!(*service.inner_service(), 7u8);
    assert_eq!(service.scope(), Scope::ProductCreate);
}

#[test]
fn guard_matches_whole_scope_texts_only() {
    let claims = claims_with_scopes(&["product:read ", "product:rea", "Product:read"]);
    assert!(matches!(scope_decision(&Scope::ProductRead, Some(&claims)), GuardDecision::Forbidden { .. }));
}

#[test]
fn viewer_matrix_reads_products_only() {
    let scopes = allowed_scopes(&Role::Viewer);
    assert!(scopes.contains(&Scope::ProductRead));
    assert!(!scopes.contains(&Scope::ProductDelete));
    assert_eq!(scopes.len(), 7);
}

#[test]
fn matrix_sizes_and_nesting() {
    let admin = allowed_scopes(&Role::Admin);
    let editor = allowed_scopes(&Role::Editor);
    let viewer = allowed_scopes(&Role::Viewer);
    let service = allowed_scopes(&Role::Service);
    assert_eq!(admin.len(), 39);
    assert_eq!(editor.len(), 19);
    assert_eq!(service, vec![Scope::DbRead, Scope::DbWrite, Scope::ZenohPublish, Scope::ZenohSubscribe]);
    assert!(viewer.iter().all(|s| editor.contains(s)));
    assert!(editor.iter().all(|s| admin.contains(s)));
    assert!(service.iter().all(|s| admin.contains(s)));
    assert!(!editor.contains(&Scope::UserRead));
}

#[test]
fn scope_and_role_texts() {
    assert_eq!(Scope::OrganizationSelect.to_string(), "organization:select");
    assert_eq!(Scope::ZenohSubscribe.to_string(), "zenoh:subscribe");
    assert_eq!(Scope::BomDelete.to_string(), "bom:delete");
    assert_eq!(Role::Admin.to_string(), "admin");
    assert_eq!(Role::Service.to_string(), "service");
    let admin = allowed_scopes(&Role::Admin);
    let mut texts: Vec<String> = admin.iter().map(|s| s.to_string()).collect();
    assert!(texts.iter().all(|t| sakaloka::permission::is_known_scope(t)));
    texts.sort();
    texts.dedup();
    assert_eq!(texts.len(), 39);
}

#[test]
fn guard_follows_stored_permissions() {
    let perms = PermissionsValue::Object(vec![PermissionEntry {
        module: "product".to_string(),
        actions: PermissionActions::List(vec![PermissionAction::Text("read".to_string()), PermissionAction::Text("read".to_string())]),
    }]);
    let scopes = normalize_permissions(&perms);
    let mut claims = claims_with_scopes(&[]);
    claims.scopes = scopes;
    assert_eq!(scope_decision(&Scope::ProductRead, Some(&claims)), GuardDecision::Allow);
    assert!(matches!(scope_decision(&Scope::ProductUpdate, Some(&claims)), GuardDecision::Forbidden { .. }));
}

#[test]
fn viewer_token_blocked_from_product_update() {
    let viewer: Vec<String> = allowed_scopes(&Role::Viewer).iter().map(|s| s.to_string()).collect();
    let mut claims = claims_with_scopes(&[]);
    claims.scopes = viewer;
    assert!(matches!(scope_decision(&Scope::ProductUpdate, Some(&claims)), GuardDecision::Forbidden { .. }));
    assert_eq!(scope_decision(&Scope::BomRead, Some(&claims)), GuardDecision::Allow);
}
