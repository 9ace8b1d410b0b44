use sakaloka::permission::{
    business_permission_catalog, full_business_permissions, full_system_permissions,
    is_known_scope, normalize_permissions, validate_business_permissions, validate_permissions,
    validated_scopes, PermissionAction, PermissionActions, PermissionEntry, PermissionsValue,
};

/// A permissions object whose members hold arrays of strings.
fn object(members: &[(&str, &[&str])]) -> PermissionsValue {
    PermissionsValue::Object(
        members
            .iter()
            .map(|(module, actions)| PermissionEntry {
                module: module.to_string(),
                actions: PermissionActions::List(
                    actions
                        .iter()
                        .map(|a| PermissionAction::Text(a.to_string()))
                        .collect(),
                ),
            })
            .collect(),
    )
}

#[test]
fn normalize_returns_known_scopes() {
    let perms = object(&[
        ("organization", &["select"]),
        ("product", &["read", "update"]),
        ("user", &["delete"]),
    ]);
    let scopes = normalize_permissions(&perms);
    assert!(scopes.contains(&"product:read".to_string()));
    assert!(scopes.contains(&"product:update".to_string()));
    assert!(scopes.contains(&"user:delete".to_string()));
    assert!(scopes.contains(&"organization:select".to_string()));
    assert_eq!(scopes.len(), 4);
}

#[test]
fn normalize_ignores_unknown_entries() {
    let perms = object(&[("mystery", &["power"]), ("product", &["read"])]);
    let scopes = normalize_permissions(&perms);
    assert_eq!(scopes, vec!["product:read".to_string()]);
}

#[test]
fn normalize_deduplicates() {
    let perms = object(&[("product", &["read", "read"])]);
    let scopes = normalize_permissions(&perms);
    assert_eq!(scopes, vec!["product:read".to_string()]);
}

#[test]
fn normalize_empty_object_yields_no_scopes() {
    let scopes = normalize_permissions(&PermissionsValue::Object(vec![]));
    assert!(scopes.is_empty());
}

#[test]
fn normalize_null_yields_no_scopes() {
    let scopes = normalize_permissions(&PermissionsValue::Other);
    assert!(scopes.is_empty());
}

#[test]
fn validate_accepts_known_permissions() {
    let ok = object(&[("product", &["read", "update"]), ("user", &["delete"])]);
    assert!(validate_permissions(&ok).is_ok());
}

#[test]
fn validate_business_rejects_technical_permissions() {
    let bad = object(&[("db", &["read"])]);
    assert!(validate_business_permissions(&bad).is_err());
}

#[test]
fn validate_rejects_unknown_module_action() {
    let bad = object(&[("mystery", &["power"]), ("product", &["read"])]);
    match validate_permissions(&bad) {
        Err(e) => assert!(e.contains("mystery:power")),
        Ok(_) => panic!("Expected error for mystery:power"),
    }
}

#[test]
fn validate_rejects_non_array_actions() {
    let bad = PermissionsValue::Object(vec![PermissionEntry {
        module: "product".to_string(),
        actions: PermissionActions::Other,
    }]);
    assert!(validate_permissions(&bad).is_err());
}

#[test]
fn validate_rejects_null_permissions() {
    assert!(validate_permissions(&PermissionsValue::Other).is_err());
}

#[test]
fn validated_scopes_rejects_malformed_permissions() {
    let bad = PermissionsValue::Object(vec![PermissionEntry {
        module: "product".to_string(),
        actions: PermissionActions::Other,
    }]);
    assert!(validated_scopes(&bad).is_err());
}

#[test]
fn business_catalog_exposes_expected_modules() {
    let modules = business_permission_catalog();
    assert!(modules.iter().any(|module| module.key == "organization"));
    assert!(modules.iter().any(|module| module.key == "pos"));
}

#[test]
fn full_business_permissions_excludes_technical_scopes() {
    let perms = full_business_permissions();
    let scopes = normalize_permissions(&perms);
    assert!(scopes.contains(&"role:update".to_string()));
    assert!(!scopes.contains(&"db:admin".to_string()));
}

#[test]
fn full_system_permissions_covers_technical_scopes() {
    let perms = full_system_permissions();
    let scopes = normalize_permissions(&perms);
    assert!(scopes.contains(&"db:admin".to_string()));
    assert!(scopes.contains(&"zenoh:publish".to_string()));
}

#[test]
fn is_known_scope_identifies_canonical_scopes() {
    assert!(is_known_scope("product:read"));
    assert!(is_known_scope("organization:select"));
    assert!(is_known_scope("zenoh:subscribe"));
    assert!(!is_known_scope("mystery:power"));
    assert!(!is_known_scope(""));
}

#[test]
fn normalize_orders_scopes_by_text() {
    let perms = object(&[("user", &["delete"]), ("brand", &["read"]), ("bom", &["create"])]);
    let scopes = normalize_permissions(&perms);
    assert_eq!(
        scopes,
        vec!["bom:create".to_string(), "brand:read".to_string(), "user:delete".to_string()]
    );
}

#[test]
fn normalize_skips_non_string_actions() {
    let perms = PermissionsValue::Object(vec![PermissionEntry {
        module: "product".to_string(),
        actions: PermissionActions::List(vec![
            PermissionAction::Other,
            PermissionAction::Text("read".to_string()),
        ]),
    }]);
    assert_eq!(normalize_permissions(&perms), vec!["product:read".to_string()]);
}

#[test]
fn validate_reports_non_object_and_non_string_errors() {
    let not_string = PermissionsValue::Object(vec![PermissionEntry {
        module: "product".to_string(),
        actions: PermissionActions::List(vec![PermissionAction::Other]),
    }]);
    assert!(validate_permissions(&not_string).is_err());
    let e = validate_permissions(&PermissionsValue::Other).unwrap_err();
    assert!(!e.is_empty());
}

#[test]
fn full_permissions_validate() {
    assert!(validate_business_permissions(&full_business_permissions()).is_ok());
    assert!(validate_permissions(&full_system_permissions()).is_ok());
    assert!(validate_business_permissions(&full_system_permissions()).is_err());
    assert_eq!(normalize_permissions(&full_system_permissions()).len(), 39);
    assert_eq!(normalize_permissions(&full_business_permissions()).len(), 34);
}

#[test]
fn catalog_lists_business_modules_in_order() {
    let modules = business_permission_catalog();
    let keys: Vec<&str> = modules.iter().map(|m| m.key).collect();
    assert_eq!(
        keys,
        vec!["organization", "product", "brand", "category", "stock", "user", "role", "pos", "bom"]
    );
    let stock = &modules[4];
    let actions: Vec<&str> = stock.permissions.iter().map(|a| a.key).collect();
    assert_eq!(actions, vec!["read", "update"]);
    assert_eq!(stock.label, "Stock");
}
