use sakaloka::accounts::{
    id_on_save, new_local_user, new_organization, username_for, validation_input, AuthProvider,
    OrganizationFields, OrganizationParams, RegisterParams,
};
use sakaloka::sync::SyncTimestamp;

#[test]
fn usernames_are_lowercase_with_underscores() {
    assert_eq!(username_for("Budi Santoso"), "budi_santoso");
    assert_eq!(username_for("  A  B "), "__a__b_");
    assert_eq!(username_for("ÉLISE Noël"), "élise_noël");
}

#[test]
fn registered_user_record() {
    let params = RegisterParams { email: "a@b.co".to_string(), password: "x".to_string(), name: "Ana Maria".to_string() };
    let now = SyncTimestamp { secs: 5, nanos: 0 };
    let u = new_local_user(&params, 0x0123_4567_89ab_4def_8123_4567_89ab_cdef, "$argon2id$h".to_string(), now);
    assert_eq!(u.id, "01234567-89ab-4def-8123-456789abcdef");
    assert_eq!(u.email.as_deref(), Some("a@b.co"));
    assert_eq!(u.username, "ana_maria");
    assert_eq!(u.password.as_deref(), Some("$argon2id$h"));
    assert_eq!(u.provider, AuthProvider::Local);
    assert!(u.is_active && !u.is_locked);
    assert_eq!(id_on_save(true, None, 1), Some("00000000-0000-0000-0000-000000000001".to_string()));
    assert_eq!(id_on_save(false, None, 1), None);
    assert_eq!(id_on_save(true, Some("x".to_string()), 1), Some("x".to_string()));
    assert_eq!(validation_input("ana", &None), ("ana".to_string(), "".to_string()));
}

#[test]
fn organization_patches_and_creation() {
    let now = SyncTimestamp { secs: 9, nanos: 0 };
    let mut fields = OrganizationFields {
        name: "Old".to_string(),
        code: Some("C1".to_string()),
        org_type: 1u8,
        address: None,
        phone: None,
        updated_at: SyncTimestamp { secs: 1, nanos: 0 },
    };
    let patch = OrganizationParams { name: None, code: None, org_type: Some(2u8), address: Some("Jl. 1".to_string()), phone: None };
    patch.update(&mut fields, now);
    assert_eq!(fields.name, "Old");
    assert_eq!(fields.code.as_deref(), Some("C1"));
    assert_eq!(fields.org_type, 2);
    assert_eq!(fields.address.as_deref(), Some("Jl. 1"));
    assert_eq!(fields.updated_at, now);
    assert_eq!(new_organization(&patch, 1, 0u8, now).err(), Some("Name is required".to_string()));
    let create = OrganizationParams { name: Some("Toko".to_string()), code: None, org_type: None, address: None, phone: None };
    let org = new_organization(&create, 1, 0u8, now).unwrap();
    assert_eq!((org.fields.name.as_str(), org.fields.org_type, org.timezone.as_str(), org.currency.as_str()), ("Toko", 0, "UTC", "IDR"));
}
