use sakaloka::data::zenoh_settings;
use sakaloka::data::{
    like_pattern, parse_prefixed_uuid, parse_uuid, record_id, record_key, safe_sort_column,
    sort_column_for, sort_dir, strip_prefix, uuid_to_string, Backend, PgError, SortTable,
    SurrealError, ZenohError,
};
use sakaloka::queries::{
    listing_count_query, listing_query, order_count_query, order_list_query, order_where,
    plan_bom_list, plan_product_update, product_links, BomFilterParam, PatchValue, ProductPatch, ProductUpdatePlan, BomListPlan, ListBomFilters, ListingTable,
    BOM_COUNT_ALL, BOM_COUNT_BY_PRODUCT, BOM_COUNT_BY_SEARCH, BOM_LIST_ALL, BOM_LIST_BY_PRODUCT,
    BOM_LIST_BY_SEARCH, BOM_LIST_BY_STATUS,
};

const ORG: &str = "org:0a0b0c0d-0000-4000-8000-000000000001";
const PRODUCT: &str = "product:0a0b0c0d-0000-4000-8000-000000000002";

fn filters(org: Option<&str>, product: Option<&str>, status: Option<&str>, search: Option<&str>) -> ListBomFilters {
    ListBomFilters {
        organization_id: org.map(String::from),
        product_id: product.map(String::from),
        status: status.map(String::from),
        search: search.map(String::from),
    }
}

#[test]
fn error_messages() {
    assert_eq!(PgError::NotFound("bom".to_string()).to_string(), "not found: bom");
    assert_eq!(PgError::Query("x".to_string()).to_string(), "query error: x");
    assert_eq!(SurrealError::Query("x".to_string()).to_string(), "SurrealDB query error: x");
    assert_eq!(ZenohError::Publish("x".to_string()).to_string(), "Zenoh publish error: x");
}

#[test]
fn uuid_helpers() {
    let text = "0a0b0c0d-0000-4000-8000-000000000001";
    let u = parse_uuid(text).unwrap();
    assert_eq!(uuid_to_string(u), text);
    assert_eq!(record_id("bom", u), format!("bom:{text}"));
    match parse_uuid("nope") {
        Err(PgError::Query(m)) => assert!(m.starts_with("invalid UUID 'nope': ")),
        other => panic!("unexpected {other:?}"),
    }
    assert_eq!(parse_prefixed_uuid(ORG, "org:"), Some(u));
    assert_eq!(parse_prefixed_uuid(text, "org:"), None);
    assert_eq!(strip_prefix("org:abc", "org:"), Some("abc"));
    assert_eq!(strip_prefix("or", "org:"), None);
}

#[test]
fn record_keys_drop_every_prefix_occurrence() {
    assert_eq!(record_key("organization:abc", "organization:"), "abc");
    assert_eq!(record_key("abc", "user:"), "abc");
    assert_eq!(record_key("user:user:x", "user:"), "x");
    assert_eq!(record_key("a-user:b", "user:"), "a-b");
    assert_eq!(record_key("x", ""), "x");
    let links = product_links("organization:o1", "user:u1", Some("category:c1"), None);
    assert_eq!(links.organization, "o1");
    assert_eq!(links.created_by, "u1");
    assert_eq!(links.category.as_deref(), Some("c1"));
    assert!(links.brand.is_none());
}

#[test]
fn sort_columns_are_whitelisted() {
    assert_eq!(safe_sort_column("name", &["name", "sku"], "created_at"), "name");
    assert_eq!(safe_sort_column("drop table", &["name", "sku"], "created_at"), "created_at");
    assert_eq!(sort_dir(true), "DESC");
    assert_eq!(sort_dir(false), "ASC");
    assert_eq!(like_pattern("abc"), "%abc%");
    assert_eq!(sort_column_for(Backend::Postgres, SortTable::Organizations, "code"), "code");
    assert_eq!(sort_column_for(Backend::Surreal, SortTable::Organizations, "code"), "created_at");
    assert_eq!(sort_column_for(Backend::Surreal, SortTable::Users, "last_login_at"), "last_login_at");
    assert_eq!(sort_column_for(Backend::Postgres, SortTable::Users, "last_login_at"), "created_at");
}

#[test]
fn bom_plan_without_organization_skips() {
    assert_eq!(plan_bom_list(&filters(None, Some(PRODUCT), None, None), 1, 20), Some(BomListPlan::Skip));
    assert_eq!(plan_bom_list(&filters(Some("org:bad"), None, None, None), 1, 20), Some(BomListPlan::Skip));
}

#[test]
fn bom_plan_search_wins() {
    let plan = plan_bom_list(&filters(Some(ORG), Some(PRODUCT), Some("active"), Some("cake")), 3, 10).unwrap();
    match plan {
        BomListPlan::Run { count_sql, list_sql, filter, per_page, offset, .. } => {
            assert_eq!(count_sql, BOM_COUNT_BY_SEARCH);
            assert_eq!(list_sql, BOM_LIST_BY_SEARCH);
            assert_eq!(filter, BomFilterParam::Search("%cake%".to_string()));
            assert_eq!((per_page, offset), (10, 20));
        }
        BomListPlan::Skip => panic!("expected a query"),
    }
}

#[test]
fn bom_plan_product_and_status() {
    let plan = plan_bom_list(&filters(Some(ORG), Some(PRODUCT), None, None), 1, 10).unwrap();
    assert!(matches!(plan, BomListPlan::Run { count_sql, list_sql, filter: BomFilterParam::Product(_), offset: 0, .. }
        if count_sql == BOM_COUNT_BY_PRODUCT && list_sql == BOM_LIST_BY_PRODUCT));
    // An unparsable product ID still picks the product count statement, while
    // the listing falls through to the status filter.
    let plan = plan_bom_list(&filters(Some(ORG), Some("product:bad"), Some("draft"), None), 1, 10).unwrap();
    assert!(matches!(plan, BomListPlan::Run { count_sql, list_sql, filter: BomFilterParam::Status(ref s), .. }
        if count_sql == BOM_COUNT_BY_PRODUCT && list_sql == BOM_LIST_BY_STATUS && s == "draft"));
    let plan = plan_bom_list(&filters(Some(ORG), None, None, None), 2, 5).unwrap();
    assert!(matches!(plan, BomListPlan::Run { count_sql, list_sql, filter: BomFilterParam::Nothing, offset: 5, .. }
        if count_sql == BOM_COUNT_ALL && list_sql == BOM_LIST_ALL));
    assert_eq!(plan_bom_list(&filters(Some(ORG), None, None, None), i64::MIN, 5), None);
    assert_eq!(plan_bom_list(&filters(None, None, None, None), i64::MIN, 5), Some(BomListPlan::Skip));
}

#[test]
fn order_queries() {
    assert_eq!(order_where(false, false, false), "");
    assert_eq!(order_where(false, true, true), "WHERE status IN $status_filter AND status NOT IN $status_exclude");
    assert_eq!(
        order_list_query("total_amount", true, false, true, false),
        "SELECT * FROM order WHERE status IN $status_filter ORDER BY total_amount DESC LIMIT $limit START $start"
    );
    assert_eq!(
        order_list_query("bogus", false, false, false, false),
        "SELECT * FROM order  ORDER BY created_at ASC LIMIT $limit START $start"
    );
    assert_eq!(order_count_query(false, false, true), "SELECT count() AS count FROM order WHERE status NOT IN $status_exclude GROUP ALL");
    let q = order_count_query(true, false, false);
    assert!(q.starts_with("SELECT count() AS count FROM order WHERE (string::lowercase(order_number) CONTAINS string::lowercase($search) OR string::lowercase(customer_name ?? '')"));
}

#[test]
fn listing_queries() {
    assert_eq!(
        listing_query(ListingTable::Products, "sku", false, false),
        "SELECT * FROM product WHERE deleted_at = NONE ORDER BY sku ASC LIMIT $limit START $start"
    );
    assert!(listing_query(ListingTable::Products, "name", true, true).ends_with(" ORDER BY name DESC LIMIT $limit START $start"));
    assert_eq!(listing_count_query(ListingTable::Products, false), "SELECT count() AS count FROM product WHERE deleted_at = NONE GROUP ALL");
    assert_eq!(
        listing_query(ListingTable::Roles, "is_system_role", true, true),
        "SELECT * FROM role WHERE string::lowercase(name) CONTAINS string::lowercase($search) ORDER BY is_system_role DESC LIMIT $limit START $start"
    );
    assert_eq!(
        listing_query(ListingTable::Organizations, "code", false, false),
        "SELECT * FROM organization ORDER BY created_at ASC LIMIT $limit START $start"
    );
    assert_eq!(listing_count_query(ListingTable::Brands, true), "SELECT count() AS count FROM brand WHERE string::lowercase(name) CONTAINS string::lowercase($search) GROUP ALL");
    assert_eq!(listing_count_query(ListingTable::Inventory, true), "SELECT count() AS count FROM inventory_item GROUP ALL");
    assert!(listing_query(ListingTable::Users, "last_login_at", false, true).starts_with("SELECT * FROM user WHERE string::lowercase(email) CONTAINS"));
}

#[test]
fn zenoh_session_settings() {
    let all = zenoh_settings("tcp/10.0.0.1:7447", Some("u"), Some("p"));
    let pairs: Vec<(String, String)> = all.into_iter().map(|z| (z.key, z.value)).collect();
    assert_eq!(
        pairs,
        vec![
            ("connect/endpoints".to_string(), "[\"tcp/10.0.0.1:7447\"]".to_string()),
            ("transport/auth/usrpwd/user".to_string(), "\"u\"".to_string()),
            ("transport/auth/usrpwd/password".to_string(), "\"p\"".to_string()),
        ]
    );
    assert_eq!(zenoh_settings("", Some("u"), None).len(), 0);
    assert_eq!(zenoh_settings("x", None, Some("p")).len(), 1);
}

#[test]
fn product_update_plans() {
    let id = "550e8400-e29b-41d4-a716-446655440000";
    let cat = "6ba7b810-9dad-11d1-80b4-00c04fd430c8";
    assert!(matches!(
        plan_product_update("nope", &ProductPatch::NotObject),
        Err(PgError::Query(m)) if m.starts_with("invalid UUID 'nope': ")
    ));
    assert!(matches!(
        plan_product_update(id, &ProductPatch::NotObject),
        Err(PgError::Query(m)) if m == "expected JSON object"
    ));
    assert!(matches!(
        plan_product_update(id, &ProductPatch::Object(vec![])),
        Ok((_, ProductUpdatePlan::FetchExisting))
    ));
    let bad = ProductPatch::Object(vec![("brand_id".to_string(), PatchValue::Text("x".to_string()))]);
    assert!(matches!(plan_product_update(id, &bad), Err(PgError::Query(m)) if m.starts_with("invalid UUID 'x': ")));
    let patch = ProductPatch::Object(vec![
        ("name".to_string(), PatchValue::Text("Tea".to_string())),
        ("base_price".to_string(), PatchValue::Int(1500)),
        ("cost_price".to_string(), PatchValue::Text("cheap".to_string())),
        ("category_id".to_string(), PatchValue::Text(cat.to_string())),
        ("is_featured".to_string(), PatchValue::Bool(true)),
        ("brand_id".to_string(), PatchValue::Int(3)),
    ]);
    match plan_product_update(id, &patch) {
        Ok((uid, ProductUpdatePlan::Update(u))) => {
            assert_eq!(uid, 0x550e8400e29b41d4a716446655440000);
            assert_eq!(u.name.as_deref(), Some("Tea"));
            assert_eq!(u.base_price, Some(1500));
            assert_eq!(u.cost_price, None);
            assert_eq!(u.category_id, Some(0x6ba7b8109dad11d180b400c04fd430c8));
            assert_eq!(u.brand_id, None);
            assert_eq!(u.is_featured, Some(true));
            assert_eq!(u.track_inventory, None);
            assert_eq!(u.description, None);
        }
        _ => panic!("expected an update"),
    }
}
