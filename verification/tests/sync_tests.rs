use sakaloka::sync::{
    brand_upsert, changed_since, customer_category_from, customer_upsert, finance_expenses_type_from,
    id_mappings, inventory_transaction_type_from, parse_client_timestamp, parse_date_opt, parse_since,
    product_type_from, purchase_status_from, shift_status_from, stamp_or_now, bootstrap_since,
    transaction_status_from, upserted_ids, CustomerCategory, FinanceExpensesType,
    InventoryTransactionType, ProductType, PullGroup, PurchaseStatus, PushBrandDto, PushCustomerDto,
    PushGroup, ShiftStatus, StoredStamps, SyncTimestamp, TransactionStatus, pull_records, StoredRecord, pull_answer, PullTables,
};

fn ts(secs: i64) -> SyncTimestamp {
    SyncTimestamp { secs, nanos: 0 }
}

#[test]
fn enum_texts_map_with_defaults() {
    assert_eq!(customer_category_from(Some("WHOLESALE")), CustomerCategory::Wholesale);
    assert_eq!(customer_category_from(Some("wholesale")), CustomerCategory::Retail);
    assert_eq!(customer_category_from(None), CustomerCategory::Retail);
    assert_eq!(product_type_from(Some("MULTIUNIT")), ProductType::Multiunit);
    assert_eq!(product_type_from(None), ProductType::Default);
    assert_eq!(finance_expenses_type_from(Some("SUPPLIES")), Some(FinanceExpensesType::Supplies));
    assert_eq!(finance_expenses_type_from(Some("OTHER")), Some(FinanceExpensesType::StoreExpenses));
    assert_eq!(finance_expenses_type_from(None), None);
    assert_eq!(purchase_status_from(Some("COMPLETED")), PurchaseStatus::Completed);
    assert_eq!(purchase_status_from(Some("DRAFT")), PurchaseStatus::Draft);
    assert_eq!(inventory_transaction_type_from("RETURN_PURCHASE"), InventoryTransactionType::ReturnPurchase);
    assert_eq!(inventory_transaction_type_from("?"), InventoryTransactionType::Sale);
    assert_eq!(transaction_status_from("DRAFT"), TransactionStatus::Draft);
    assert_eq!(transaction_status_from("VOID"), TransactionStatus::Completed);
    assert_eq!(shift_status_from("CLOSED"), ShiftStatus::Closed);
}

#[test]
fn client_timestamps_accept_two_formats() {
    assert_eq!(parse_client_timestamp("2024-01-02T03:04:05.250Z"), Some(SyncTimestamp { secs: 1_704_164_645, nanos: 250_000_000 }));
    assert_eq!(parse_client_timestamp("2024-01-02T03:04:05"), Some(ts(1_704_164_645)));
    assert_eq!(parse_client_timestamp("yesterday"), None);
    assert_eq!(parse_date_opt(None), None);
    assert_eq!(stamp_or_now(Some("garbage"), ts(9)), ts(9));
    assert_eq!(bootstrap_since(), Some(ts(0)));
}

#[test]
fn since_parameter_errors() {
    assert_eq!(parse_since(None), Err("Missing 'since' parameter".to_string()));
    assert_eq!(parse_since(Some("soon")), Err("Invalid 'since' format".to_string()));
    assert_eq!(parse_since(Some("1970-01-01T00:01:00")), Ok(ts(60)));
}

#[test]
fn brand_and_customer_upserts() {
    let now = ts(1_000);
    let brand = PushBrandDto {
        id: "b1".to_string(),
        name: "Acme".to_string(),
        description: None,
        organization_id: Some("ignored".to_string()),
        created_at: Some("1970-01-01T00:00:10".to_string()),
        updated_at: None,
        deleted_at: Some("nonsense".to_string()),
    };
    let up = brand_upsert(&brand, "org-1", now);
    assert_eq!(up.organization_id, "org-1");
    assert_eq!(up.stamps.updated_at, now);
    assert_eq!(up.stamps.created_at, ts(10));
    assert_eq!(up.stamps.deleted_at, None);
    let customer = PushCustomerDto {
        id: "c1".to_string(),
        name: "Budi".to_string(),
        category: Some("WHOLESALE".to_string()),
        code: None,
        phone: Some("123".to_string()),
        address: None,
        organization_id: None,
        created_at: None,
        updated_at: None,
        deleted_at: None,
    };
    let up = customer_upsert(&customer, "org-1", now);
    assert_eq!(up.category, CustomerCategory::Wholesale);
    assert_eq!(up.organization_id.as_deref(), Some("org-1"));
    assert_eq!(up.stamps.created_at, now);
}

#[test]
fn push_answer_reports_records_with_ids() {
    let ids = upserted_ids(&vec![Some("a".to_string()), None, Some("b".to_string())]);
    assert_eq!(ids, vec!["a".to_string(), "b".to_string()]);
    let maps = id_mappings(&ids);
    assert_eq!(maps.len(), 2);
    assert_eq!((maps[1].id.as_str(), maps[1].server_id.as_str()), ("b", "b"));
    assert_eq!(PushGroup::SalesTransactions.key(), "salesTransactions");
    assert_eq!(PullGroup::Prices.key(), "prices");
}

#[test]
fn pull_filters_by_group() {
    let since = ts(100);
    let old = StoredStamps { created_at: ts(1), updated_at: ts(2), deleted_at: None };
    let updated = StoredStamps { created_at: ts(1), updated_at: ts(101), deleted_at: None };
    let deleted = StoredStamps { created_at: ts(1), updated_at: ts(2), deleted_at: Some(ts(150)) };
    let created = StoredStamps { created_at: ts(120), updated_at: ts(2), deleted_at: None };
    assert!(!changed_since(PullGroup::Products, &old, since));
    assert!(changed_since(PullGroup::Products, &updated, since));
    assert!(changed_since(PullGroup::Products, &deleted, since));
    assert!(!changed_since(PullGroup::PurchaseReturns, &deleted, since));
    assert!(changed_since(PullGroup::Transactions, &created, since));
    assert!(!changed_since(PullGroup::Transactions, &updated, since));
    let same_second = StoredStamps { created_at: ts(1), updated_at: SyncTimestamp { secs: 100, nanos: 1 }, deleted_at: None };
    assert!(changed_since(PullGroup::Brands, &same_second, since));
}

#[test]
fn pull_keeps_to_the_asking_organization() {
    let stamps = |c: i64, u: i64, d: Option<i64>| StoredStamps { created_at: ts(c), updated_at: ts(u), deleted_at: d.map(ts) };
    let rec = |org: &str, st: StoredStamps| StoredRecord { organization_id: org.to_string(), stamps: st };
    let records = vec![
        rec("org-a", stamps(1, 50, None)),
        rec("org-b", stamps(1, 50, None)),
        rec("org-a", stamps(1, 5, None)),
        rec("org-a", stamps(1, 5, Some(60))),
        rec("org-a", stamps(70, 5, None)),
    ];
    assert_eq!(pull_records(PullGroup::Brands, "org-a", ts(10), &records), vec![0, 3]);
    assert_eq!(pull_records(PullGroup::Transactions, "org-a", ts(10), &records), vec![3, 4]);
    assert_eq!(pull_records(PullGroup::PurchaseReturns, "org-a", ts(10), &records), vec![0]);
    assert_eq!(pull_records(PullGroup::Brands, "org-c", ts(0), &records), Vec::<usize>::new());
}

fn no_records() -> Vec<StoredRecord> {
    Vec::new()
}

#[test]
fn pull_answer_has_every_group_and_the_time() {
    let fresh = StoredRecord {
        organization_id: "org-a".to_string(),
        stamps: StoredStamps { created_at: ts(1), updated_at: ts(50), deleted_at: None },
    };
    let foreign = StoredRecord { organization_id: "org-b".to_string(), stamps: fresh.stamps };
    let tables = PullTables {
        categories: vec![fresh.clone(), foreign.clone()],
        brands: no_records(),
        discounts: no_records(),
        products: no_records(),
        prices: no_records(),
        customers: no_records(),
        suppliers: no_records(),
        purchases: no_records(),
        transactions: vec![fresh.clone()],
        purchase_returns: no_records(),
        stock_opnames: no_records(),
        payment_methods: no_records(),
        payables: no_records(),
        payable_realizations: no_records(),
        receivables: no_records(),
        receivable_realizations: no_records(),
        finances: vec![foreign, fresh],
    };
    let answer = pull_answer("org-a", ts(10), &tables, SyncTimestamp { secs: 86_400, nanos: 0 }).unwrap();
    assert_eq!(answer.timestamp, "1970-01-02T00:00:00+00:00");
    let keys: Vec<&str> = answer.data.iter().map(|g| g.key.as_str()).collect();
    assert_eq!(
        keys,
        vec![
            "categories", "brands", "discounts", "products", "prices", "customers", "suppliers",
            "purchases", "transactions", "purchaseReturns", "stockOpnames", "paymentMethods",
            "payables", "payableRealizations", "receivables", "receivableRealizations", "finances",
        ]
    );
    assert_eq!(answer.data[0].rows, vec![0]);
    assert_eq!(answer.data[0].group, PullGroup::Categories);
    assert!(answer.data[8].rows.is_empty());
    assert_eq!(answer.data[16].rows, vec![1]);
    assert!(pull_answer("org-a", ts(0), &tables, SyncTimestamp { secs: i64::MAX, nanos: 0 }).is_none());
}
