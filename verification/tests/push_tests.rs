use sakaloka::push::{
    category_upsert, discount_upsert, finance_upsert, payment_method_upsert, purchase_upsert,
    push_answer, sale_item_upsert, sale_upsert, shift_upsert, stock_opname_upsert, PushCategoryDto,
    PushDiscountDto, PushFinanceDto, PushPaymentMethodDto, PushPayloadDto, PushPurchaseDto,
    PushSalesTransactionDto, PushSalesTransactionItemDto, PushShiftDto, PushStockOpnameDto, PushTable, PushColumn,
};
use sakaloka::sync::{
    DiscountType, FinanceExpensesType, FinanceStatus, FinanceType, PaymentType, PurchaseStatus,
    PushBrandDto, PushGroup, ShiftStatus, StockOpnameStatus, SyncTimestamp, TransactionStatus,
};

fn ts(secs: i64) -> SyncTimestamp {
    SyncTimestamp { secs, nanos: 0 }
}

fn empty_payload() -> PushPayloadDto<f64> {
    PushPayloadDto {
        purchases: None,
        transactions: None,
        categories: None,
        brands: None,
        discounts: None,
        products: None,
        customers: None,
        suppliers: None,
        purchase_returns: None,
        payables: None,
        payable_realizations: None,
        receivables: None,
        receivable_realizations: None,
        stock_opnames: None,
        payment_methods: None,
        sales_transactions: None,
        cash_drawers: None,
        shifts: None,
        finances: None,
    }
}

fn purchase(id: Option<&str>) -> PushPurchaseDto<f64> {
    PushPurchaseDto {
        id: id.map(|s| s.to_string()),
        local_ref_id: "local-1".to_string(),
        supplier_id: "sup-1".to_string(),
        total_amount: 125.5,
        payment_type: "DEBT".to_string(),
        status: Some("COMPLETED".to_string()),
        due_date: Some("1970-01-02T00:00:00".to_string()),
        organization_id: None,
        created_at: None,
        updated_at: None,
        deleted_at: None,
    }
}

fn brand(id: &str) -> PushBrandDto {
    PushBrandDto {
        id: id.to_string(),
        name: "Brand".to_string(),
        description: None,
        organization_id: None,
        created_at: None,
        updated_at: None,
        deleted_at: None,
    }
}

#[test]
fn payment_method_keeps_amounts_and_stamps_now() {
    let item = PushPaymentMethodDto {
        id: "pm-1".to_string(),
        name: "QRIS".to_string(),
        commission: 0.7,
        minimal_amount: 10000.0,
        organization_id: Some("other".to_string()),
        created_at: Some("1970-01-01T00:00:30".to_string()),
        updated_at: None,
        deleted_at: None,
    };
    let r = payment_method_upsert(&item, "org-1", ts(500), 0.0);
    assert_eq!(r.id, "pm-1");
    assert_eq!(r.name, "QRIS");
    assert_eq!(r.commission, 0.7);
    assert_eq!(r.minimal_amount, 10000.0);
    assert_eq!(r.organization_id, "org-1");
    assert_eq!(r.stamps.updated_at, ts(500));
    assert_eq!(r.stamps.created_at, ts(30));
    assert_eq!(r.stamps.deleted_at, None);
}

#[test]
fn category_points_default_to_zero() {
    let item = PushCategoryDto {
        id: "c-1".to_string(),
        name: "Food".to_string(),
        point: Some(3.0),
        retail_point: None,
        wholesale_point: Some(2.5),
        description: Some("snacks".to_string()),
        organization_id: None,
        created_at: None,
        updated_at: None,
        deleted_at: Some("1970-01-01T00:01:00".to_string()),
    };
    let r = category_upsert(&item, "org", ts(7), 0.0);
    assert_eq!(r.retail_point, 0.0);
    assert_eq!(r.wholesale_point, 2.5);
    assert_eq!(r.description, Some("snacks".to_string()));
    assert_eq!(r.stamps.created_at, ts(7));
    assert_eq!(r.stamps.deleted_at, Some(ts(60)));
}

#[test]
fn finance_and_discount_enums() {
    let f = PushFinanceDto {
        id: "f-1".to_string(),
        local_ref_id: "lr".to_string(),
        nominal: 50.0,
        kind: "EXPENSES".to_string(),
        expenses_type: Some("EQUIPMENT".to_string()),
        transaction_date: "2024-01-01T00:00:00".to_string(),
        status: "COMPLETED".to_string(),
        note: None,
        input_to_cashdrawer: None,
        user_id: Some("u-1".to_string()),
        organization_id: None,
        created_at: None,
        updated_at: None,
        deleted_at: None,
    };
    let r = finance_upsert(&f, "org", ts(99), 0.0);
    assert_eq!(r.kind, FinanceType::Expenses);
    assert_eq!(r.expenses_type, Some(FinanceExpensesType::Equipment));
    assert_eq!(r.status, FinanceStatus::Completed);
    assert_eq!(r.transaction_date, ts(99));
    assert!(!r.input_to_cashdrawer);
    assert_eq!(r.user_id, Some("u-1".to_string()));

    let d = PushDiscountDto {
        id: "d-1".to_string(),
        name: "Promo".to_string(),
        nominal: 10.0,
        kind: "PERCENTAGE".to_string(),
        start_date: "2024-01-01T00:00:00".to_string(),
        end_date: "2024-02-01T00:00:00".to_string(),
        organization_id: None,
        created_at: None,
        updated_at: None,
        deleted_at: None,
    };
    let r = discount_upsert(&d, "org", ts(5), 0.0);
    assert_eq!(r.kind, DiscountType::Percentage);
    assert_eq!(r.start_date, ts(5));
    assert_eq!(r.end_date, ts(5));
}

#[test]
fn purchase_without_id_is_skipped() {
    assert!(purchase_upsert(&purchase(None), "org", ts(1), 0.0).is_none());
    let r = purchase_upsert(&purchase(Some("p-1")), "org", ts(1), 0.0).unwrap();
    assert_eq!(r.id, "p-1");
    assert_eq!(r.local_ref_id, Some("local-1".to_string()));
    assert_eq!(r.payment_type, PaymentType::Debt);
    assert_eq!(r.status, PurchaseStatus::Completed);
    assert_eq!(r.due_date, Some(ts(86_400)));
    assert_eq!(r.total_amount, 125.5);
}

#[test]
fn sale_and_its_lines() {
    let line = PushSalesTransactionItemDto {
        id: Some("line-1".to_string()),
        transaction_id: "client-side".to_string(),
        product_id: "prod".to_string(),
        quantity: 2.0,
        sell_price: 3.5,
        note: None,
        organization_id: None,
        created_at: None,
        updated_at: None,
        deleted_at: None,
    };
    let sale = PushSalesTransactionDto {
        id: Some("s-1".to_string()),
        local_ref_id: "lr".to_string(),
        customer_id: None,
        total_amount: 7.0,
        total_paid: 10.0,
        payment_type_id: "pm-1".to_string(),
        transaction_date: "1970-01-01T00:00:10.500Z".to_string(),
        status: "DRAFT".to_string(),
        note: None,
        items: None,
        organization_id: None,
        created_at: None,
        updated_at: None,
        deleted_at: None,
    };
    let r = sale_upsert(&sale, "org", ts(3), 0.0).unwrap();
    assert_eq!(r.transaction_date, SyncTimestamp { secs: 10, nanos: 500_000_000 });
    assert_eq!(r.status, TransactionStatus::Draft);
    let l = sale_item_upsert(&line, "org", ts(3), 0.0, "s-1").unwrap();
    assert_eq!(l.transaction_id, "s-1");
    assert_eq!(l.quantity, 2.0);
    assert_eq!(l.sell_price, 3.5);
}

#[test]
fn unreadable_dates_fall_back_to_now() {
    let sale = PushSalesTransactionDto {
        id: Some("s-2".to_string()),
        local_ref_id: "lr".to_string(),
        customer_id: None,
        total_amount: 1.0,
        total_paid: 1.0,
        payment_type_id: "pm".to_string(),
        transaction_date: "1970-01-01T00:00:10".to_string(),
        status: "COMPLETED".to_string(),
        note: None,
        items: None,
        organization_id: None,
        created_at: None,
        updated_at: None,
        deleted_at: None,
    };
    let r = sale_upsert(&sale, "org", ts(42), 0.0).unwrap();
    assert_eq!(r.transaction_date, ts(42));

    let shift = PushShiftDto {
        id: Some("sh-1".to_string()),
        local_ref_id: "lr".to_string(),
        cash_drawer_id: "cd".to_string(),
        user_id: "u".to_string(),
        start_time: "not a date".to_string(),
        end_time: Some("1970-01-01T00:00:20".to_string()),
        initial_balance: 100.0,
        final_balance: None,
        expected_balance: Some(120.0),
        difference: None,
        status: "CLOSED".to_string(),
        note: None,
        organization_id: None,
        created_at: None,
        updated_at: None,
        deleted_at: None,
    };
    let r = shift_upsert(&shift, "org", ts(42), 0.0).unwrap();
    assert_eq!(r.start_time, ts(42));
    assert_eq!(r.end_time, Some(ts(20)));
    assert_eq!(r.status, ShiftStatus::Closed);
    assert_eq!(r.expected_balance, Some(120.0));

    let count = PushStockOpnameDto {
        id: Some("so-1".to_string()),
        local_ref_id: "lr".to_string(),
        date: "garbage".to_string(),
        note: None,
        status: "DIFFERENCE".to_string(),
        total_gain: None,
        total_loss: Some(4.0),
        created_by: "u".to_string(),
        items: None,
        organization_id: None,
        created_at: None,
        updated_at: None,
        deleted_at: None,
    };
    let r = stock_opname_upsert(&count, "org", ts(42), 0.0).unwrap();
    assert_eq!(r.date, ts(42));
    assert_eq!(r.status, StockOpnameStatus::Difference);
    assert_eq!(r.total_gain, 0.0);
    assert_eq!(r.total_loss, 4.0);
    assert_eq!(r.created_by, Some("u".to_string()));
}

#[test]
fn push_answer_lists_carried_groups_in_order() {
    let mut payload = empty_payload();
    payload.purchases = Some(vec![purchase(Some("p-1")), purchase(None), purchase(Some("p-2"))]);
    payload.brands = Some(vec![brand("b-1"), brand("b-2")]);
    payload.shifts = Some(vec![]);
    let answer = push_answer(&payload);
    assert_eq!(answer.len(), 3);
    assert_eq!(answer[0].group, PushGroup::Brands);
    assert_eq!(answer[0].group.key(), "brands");
    let ids: Vec<&str> = answer[0].ids.iter().map(|m| m.id.as_str()).collect();
    assert_eq!(ids, vec!["b-1", "b-2"]);
    assert_eq!(answer[1].group, PushGroup::Purchases);
    let ids: Vec<&str> = answer[1].ids.iter().map(|m| m.id.as_str()).collect();
    assert_eq!(ids, vec!["p-1", "p-2"]);
    assert!(answer[1].ids.iter().all(|m| m.server_id == m.id));
    assert_eq!(answer[2].group, PushGroup::Shifts);
    assert!(answer[2].ids.is_empty());
}

#[test]
fn empty_push_has_empty_answer() {
    assert!(push_answer(&empty_payload()).is_empty());
}

#[test]
fn conflicts_overwrite_only_listed_columns() {
    let cols: Vec<&str> = PushTable::Purchases.conflict_columns().iter().map(|c| c.name()).collect();
    assert_eq!(
        cols,
        vec!["local_ref_id", "supplier_id", "total_amount", "payment_type", "status", "due_date", "updated_at", "deleted_at"]
    );
    assert_eq!(PushTable::TransactionItems.name(), "transaction_items");
    assert_eq!(PushTable::InventoryTransactions.conflict_columns(), vec![PushColumn::Quantity, PushColumn::Status, PushColumn::DeletedAt]);
    for t in [PushTable::PaymentMethods, PushTable::ProductPrices, PushTable::Shifts, PushTable::StockOpnameItems] {
        let cols = t.conflict_columns();
        assert!(!cols.contains(&PushColumn::OrganizationId));
        assert!(!cols.contains(&PushColumn::Id));
    }
}
