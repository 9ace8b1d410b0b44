//! Pushed records of every kind: what the server stores for each, with the
//! client's numeric amounts carried through unchanged as the type `N`.
use vstd::prelude::*;
use vstd::string::*;
use crate::sync::{
    as_opt_str, copy_opt, created_stamp, naive_datetime_parse, opt_text, optional_stamp,
    parse_date_opt, record_stamps, stamp_or_now, stamp_pair, stamp_value, stamps_match,
    strict_stamp_or_now, discount_type_from, discount_type_of, finance_expenses_type_from,
    finance_expenses_type_of, finance_status_from, finance_status_of, finance_type_from,
    finance_type_of, inventory_transaction_type_from, inventory_transaction_type_of,
    payment_type_from, payment_type_of, product_type_from, product_type_of, purchase_return_type_from,
    purchase_return_type_of, purchase_status_from, purchase_status_of, shift_status_from,
    shift_status_of, stock_opname_status_from, stock_opname_status_of, transaction_status_from,
    transaction_status_of, DiscountType, FinanceExpensesType, FinanceStatus, FinanceType,
    InventoryTransactionType, PaymentType, ProductType, PurchaseReturnType, PurchaseStatus,
    PushProductVariantDto, RecordStamps, ShiftStatus, StockOpnameStatus, SyncTimestamp,
    TransactionStatus, ISO_WITH_FRACTION, id_mappings, opt_texts, present_ids, upserted_ids,
    IdMapping, PushBrandDto, PushCashDrawerDto, PushCustomerDto, PushGroup, PushSupplierDto,
};
use crate::jwt::texts;

verus! {

/// A pushed purchase.
pub struct PushPurchaseDto<N> {
    pub id: Option<String>,
    pub local_ref_id: String,
    pub supplier_id: String,
    pub total_amount: N,
    pub payment_type: String,
    pub status: Option<String>,
    pub due_date: Option<String>,
    pub organization_id: Option<String>,
    pub created_at: Option<String>,
    pub updated_at: Option<String>,
    pub deleted_at: Option<String>,
}

/// A pushed inventory transaction.
pub struct PushTransactionDto<N> {
    pub id: Option<String>,
    pub local_ref_id: String,
    pub product_id: String,
    pub kind: String,
    pub quantity: N,
    pub status: Option<String>,
    pub inventory_batch_id: Option<String>,
    pub organization_id: Option<String>,
    pub created_at: Option<String>,
    pub updated_at: Option<String>,
    pub deleted_at: Option<String>,
}

/// A pushed line of a purchase return.
pub struct PushReturnItemDto<N> {
    pub id: Option<String>,
    pub product_id: String,
    pub quantity: N,
    pub purchase_price: N,
    pub purchase_return_id: Option<String>,
    pub organization_id: Option<String>,
    pub created_at: Option<String>,
    pub updated_at: Option<String>,
    pub deleted_at: Option<String>,
}

/// A pushed purchase return.
pub struct PushReturnDto<N> {
    pub id: Option<String>,
    pub local_ref_id: String,
    pub supplier_id: String,
    pub total_amount: N,
    pub return_type: String,
    pub items: Option<Vec<PushReturnItemDto<N>>>,
    pub organization_id: Option<String>,
    pub created_at: Option<String>,
    pub updated_at: Option<String>,
    pub deleted_at: Option<String>,
}

/// A pushed line of a stock count.
pub struct PushStockOpnameItemDto<N> {
    pub id: Option<String>,
    pub product_id: String,
    pub quantity_system: N,
    pub quantity_physical: N,
    pub difference: N,
    pub purchase_price: N,
    pub financial_impact: N,
    pub stock_opname_id: Option<String>,
    pub organization_id: Option<String>,
    pub created_at: Option<String>,
    pub updated_at: Option<String>,
    pub deleted_at: Option<String>,
}

/// A pushed stock count.
pub struct PushStockOpnameDto<N> {
    pub id: Option<String>,
    pub local_ref_id: String,
    pub date: String,
    pub note: Option<String>,
    pub status: String,
    pub total_gain: Option<N>,
    pub total_loss: Option<N>,
    pub created_by: String,
    pub items: Option<Vec<PushStockOpnameItemDto<N>>>,
    pub organization_id: Option<String>,
    pub created_at: Option<String>,
    pub updated_at: Option<String>,
    pub deleted_at: Option<String>,
}

/// A pushed category.
pub struct PushCategoryDto<N> {
    pub id: String,
    pub name: String,
    pub point: Option<N>,
    pub retail_point: Option<N>,
    pub wholesale_point: Option<N>,
    pub description: Option<String>,
    pub organization_id: Option<String>,
    pub created_at: Option<String>,
    pub updated_at: Option<String>,
    pub deleted_at: Option<String>,
}

/// A pushed discount.
pub struct PushDiscountDto<N> {
    pub id: String,
    pub name: String,
    pub nominal: N,
    pub kind: String,
    pub start_date: String,
    pub end_date: String,
    pub organization_id: Option<String>,
    pub created_at: Option<String>,
    pub updated_at: Option<String>,
    pub deleted_at: Option<String>,
}

/// A pushed price of a product.
pub struct PushProductPriceDto<N> {
    pub id: String,
    pub label: String,
    pub price: N,
    pub minimum_purchase: N,
    pub kind: String,
    pub product_id: Option<String>,
    pub organization_id: Option<String>,
    pub created_at: Option<String>,
    pub updated_at: Option<String>,
    pub deleted_at: Option<String>,
}

/// A pushed product.
pub struct PushProductDto<N> {
    pub id: String,
    pub name: String,
    pub barcode: Option<String>,
    pub purchase_price: Option<N>,
    pub description: Option<String>,
    pub is_favorite: Option<bool>,
    pub is_active: Option<bool>,
    pub kind: Option<String>,
    pub unit: Option<String>,
    pub minimum_stock: Option<N>,
    pub category_id: String,
    pub brand_id: Option<String>,
    pub discount_id: Option<String>,
    pub supplier_id: Option<String>,
    pub prices: Option<Vec<PushProductPriceDto<N>>>,
    pub variants: Option<Vec<PushProductVariantDto>>,
    pub organization_id: Option<String>,
    pub created_at: Option<String>,
    pub updated_at: Option<String>,
    pub deleted_at: Option<String>,
}

/// A pushed payment method.
pub struct PushPaymentMethodDto<N> {
    pub id: String,
    pub name: String,
    pub commission: N,
    pub minimal_amount: N,
    pub organization_id: Option<String>,
    pub created_at: Option<String>,
    pub updated_at: Option<String>,
    pub deleted_at: Option<String>,
}

/// A pushed payable.
pub struct PushPayableDto<N> {
    pub id: Option<String>,
    pub local_ref_id: Option<String>,
    pub nominal: N,
    pub due_date: Option<String>,
    pub note: Option<String>,
    pub supplier_id: String,
    pub organization_id: Option<String>,
    pub created_at: Option<String>,
    pub updated_at: Option<String>,
    pub deleted_at: Option<String>,
}

/// A pushed payment of a payable.
pub struct PushPayableRealizationDto<N> {
    pub id: Option<String>,
    pub local_ref_id: Option<String>,
    pub payable_id: String,
    pub nominal: N,
    pub realization_date: Option<String>,
    pub payment_method_id: String,
    pub note: Option<String>,
    pub organization_id: Option<String>,
    pub created_at: Option<String>,
    pub updated_at: Option<String>,
    pub deleted_at: Option<String>,
}

/// A pushed receivable.
pub struct PushReceivableDto<N> {
    pub id: Option<String>,
    pub local_ref_id: Option<String>,
    pub nominal: N,
    pub due_date: Option<String>,
    pub note: Option<String>,
    pub customer_id: String,
    pub organization_id: Option<String>,
    pub created_at: Option<String>,
    pub updated_at: Option<String>,
    pub deleted_at: Option<String>,
}

/// A pushed payment of a receivable.
pub struct PushReceivableRealizationDto<N> {
    pub id: Option<String>,
    pub local_ref_id: Option<String>,
    pub receivable_id: String,
    pub nominal: N,
    pub realization_date: Option<String>,
    pub payment_method_id: String,
    pub note: Option<String>,
    pub organization_id: Option<String>,
    pub created_at: Option<String>,
    pub updated_at: Option<String>,
    pub deleted_at: Option<String>,
}

/// A pushed line of a sale.
pub struct PushSalesTransactionItemDto<N> {
    pub id: Option<String>,
    pub transaction_id: String,
    pub product_id: String,
    pub quantity: N,
    pub sell_price: N,
    pub note: Option<String>,
    pub organization_id: Option<String>,
    pub created_at: Option<String>,
    pub updated_at: Option<String>,
    pub deleted_at: Option<String>,
}

/// A pushed sale.
pub struct PushSalesTransactionDto<N> {
    pub id: Option<String>,
    pub local_ref_id: String,
    pub customer_id: Option<String>,
    pub total_amount: N,
    pub total_paid: N,
    pub payment_type_id: String,
    pub transaction_date: String,
    pub status: String,
    pub note: Option<String>,
    pub items: Option<Vec<PushSalesTransactionItemDto<N>>>,
    pub organization_id: Option<String>,
    pub created_at: Option<String>,
    pub updated_at: Option<String>,
    pub deleted_at: Option<String>,
}

/// A pushed cashier shift.
pub struct PushShiftDto<N> {
    pub id: Option<String>,
    pub local_ref_id: String,
    pub cash_drawer_id: String,
    pub user_id: String,
    pub start_time: String,
    pub end_time: Option<String>,
    pub initial_balance: N,
    pub final_balance: Option<N>,
    pub expected_balance: Option<N>,
    pub difference: Option<N>,
    pub status: String,
    pub note: Option<String>,
    pub organization_id: Option<String>,
    pub created_at: Option<String>,
    pub updated_at: Option<String>,
    pub deleted_at: Option<String>,
}

/// A pushed finance entry.
pub struct PushFinanceDto<N> {
    pub id: String,
    pub local_ref_id: String,
    pub nominal: N,
    pub kind: String,
    pub expenses_type: Option<String>,
    pub transaction_date: String,
    pub status: String,
    pub note: Option<String>,
    pub input_to_cashdrawer: Option<bool>,
    pub user_id: Option<String>,
    pub organization_id: Option<String>,
    pub created_at: Option<String>,
    pub updated_at: Option<String>,
    pub deleted_at: Option<String>,
}

/// The stored form of a pushed payment method.
pub struct PaymentMethodUpsert<N> {
    pub id: String,
    pub name: String,
    pub commission: N,
    pub minimal_amount: N,
    pub organization_id: String,
    pub stamps: RecordStamps,
}

/// Whether a record is the stored form of a pushed item.
pub open spec fn payment_method_upsert_of<N>(r: PaymentMethodUpsert<N>, item: PushPaymentMethodDto<N>, org_id: Seq<char>, now: SyncTimestamp, zero: N) -> bool {
    &&& r.id@ == item.id@
    &&& r.name@ == item.name@
    &&& r.commission == item.commission
    &&& r.minimal_amount == item.minimal_amount
    &&& r.organization_id@ == org_id
    &&& stamps_match(r.stamps, opt_text(item.created_at), opt_text(item.deleted_at), now)
}

/// The stored form of a pushed item.
pub fn payment_method_upsert<N: Copy>(item: &PushPaymentMethodDto<N>, org_id: &str, now: SyncTimestamp, zero: N) -> (r: PaymentMethodUpsert<N>)
    ensures
        payment_method_upsert_of(r, *item, org_id@, now, zero),
{
    PaymentMethodUpsert {
        id: String::from_str(item.id.as_str()),
        name: String::from_str(item.name.as_str()),
        commission: item.commission,
        minimal_amount: item.minimal_amount,
        organization_id: String::from_str(org_id),
        stamps: record_stamps(&item.created_at, &item.deleted_at, now),
    }
}

/// The stored form of a pushed category.
pub struct CategoryUpsert<N> {
    pub id: String,
    pub name: String,
    pub retail_point: N,
    pub wholesale_point: N,
    pub description: Option<String>,
    pub organization_id: String,
    pub stamps: RecordStamps,
}

/// Whether a record is the stored form of a pushed item.
pub open spec fn category_upsert_of<N>(r: CategoryUpsert<N>, item: PushCategoryDto<N>, org_id: Seq<char>, now: SyncTimestamp, zero: N) -> bool {
    &&& r.id@ == item.id@
    &&& r.name@ == item.name@
    &&& r.retail_point == match item.retail_point { Some(v) => v, None => zero }
    &&& r.wholesale_point == match item.wholesale_point { Some(v) => v, None => zero }
    &&& opt_text(r.description) == opt_text(item.description)
    &&& r.organization_id@ == org_id
    &&& stamps_match(r.stamps, opt_text(item.created_at), opt_text(item.deleted_at), now)
}

/// The stored form of a pushed item.
pub fn category_upsert<N: Copy>(item: &PushCategoryDto<N>, org_id: &str, now: SyncTimestamp, zero: N) -> (r: CategoryUpsert<N>)
    ensures
        category_upsert_of(r, *item, org_id@, now, zero),
{
    CategoryUpsert {
        id: String::from_str(item.id.as_str()),
        name: String::from_str(item.name.as_str()),
        retail_point: match item.retail_point {
            Some(v) => v,
            None => zero,
        },
        wholesale_point: match item.wholesale_point {
            Some(v) => v,
            None => zero,
        },
        description: copy_opt(&item.description),
        organization_id: String::from_str(org_id),
        stamps: record_stamps(&item.created_at, &item.deleted_at, now),
    }
}

/// The stored form of a pushed product.
pub struct ProductUpsert<N> {
    pub id: String,
    pub name: String,
    pub description: Option<String>,
    pub barcode: Option<String>,
    pub purchase_price: N,
    pub is_favorite: bool,
    pub is_active: bool,
    pub kind: ProductType,
    pub unit: Option<String>,
    pub minimum_stock: N,
    pub category_id: String,
    pub brand_id: Option<String>,
    pub discount_id: Option<String>,
    pub supplier_id: Option<String>,
    pub organization_id: String,
    pub stamps: RecordStamps,
}

/// Whether a record is the stored form of a pushed item.
pub open spec fn product_upsert_of<N>(r: ProductUpsert<N>, item: PushProductDto<N>, org_id: Seq<char>, now: SyncTimestamp, zero: N) -> bool {
    &&& r.id@ == item.id@
    &&& r.name@ == item.name@
    &&& opt_text(r.description) == opt_text(item.description)
    &&& opt_text(r.barcode) == opt_text(item.barcode)
    &&& r.purchase_price == match item.purchase_price { Some(v) => v, None => zero }
    &&& r.is_favorite == match item.is_favorite { Some(b) => b, None => false }
    &&& r.is_active == match item.is_active { Some(b) => b, None => true }
    &&& r.kind == product_type_of(opt_text(item.kind))
    &&& opt_text(r.unit) == opt_text(item.unit)
    &&& r.minimum_stock == match item.minimum_stock { Some(v) => v, None => zero }
    &&& r.category_id@ == item.category_id@
    &&& opt_text(r.brand_id) == opt_text(item.brand_id)
    &&& opt_text(r.discount_id) == opt_text(item.discount_id)
    &&& opt_text(r.supplier_id) == opt_text(item.supplier_id)
    &&& r.organization_id@ == org_id
    &&& stamps_match(r.stamps, opt_text(item.created_at), opt_text(item.deleted_at), now)
}

/// The stored form of a pushed item.
pub fn product_upsert<N: Copy>(item: &PushProductDto<N>, org_id: &str, now: SyncTimestamp, zero: N) -> (r: ProductUpsert<N>)
    ensures
        product_upsert_of(r, *item, org_id@, now, zero),
{
    ProductUpsert {
        id: String::from_str(item.id.as_str()),
        name: String::from_str(item.name.as_str()),
        description: copy_opt(&item.description),
        barcode: copy_opt(&item.barcode),
        purchase_price: match item.purchase_price {
            Some(v) => v,
            None => zero,
        },
        is_favorite: match item.is_favorite {
            Some(b) => b,
            None => false,
        },
        is_active: match item.is_active {
            Some(b) => b,
            None => true,
        },
        kind: product_type_from(as_opt_str(&item.kind)),
        unit: copy_opt(&item.unit),
        minimum_stock: match item.minimum_stock {
            Some(v) => v,
            None => zero,
        },
        category_id: String::from_str(item.category_id.as_str()),
        brand_id: copy_opt(&item.brand_id),
        discount_id: copy_opt(&item.discount_id),
        supplier_id: copy_opt(&item.supplier_id),
        organization_id: String::from_str(org_id),
        stamps: record_stamps(&item.created_at, &item.deleted_at, now),
    }
}

/// The stored form of a pushed product price.
pub struct PriceUpsert<N> {
    pub id: String,
    pub label: String,
    pub price: N,
    pub minimum_purchase: N,
    pub product_id: String,
    pub organization_id: String,
    pub updated_at: SyncTimestamp,
    pub created_at: SyncTimestamp,
}

/// Whether a record is the stored form of a pushed item.
pub open spec fn price_upsert_of<N>(r: PriceUpsert<N>, item: PushProductPriceDto<N>, org_id: Seq<char>, now: SyncTimestamp, zero: N, parent: Seq<char>) -> bool {
    &&& r.id@ == item.id@
    &&& r.label@ == item.label@
    &&& r.price == item.price
    &&& r.minimum_purchase == item.minimum_purchase
    &&& r.product_id@ == parent
    &&& r.organization_id@ == org_id
    &&& r.updated_at == now
    &&& r.created_at == now
}

/// The stored form of a pushed item.
pub fn price_upsert<N: Copy>(item: &PushProductPriceDto<N>, org_id: &str, now: SyncTimestamp, zero: N, parent: &str) -> (r: PriceUpsert<N>)
    ensures
        price_upsert_of(r, *item, org_id@, now, zero, parent@),
{
    PriceUpsert {
        id: String::from_str(item.id.as_str()),
        label: String::from_str(item.label.as_str()),
        price: item.price,
        minimum_purchase: item.minimum_purchase,
        product_id: String::from_str(parent),
        organization_id: String::from_str(org_id),
        updated_at: now,
        created_at: now,
    }
}

/// The stored form of a pushed finance entry.
pub struct FinanceUpsert<N> {
    pub id: String,
    pub local_ref_id: String,
    pub nominal: N,
    pub kind: FinanceType,
    pub expenses_type: Option<FinanceExpensesType>,
    pub transaction_date: SyncTimestamp,
    pub status: FinanceStatus,
    pub note: Option<String>,
    pub input_to_cashdrawer: bool,
    pub organization_id: String,
    pub user_id: Option<String>,
    pub stamps: RecordStamps,
}

/// Whether a record is the stored form of a pushed item.
pub open spec fn finance_upsert_of<N>(r: FinanceUpsert<N>, item: PushFinanceDto<N>, org_id: Seq<char>, now: SyncTimestamp, zero: N) -> bool {
    &&& r.id@ == item.id@
    &&& r.local_ref_id@ == item.local_ref_id@
    &&& r.nominal == item.nominal
    &&& r.kind == finance_type_of(item.kind@)
    &&& r.expenses_type == match opt_text(item.expenses_type) { Some(t) => Some(finance_expenses_type_of(t)), None => None }
    &&& r.transaction_date == now
    &&& r.status == finance_status_of(item.status@)
    &&& opt_text(r.note) == opt_text(item.note)
    &&& r.input_to_cashdrawer == match item.input_to_cashdrawer { Some(b) => b, None => false }
    &&& r.organization_id@ == org_id
    &&& opt_text(r.user_id) == opt_text(item.user_id)
    &&& stamps_match(r.stamps, opt_text(item.created_at), opt_text(item.deleted_at), now)
}

/// The stored form of a pushed item.
pub fn finance_upsert<N: Copy>(item: &PushFinanceDto<N>, org_id: &str, now: SyncTimestamp, zero: N) -> (r: FinanceUpsert<N>)
    ensures
        finance_upsert_of(r, *item, org_id@, now, zero),
{
    FinanceUpsert {
        id: String::from_str(item.id.as_str()),
        local_ref_id: String::from_str(item.local_ref_id.as_str()),
        nominal: item.nominal,
        kind: finance_type_from(item.kind.as_str()),
        expenses_type: finance_expenses_type_from(as_opt_str(&item.expenses_type)),
        transaction_date: now,
        status: finance_status_from(item.status.as_str()),
        note: copy_opt(&item.note),
        input_to_cashdrawer: match item.input_to_cashdrawer {
            Some(b) => b,
            None => false,
        },
        organization_id: String::from_str(org_id),
        user_id: copy_opt(&item.user_id),
        stamps: record_stamps(&item.created_at, &item.deleted_at, now),
    }
}

/// The stored form of a pushed discount.
pub struct DiscountUpsert<N> {
    pub id: String,
    pub name: String,
    pub nominal: N,
    pub kind: DiscountType,
    pub start_date: SyncTimestamp,
    pub end_date: SyncTimestamp,
    pub organization_id: String,
    pub stamps: RecordStamps,
}

/// Whether a record is the stored form of a pushed item.
pub open spec fn discount_upsert_of<N>(r: DiscountUpsert<N>, item: PushDiscountDto<N>, org_id: Seq<char>, now: SyncTimestamp, zero: N) -> bool {
    &&& r.id@ == item.id@
    &&& r.name@ == item.name@
    &&& r.nominal == item.nominal
    &&& r.kind == discount_type_of(item.kind@)
    &&& r.start_date == now
    &&& r.end_date == now
    &&& r.organization_id@ == org_id
    &&& stamps_match(r.stamps, opt_text(item.created_at), opt_text(item.deleted_at), now)
}

/// The stored form of a pushed item.
pub fn discount_upsert<N: Copy>(item: &PushDiscountDto<N>, org_id: &str, now: SyncTimestamp, zero: N) -> (r: DiscountUpsert<N>)
    ensures
        discount_upsert_of(r, *item, org_id@, now, zero),
{
    DiscountUpsert {
        id: String::from_str(item.id.as_str()),
        name: String::from_str(item.name.as_str()),
        nominal: item.nominal,
        kind: discount_type_from(item.kind.as_str()),
        start_date: now,
        end_date: now,
        organization_id: String::from_str(org_id),
        stamps: record_stamps(&item.created_at, &item.deleted_at, now),
    }
}

/// The stored form of a pushed purchase.
pub struct PurchaseUpsert<N> {
    pub id: String,
    pub local_ref_id: Option<String>,
    pub supplier_id: String,
    pub total_amount: N,
    pub payment_type: PaymentType,
    pub status: PurchaseStatus,
    pub due_date: Option<SyncTimestamp>,
    pub organization_id: String,
    pub stamps: RecordStamps,
}

/// Whether a record is the stored form of a pushed item.
pub open spec fn purchase_upsert_of<N>(r: PurchaseUpsert<N>, id: Seq<char>, item: PushPurchaseDto<N>, org_id: Seq<char>, now: SyncTimestamp, zero: N) -> bool {
    &&& r.id@ == id
    &&& opt_text(r.local_ref_id) == Some(item.local_ref_id@)
    &&& r.supplier_id@ == item.supplier_id@
    &&& r.total_amount == item.total_amount
    &&& r.payment_type == payment_type_of(item.payment_type@)
    &&& r.status == purchase_status_of(opt_text(item.status))
    &&& stamp_value(r.due_date) == optional_stamp(opt_text(item.due_date))
    &&& r.organization_id@ == org_id
    &&& stamps_match(r.stamps, opt_text(item.created_at), opt_text(item.deleted_at), now)
}

/// The stored form of a pushed item; items without an ID are skipped.
pub fn purchase_upsert<N: Copy>(item: &PushPurchaseDto<N>, org_id: &str, now: SyncTimestamp, zero: N) -> (r: Option<PurchaseUpsert<N>>)
    ensures
        item.id is None ==> r is None,
        item.id matches Some(i) ==> (r matches Some(rec) && purchase_upsert_of(rec, i@, *item, org_id@, now, zero)),
{
    let id = match &item.id {
        Some(i) => String::from_str(i.as_str()),
        None => {
            return None;
        },
    };
    Some(PurchaseUpsert {
        id: id,
        local_ref_id: Some(String::from_str(item.local_ref_id.as_str())),
        supplier_id: String::from_str(item.supplier_id.as_str()),
        total_amount: item.total_amount,
        payment_type: payment_type_from(item.payment_type.as_str()),
        status: purchase_status_from(as_opt_str(&item.status)),
        due_date: parse_date_opt(as_opt_str(&item.due_date)),
        organization_id: String::from_str(org_id),
        stamps: record_stamps(&item.created_at, &item.deleted_at, now),
    })
}

/// The stored form of a pushed inventory transaction (it has no update time).
pub struct InventoryTransactionUpsert<N> {
    pub id: String,
    pub local_ref_id: Option<String>,
    pub product_id: String,
    pub kind: InventoryTransactionType,
    pub quantity: N,
    pub status: PurchaseStatus,
    pub inventory_batch_id: Option<String>,
    pub organization_id: String,
    pub created_at: SyncTimestamp,
    pub deleted_at: Option<SyncTimestamp>,
}

/// Whether a record is the stored form of a pushed item.
pub open spec fn inventory_transaction_upsert_of<N>(r: InventoryTransactionUpsert<N>, id: Seq<char>, item: PushTransactionDto<N>, org_id: Seq<char>, now: SyncTimestamp, zero: N) -> bool {
    &&& r.id@ == id
    &&& opt_text(r.local_ref_id) == Some(item.local_ref_id@)
    &&& r.product_id@ == item.product_id@
    &&& r.kind == inventory_transaction_type_of(item.kind@)
    &&& r.quantity == item.quantity
    &&& r.status == purchase_status_of(opt_text(item.status))
    &&& opt_text(r.inventory_batch_id) == opt_text(item.inventory_batch_id)
    &&& r.organization_id@ == org_id
    &&& stamp_pair(r.created_at) == created_stamp(opt_text(item.created_at), now)
    &&& stamp_value(r.deleted_at) == optional_stamp(opt_text(item.deleted_at))
}

/// The stored form of a pushed item; items without an ID are skipped.
pub fn inventory_transaction_upsert<N: Copy>(item: &PushTransactionDto<N>, org_id: &str, now: SyncTimestamp, zero: N) -> (r: Option<InventoryTransactionUpsert<N>>)
    ensures
        item.id is None ==> r is None,
        item.id matches Some(i) ==> (r matches Some(rec) && inventory_transaction_upsert_of(rec, i@, *item, org_id@, now, zero)),
{
    let id = match &item.id {
        Some(i) => String::from_str(i.as_str()),
        None => {
            return None;
        },
    };
    Some(InventoryTransactionUpsert {
        id: id,
        local_ref_id: Some(String::from_str(item.local_ref_id.as_str())),
        product_id: String::from_str(item.product_id.as_str()),
        kind: inventory_transaction_type_from(item.kind.as_str()),
        quantity: item.quantity,
        status: purchase_status_from(as_opt_str(&item.status)),
        inventory_batch_id: copy_opt(&item.inventory_batch_id),
        organization_id: String::from_str(org_id),
        created_at: stamp_or_now(as_opt_str(&item.created_at), now),
        deleted_at: parse_date_opt(as_opt_str(&item.deleted_at)),
    })
}

/// The stored form of a pushed purchase return (it has no deletion time).
pub struct PurchaseReturnUpsert<N> {
    pub id: String,
    pub local_ref_id: Option<String>,
    pub supplier_id: String,
    pub total_amount: N,
    pub return_type: PurchaseReturnType,
    pub organization_id: String,
    pub updated_at: SyncTimestamp,
    pub created_at: SyncTimestamp,
}

/// Whether a record is the stored form of a pushed item.
pub open spec fn purchase_return_upsert_of<N>(r: PurchaseReturnUpsert<N>, id: Seq<char>, item: PushReturnDto<N>, org_id: Seq<char>, now: SyncTimestamp, zero: N) -> bool {
    &&& r.id@ == id
    &&& opt_text(r.local_ref_id) == Some(item.local_ref_id@)
    &&& r.supplier_id@ == item.supplier_id@
    &&& r.total_amount == item.total_amount
    &&& r.return_type == purchase_return_type_of(item.return_type@)
    &&& r.organization_id@ == org_id
    &&& r.updated_at == now
    &&& stamp_pair(r.created_at) == created_stamp(opt_text(item.created_at), now)
}

/// The stored form of a pushed item; items without an ID are skipped.
pub fn purchase_return_upsert<N: Copy>(item: &PushReturnDto<N>, org_id: &str, now: SyncTimestamp, zero: N) -> (r: Option<PurchaseReturnUpsert<N>>)
    ensures
        item.id is None ==> r is None,
        item.id matches Some(i) ==> (r matches Some(rec) && purchase_return_upsert_of(rec, i@, *item, org_id@, now, zero)),
{
    let id = match &item.id {
        Some(i) => String::from_str(i.as_str()),
        None => {
            return None;
        },
    };
    Some(PurchaseReturnUpsert {
        id: id,
        local_ref_id: Some(String::from_str(item.local_ref_id.as_str())),
        supplier_id: String::from_str(item.supplier_id.as_str()),
        total_amount: item.total_amount,
        return_type: purchase_return_type_from(item.return_type.as_str()),
        organization_id: String::from_str(org_id),
        updated_at: now,
        created_at: stamp_or_now(as_opt_str(&item.created_at), now),
    })
}

/// The stored form of a pushed purchase return line.
pub struct ReturnItemUpsert<N> {
    pub id: String,
    pub product_id: String,
    pub quantity: N,
    pub purchase_price: N,
    pub purchase_return_id: String,
    pub organization_id: String,
}

/// Whether a record is the stored form of a pushed item.
pub open spec fn return_item_upsert_of<N>(r: ReturnItemUpsert<N>, id: Seq<char>, item: PushReturnItemDto<N>, org_id: Seq<char>, now: SyncTimestamp, zero: N, parent: Seq<char>) -> bool {
    &&& r.id@ == id
    &&& r.product_id@ == item.product_id@
    &&& r.quantity == item.quantity
    &&& r.purchase_price == item.purchase_price
    &&& r.purchase_return_id@ == parent
    &&& r.organization_id@ == org_id
}

/// The stored form of a pushed item; items without an ID are skipped.
pub fn return_item_upsert<N: Copy>(item: &PushReturnItemDto<N>, org_id: &str, now: SyncTimestamp, zero: N, parent: &str) -> (r: Option<ReturnItemUpsert<N>>)
    ensures
        item.id is None ==> r is None,
        item.id matches Some(i) ==> (r matches Some(rec) && return_item_upsert_of(rec, i@, *item, org_id@, now, zero, parent@)),
{
    let id = match &item.id {
        Some(i) => String::from_str(i.as_str()),
        None => {
            return None;
        },
    };
    Some(ReturnItemUpsert {
        id: id,
        product_id: String::from_str(item.product_id.as_str()),
        quantity: item.quantity,
        purchase_price: item.purchase_price,
        purchase_return_id: String::from_str(parent),
        organization_id: String::from_str(org_id),
    })
}

/// The stored form of a pushed stock count.
pub struct StockOpnameUpsert<N> {
    pub id: String,
    pub local_ref_id: Option<String>,
    pub date: SyncTimestamp,
    pub note: Option<String>,
    pub status: StockOpnameStatus,
    pub total_gain: N,
    pub total_loss: N,
    pub created_by: Option<String>,
    pub organization_id: String,
    pub stamps: RecordStamps,
}

/// Whether a record is the stored form of a pushed item.
pub open spec fn stock_opname_upsert_of<N>(r: StockOpnameUpsert<N>, id: Seq<char>, item: PushStockOpnameDto<N>, org_id: Seq<char>, now: SyncTimestamp, zero: N) -> bool {
    &&& r.id@ == id
    &&& opt_text(r.local_ref_id) == Some(item.local_ref_id@)
    &&& stamp_pair(r.date) == match naive_datetime_parse(item.date@, ISO_WITH_FRACTION@) { Some(v) => v, None => stamp_pair(now) }
    &&& opt_text(r.note) == opt_text(item.note)
    &&& r.status == stock_opname_status_of(item.status@)
    &&& r.total_gain == match item.total_gain { Some(v) => v, None => zero }
    &&& r.total_loss == match item.total_loss { Some(v) => v, None => zero }
    &&& opt_text(r.created_by) == Some(item.created_by@)
    &&& r.organization_id@ == org_id
    &&& stamps_match(r.stamps, opt_text(item.created_at), opt_text(item.deleted_at), now)
}

/// The stored form of a pushed item; items without an ID are skipped.
pub fn stock_opname_upsert<N: Copy>(item: &PushStockOpnameDto<N>, org_id: &str, now: SyncTimestamp, zero: N) -> (r: Option<StockOpnameUpsert<N>>)
    ensures
        item.id is None ==> r is None,
        item.id matches Some(i) ==> (r matches Some(rec) && stock_opname_upsert_of(rec, i@, *item, org_id@, now, zero)),
{
    let id = match &item.id {
        Some(i) => String::from_str(i.as_str()),
        None => {
            return None;
        },
    };
    Some(StockOpnameUpsert {
        id: id,
        local_ref_id: Some(String::from_str(item.local_ref_id.as_str())),
        date: strict_stamp_or_now(item.date.as_str(), now),
        note: copy_opt(&item.note),
        status: stock_opname_status_from(item.status.as_str()),
        total_gain: match item.total_gain {
            Some(v) => v,
            None => zero,
        },
        total_loss: match item.total_loss {
            Some(v) => v,
            None => zero,
        },
        created_by: Some(String::from_str(item.created_by.as_str())),
        organization_id: String::from_str(org_id),
        stamps: record_stamps(&item.created_at, &item.deleted_at, now),
    })
}

/// The stored form of a pushed stock count line.
pub struct StockOpnameItemUpsert<N> {
    pub id: String,
    pub product_id: String,
    pub quantity_system: N,
    pub quantity_physical: N,
    pub difference: N,
    pub purchase_price: N,
    pub financial_impact: N,
    pub stock_opname_id: String,
    pub organization_id: String,
}

/// Whether a record is the stored form of a pushed item.
pub open spec fn stock_opname_item_upsert_of<N>(r: StockOpnameItemUpsert<N>, id: Seq<char>, item: PushStockOpnameItemDto<N>, org_id: Seq<char>, now: SyncTimestamp, zero: N, parent: Seq<char>) -> bool {
    &&& r.id@ == id
    &&& r.product_id@ == item.product_id@
    &&& r.quantity_system == item.quantity_system
    &&& r.quantity_physical == item.quantity_physical
    &&& r.difference == item.difference
    &&& r.purchase_price == item.purchase_price
    &&& r.financial_impact == item.financial_impact
    &&& r.stock_opname_id@ == parent
    &&& r.organization_id@ == org_id
}

/// The stored form of a pushed item; items without an ID are skipped.
pub fn stock_opname_item_upsert<N: Copy>(item: &PushStockOpnameItemDto<N>, org_id: &str, now: SyncTimestamp, zero: N, parent: &str) -> (r: Option<StockOpnameItemUpsert<N>>)
    ensures
        item.id is None ==> r is None,
        item.id matches Some(i) ==> (r matches Some(rec) && stock_opname_item_upsert_of(rec, i@, *item, org_id@, now, zero, parent@)),
{
    let id = match &item.id {
        Some(i) => String::from_str(i.as_str()),
        None => {
            return None;
        },
    };
    Some(StockOpnameItemUpsert {
        id: id,
        product_id: String::from_str(item.product_id.as_str()),
        quantity_system: item.quantity_system,
        quantity_physical: item.quantity_physical,
        difference: item.difference,
        purchase_price: item.purchase_price,
        financial_impact: item.financial_impact,
        stock_opname_id: String::from_str(parent),
        organization_id: String::from_str(org_id),
    })
}

/// The stored form of a pushed payable.
pub struct PayableUpsert<N> {
    pub id: String,
    pub local_ref_id: Option<String>,
    pub nominal: N,
    pub due_date: Option<SyncTimestamp>,
    pub note: Option<String>,
    pub supplier_id: String,
    pub organization_id: String,
    pub stamps: RecordStamps,
}

/// Whether a record is the stored form of a pushed item.
pub open spec fn payable_upsert_of<N>(r: PayableUpsert<N>, id: Seq<char>, item: PushPayableDto<N>, org_id: Seq<char>, now: SyncTimestamp, zero: N) -> bool {
    &&& r.id@ == id
    &&& opt_text(r.local_ref_id) == opt_text(item.local_ref_id)
    &&& r.nominal == item.nominal
    &&& stamp_value(r.due_date) == optional_stamp(opt_text(item.due_date))
    &&& opt_text(r.note) == opt_text(item.note)
    &&& r.supplier_id@ == item.supplier_id@
    &&& r.organization_id@ == org_id
    &&& stamps_match(r.stamps, opt_text(item.created_at), opt_text(item.deleted_at), now)
}

/// The stored form of a pushed item; items without an ID are skipped.
pub fn payable_upsert<N: Copy>(item: &PushPayableDto<N>, org_id: &str, now: SyncTimestamp, zero: N) -> (r: Option<PayableUpsert<N>>)
    ensures
        item.id is None ==> r is None,
        item.id matches Some(i) ==> (r matches Some(rec) && payable_upsert_of(rec, i@, *item, org_id@, now, zero)),
{
    let id = match &item.id {
        Some(i) => String::from_str(i.as_str()),
        None => {
            return None;
        },
    };
    Some(PayableUpsert {
        id: id,
        local_ref_id: copy_opt(&item.local_ref_id),
        nominal: item.nominal,
        due_date: parse_date_opt(as_opt_str(&item.due_date)),
        note: copy_opt(&item.note),
        supplier_id: String::from_str(item.supplier_id.as_str()),
        organization_id: String::from_str(org_id),
        stamps: record_stamps(&item.created_at, &item.deleted_at, now),
    })
}

/// The stored form of a pushed payment of a payable.
pub struct PayableRealizationUpsert<N> {
    pub id: String,
    pub local_ref_id: Option<String>,
    pub payable_id: String,
    pub nominal: N,
    pub realization_date: SyncTimestamp,
    pub payment_method_id: String,
    pub note: Option<String>,
    pub organization_id: String,
    pub stamps: RecordStamps,
}

/// Whether a record is the stored form of a pushed item.
pub open spec fn payable_realization_upsert_of<N>(r: PayableRealizationUpsert<N>, id: Seq<char>, item: PushPayableRealizationDto<N>, org_id: Seq<char>, now: SyncTimestamp, zero: N) -> bool {
    &&& r.id@ == id
    &&& opt_text(r.local_ref_id) == opt_text(item.local_ref_id)
    &&& r.payable_id@ == item.payable_id@
    &&& r.nominal == item.nominal
    &&& stamp_pair(r.realization_date) == created_stamp(opt_text(item.realization_date), now)
    &&& r.payment_method_id@ == item.payment_method_id@
    &&& opt_text(r.note) == opt_text(item.note)
    &&& r.organization_id@ == org_id
    &&& stamps_match(r.stamps, opt_text(item.created_at), opt_text(item.deleted_at), now)
}

/// The stored form of a pushed item; items without an ID are skipped.
pub fn payable_realization_upsert<N: Copy>(item: &PushPayableRealizationDto<N>, org_id: &str, now: SyncTimestamp, zero: N) -> (r: Option<PayableRealizationUpsert<N>>)
    ensures
        item.id is None ==> r is None,
        item.id matches Some(i) ==> (r matches Some(rec) && payable_realization_upsert_of(rec, i@, *item, org_id@, now, zero)),
{
    let id = match &item.id {
        Some(i) => String::from_str(i.as_str()),
        None => {
            return None;
        },
    };
    Some(PayableRealizationUpsert {
        id: id,
        local_ref_id: copy_opt(&item.local_ref_id),
        payable_id: String::from_str(item.payable_id.as_str()),
        nominal: item.nominal,
        realization_date: stamp_or_now(as_opt_str(&item.realization_date), now),
        payment_method_id: String::from_str(item.payment_method_id.as_str()),
        note: copy_opt(&item.note),
        organization_id: String::from_str(org_id),
        stamps: record_stamps(&item.created_at, &item.deleted_at, now),
    })
}

/// The stored form of a pushed receivable; the customer is stored as its user.
pub struct ReceivableUpsert<N> {
    pub id: String,
    pub local_ref_id: Option<String>,
    pub nominal: N,
    pub due_date: Option<SyncTimestamp>,
    pub note: Option<String>,
    pub user_id: String,
    pub organization_id: String,
    pub stamps: RecordStamps,
}

/// Whether a record is the stored form of a pushed item.
pub open spec fn receivable_upsert_of<N>(r: ReceivableUpsert<N>, id: Seq<char>, item: PushReceivableDto<N>, org_id: Seq<char>, now: SyncTimestamp, zero: N) -> bool {
    &&& r.id@ == id
    &&& opt_text(r.local_ref_id) == opt_text(item.local_ref_id)
    &&& r.nominal == item.nominal
    &&& stamp_value(r.due_date) == optional_stamp(opt_text(item.due_date))
    &&& opt_text(r.note) == opt_text(item.note)
    &&& r.user_id@ == item.customer_id@
    &&& r.organization_id@ == org_id
    &&& stamps_match(r.stamps, opt_text(item.created_at), opt_text(item.deleted_at), now)
}

/// The stored form of a pushed item; items without an ID are skipped.
pub fn receivable_upsert<N: Copy>(item: &PushReceivableDto<N>, org_id: &str, now: SyncTimestamp, zero: N) -> (r: Option<ReceivableUpsert<N>>)
    ensures
        item.id is None ==> r is None,
        item.id matches Some(i) ==> (r matches Some(rec) && receivable_upsert_of(rec, i@, *item, org_id@, now, zero)),
{
    let id = match &item.id {
        Some(i) => String::from_str(i.as_str()),
        None => {
            return None;
        },
    };
    Some(ReceivableUpsert {
        id: id,
        local_ref_id: copy_opt(&item.local_ref_id),
        nominal: item.nominal,
        due_date: parse_date_opt(as_opt_str(&item.due_date)),
        note: copy_opt(&item.note),
        user_id: String::from_str(item.customer_id.as_str()),
        organization_id: String::from_str(org_id),
        stamps: record_stamps(&item.created_at, &item.deleted_at, now),
    })
}

/// The stored form of a pushed payment of a receivable.
pub struct ReceivableRealizationUpsert<N> {
    pub id: String,
    pub local_ref_id: Option<String>,
    pub receivable_id: String,
    pub nominal: N,
    pub realization_date: SyncTimestamp,
    pub payment_method_id: String,
    pub note: Option<String>,
    pub organization_id: String,
    pub stamps: RecordStamps,
}

/// Whether a record is the stored form of a pushed item.
pub open spec fn receivable_realization_upsert_of<N>(r: ReceivableRealizationUpsert<N>, id: Seq<char>, item: PushReceivableRealizationDto<N>, org_id: Seq<char>, now: SyncTimestamp, zero: N) -> bool {
    &&& r.id@ == id
    &&& opt_text(r.local_ref_id) == opt_text(item.local_ref_id)
    &&& r.receivable_id@ == item.receivable_id@
    &&& r.nominal == item.nominal
    &&& stamp_pair(r.realization_date) == created_stamp(opt_text(item.realization_date), now)
    &&& r.payment_method_id@ == item.payment_method_id@
    &&& opt_text(r.note) == opt_text(item.note)
    &&& r.organization_id@ == org_id
    &&& stamps_match(r.stamps, opt_text(item.created_at), opt_text(item.deleted_at), now)
}

/// The stored form of a pushed item; items without an ID are skipped.
pub fn receivable_realization_upsert<N: Copy>(item: &PushReceivableRealizationDto<N>, org_id: &str, now: SyncTimestamp, zero: N) -> (r: Option<ReceivableRealizationUpsert<N>>)
    ensures
        item.id is None ==> r is None,
        item.id matches Some(i) ==> (r matches Some(rec) && receivable_realization_upsert_of(rec, i@, *item, org_id@, now, zero)),
{
    let id = match &item.id {
        Some(i) => String::from_str(i.as_str()),
        None => {
            return None;
        },
    };
    Some(ReceivableRealizationUpsert {
        id: id,
        local_ref_id: copy_opt(&item.local_ref_id),
        receivable_id: String::from_str(item.receivable_id.as_str()),
        nominal: item.nominal,
        realization_date: stamp_or_now(as_opt_str(&item.realization_date), now),
        payment_method_id: String::from_str(item.payment_method_id.as_str()),
        note: copy_opt(&item.note),
        organization_id: String::from_str(org_id),
        stamps: record_stamps(&item.created_at, &item.deleted_at, now),
    })
}

/// The stored form of a pushed sale.
pub struct SaleUpsert<N> {
    pub id: String,
    pub local_ref_id: String,
    pub customer_id: Option<String>,
    pub total_amount: N,
    pub total_paid: N,
    pub payment_type_id: String,
    pub transaction_date: SyncTimestamp,
    pub status: TransactionStatus,
    pub note: Option<String>,
    pub organization_id: String,
    pub stamps: RecordStamps,
}

/// Whether a record is the stored form of a pushed item.
pub open spec fn sale_upsert_of<N>(r: SaleUpsert<N>, id: Seq<char>, item: PushSalesTransactionDto<N>, org_id: Seq<char>, now: SyncTimestamp, zero: N) -> bool {
    &&& r.id@ == id
    &&& r.local_ref_id@ == item.local_ref_id@
    &&& opt_text(r.customer_id) == opt_text(item.customer_id)
    &&& r.total_amount == item.total_amount
    &&& r.total_paid == item.total_paid
    &&& r.payment_type_id@ == item.payment_type_id@
    &&& stamp_pair(r.transaction_date) == match naive_datetime_parse(item.transaction_date@, ISO_WITH_FRACTION@) { Some(v) => v, None => stamp_pair(now) }
    &&& r.status == transaction_status_of(item.status@)
    &&& opt_text(r.note) == opt_text(item.note)
    &&& r.organization_id@ == org_id
    &&& stamps_match(r.stamps, opt_text(item.created_at), opt_text(item.deleted_at), now)
}

/// The stored form of a pushed item; items without an ID are skipped.
pub fn sale_upsert<N: Copy>(item: &PushSalesTransactionDto<N>, org_id: &str, now: SyncTimestamp, zero: N) -> (r: Option<SaleUpsert<N>>)
    ensures
        item.id is None ==> r is None,
        item.id matches Some(i) ==> (r matches Some(rec) && sale_upsert_of(rec, i@, *item, org_id@, now, zero)),
{
    let id = match &item.id {
        Some(i) => String::from_str(i.as_str()),
        None => {
            return None;
        },
    };
    Some(SaleUpsert {
        id: id,
        local_ref_id: String::from_str(item.local_ref_id.as_str()),
        customer_id: copy_opt(&item.customer_id),
        total_amount: item.total_amount,
        total_paid: item.total_paid,
        payment_type_id: String::from_str(item.payment_type_id.as_str()),
        transaction_date: strict_stamp_or_now(item.transaction_date.as_str(), now),
        status: transaction_status_from(item.status.as_str()),
        note: copy_opt(&item.note),
        organization_id: String::from_str(org_id),
        stamps: record_stamps(&item.created_at, &item.deleted_at, now),
    })
}

/// The stored form of a pushed sale line.
pub struct SaleItemUpsert<N> {
    pub id: String,
    pub transaction_id: String,
    pub product_id: String,
    pub quantity: N,
    pub sell_price: N,
    pub note: Option<String>,
    pub organization_id: String,
    pub stamps: RecordStamps,
}

/// Whether a record is the stored form of a pushed item.
pub open spec fn sale_item_upsert_of<N>(r: SaleItemUpsert<N>, id: Seq<char>, item: PushSalesTransactionItemDto<N>, org_id: Seq<char>, now: SyncTimestamp, zero: N, parent: Seq<char>) -> bool {
    &&& r.id@ == id
    &&& r.transaction_id@ == parent
    &&& r.product_id@ == item.product_id@
    &&& r.quantity == item.quantity
    &&& r.sell_price == item.sell_price
    &&& opt_text(r.note) == opt_text(item.note)
    &&& r.organization_id@ == org_id
    &&& stamps_match(r.stamps, opt_text(item.created_at), opt_text(item.deleted_at), now)
}

/// The stored form of a pushed item; items without an ID are skipped.
pub fn sale_item_upsert<N: Copy>(item: &PushSalesTransactionItemDto<N>, org_id: &str, now: SyncTimestamp, zero: N, parent: &str) -> (r: Option<SaleItemUpsert<N>>)
    ensures
        item.id is None ==> r is None,
        item.id matches Some(i) ==> (r matches Some(rec) && sale_item_upsert_of(rec, i@, *item, org_id@, now, zero, parent@)),
{
    let id = match &item.id {
        Some(i) => String::from_str(i.as_str()),
        None => {
            return None;
        },
    };
    Some(SaleItemUpsert {
        id: id,
        transaction_id: String::from_str(parent),
        product_id: String::from_str(item.product_id.as_str()),
        quantity: item.quantity,
        sell_price: item.sell_price,
        note: copy_opt(&item.note),
        organization_id: String::from_str(org_id),
        stamps: record_stamps(&item.created_at, &item.deleted_at, now),
    })
}

/// The stored form of a pushed shift.
pub struct ShiftUpsert<N> {
    pub id: String,
    pub local_ref_id: String,
    pub cash_drawer_id: String,
    pub user_id: String,
    pub start_time: SyncTimestamp,
    pub end_time: Option<SyncTimestamp>,
    pub initial_balance: N,
    pub final_balance: Option<N>,
    pub expected_balance: Option<N>,
    pub difference: Option<N>,
    pub status: ShiftStatus,
    pub note: Option<String>,
    pub organization_id: String,
    pub stamps: RecordStamps,
}

/// Whether a record is the stored form of a pushed item.
pub open spec fn shift_upsert_of<N>(r: ShiftUpsert<N>, id: Seq<char>, item: PushShiftDto<N>, org_id: Seq<char>, now: SyncTimestamp, zero: N) -> bool {
    &&& r.id@ == id
    &&& r.local_ref_id@ == item.local_ref_id@
    &&& r.cash_drawer_id@ == item.cash_drawer_id@
    &&& r.user_id@ == item.user_id@
    &&& stamp_pair(r.start_time) == match naive_datetime_parse(item.start_time@, ISO_WITH_FRACTION@) { Some(v) => v, None => stamp_pair(now) }
    &&& stamp_value(r.end_time) == optional_stamp(opt_text(item.end_time))
    &&& r.initial_balance == item.initial_balance
    &&& r.final_balance == item.final_balance
    &&& r.expected_balance == item.expected_balance
    &&& r.difference == item.difference
    &&& r.status == shift_status_of(item.status@)
    &&& opt_text(r.note) == opt_text(item.note)
    &&& r.organization_id@ == org_id
    &&& stamps_match(r.stamps, opt_text(item.created_at), opt_text(item.deleted_at), now)
}

/// The stored form of a pushed item; items without an ID are skipped.
pub fn shift_upsert<N: Copy>(item: &PushShiftDto<N>, org_id: &str, now: SyncTimestamp, zero: N) -> (r: Option<ShiftUpsert<N>>)
    ensures
        item.id is None ==> r is None,
        item.id matches Some(i) ==> (r matches Some(rec) && shift_upsert_of(rec, i@, *item, org_id@, now, zero)),
{
    let id = match &item.id {
        Some(i) => String::from_str(i.as_str()),
        None => {
            return None;
        },
    };
    Some(ShiftUpsert {
        id: id,
        local_ref_id: String::from_str(item.local_ref_id.as_str()),
        cash_drawer_id: String::from_str(item.cash_drawer_id.as_str()),
        user_id: String::from_str(item.user_id.as_str()),
        start_time: strict_stamp_or_now(item.start_time.as_str(), now),
        end_time: parse_date_opt(as_opt_str(&item.end_time)),
        initial_balance: item.initial_balance,
        final_balance: item.final_balance,
        expected_balance: item.expected_balance,
        difference: item.difference,
        status: shift_status_from(item.status.as_str()),
        note: copy_opt(&item.note),
        organization_id: String::from_str(org_id),
        stamps: record_stamps(&item.created_at, &item.deleted_at, now),
    })
}

// ------------------------------------------------------------------------
// The whole push and its answer
// ------------------------------------------------------------------------

/// Everything one push carries: each group of records is optional.
pub struct PushPayloadDto<N> {
    pub purchases: Option<Vec<PushPurchaseDto<N>>>,
    pub transactions: Option<Vec<PushTransactionDto<N>>>,
    pub categories: Option<Vec<PushCategoryDto<N>>>,
    pub brands: Option<Vec<PushBrandDto>>,
    pub discounts: Option<Vec<PushDiscountDto<N>>>,
    pub products: Option<Vec<PushProductDto<N>>>,
    pub customers: Option<Vec<PushCustomerDto>>,
    pub suppliers: Option<Vec<PushSupplierDto>>,
    pub purchase_returns: Option<Vec<PushReturnDto<N>>>,
    pub payables: Option<Vec<PushPayableDto<N>>>,
    pub payable_realizations: Option<Vec<PushPayableRealizationDto<N>>>,
    pub receivables: Option<Vec<PushReceivableDto<N>>>,
    pub receivable_realizations: Option<Vec<PushReceivableRealizationDto<N>>>,
    pub stock_opnames: Option<Vec<PushStockOpnameDto<N>>>,
    pub payment_methods: Option<Vec<PushPaymentMethodDto<N>>>,
    pub sales_transactions: Option<Vec<PushSalesTransactionDto<N>>>,
    pub cash_drawers: Option<Vec<PushCashDrawerDto>>,
    pub shifts: Option<Vec<PushShiftDto<N>>>,
    pub finances: Option<Vec<PushFinanceDto<N>>>,
}

/// A pushed record, reported back to the client by its ID.
pub trait PushedRecord {
    /// The record's ID, where it carries one.
    spec fn record_id(&self) -> Option<Seq<char>>;

    /// A copy of the record's ID, where it carries one.
    fn pushed_id(&self) -> (r: Option<String>)
        ensures
            opt_text(r) == self.record_id(),
    ;
}

impl<N> PushedRecord for PushPaymentMethodDto<N> {
    open spec fn record_id(&self) -> Option<Seq<char>> {
        Some(self.id@)
    }

    fn pushed_id(&self) -> (r: Option<String>) {
        Some(String::from_str(self.id.as_str()))
    }
}

impl<N> PushedRecord for PushCategoryDto<N> {
    open spec fn record_id(&self) -> Option<Seq<char>> {
        Some(self.id@)
    }

    fn pushed_id(&self) -> (r: Option<String>) {
        Some(String::from_str(self.id.as_str()))
    }
}

impl PushedRecord for PushCustomerDto {
    open spec fn record_id(&self) -> Option<Seq<char>> {
        Some(self.id@)
    }

    fn pushed_id(&self) -> (r: Option<String>) {
        Some(String::from_str(self.id.as_str()))
    }
}

impl<N> PushedRecord for PushProductDto<N> {
    open spec fn record_id(&self) -> Option<Seq<char>> {
        Some(self.id@)
    }

    fn pushed_id(&self) -> (r: Option<String>) {
        Some(String::from_str(self.id.as_str()))
    }
}

impl<N> PushedRecord for PushFinanceDto<N> {
    open spec fn record_id(&self) -> Option<Seq<char>> {
        Some(self.id@)
    }

    fn pushed_id(&self) -> (r: Option<String>) {
        Some(String::from_str(self.id.as_str()))
    }
}

impl PushedRecord for PushBrandDto {
    open spec fn record_id(&self) -> Option<Seq<char>> {
        Some(self.id@)
    }

    fn pushed_id(&self) -> (r: Option<String>) {
        Some(String::from_str(self.id.as_str()))
    }
}

impl<N> PushedRecord for PushDiscountDto<N> {
    open spec fn record_id(&self) -> Option<Seq<char>> {
        Some(self.id@)
    }

    fn pushed_id(&self) -> (r: Option<String>) {
        Some(String::from_str(self.id.as_str()))
    }
}

impl PushedRecord for PushSupplierDto {
    open spec fn record_id(&self) -> Option<Seq<char>> {
        Some(self.id@)
    }

    fn pushed_id(&self) -> (r: Option<String>) {
        Some(String::from_str(self.id.as_str()))
    }
}

impl<N> PushedRecord for PushPurchaseDto<N> {
    open spec fn record_id(&self) -> Option<Seq<char>> {
        opt_text(self.id)
    }

    fn pushed_id(&self) -> (r: Option<String>) {
        copy_opt(&self.id)
    }
}

impl<N> PushedRecord for PushTransactionDto<N> {
    open spec fn record_id(&self) -> Option<Seq<char>> {
        opt_text(self.id)
    }

    fn pushed_id(&self) -> (r: Option<String>) {
        copy_opt(&self.id)
    }
}

impl<N> PushedRecord for PushReturnDto<N> {
    open spec fn record_id(&self) -> Option<Seq<char>> {
        opt_text(self.id)
    }

    fn pushed_id(&self) -> (r: Option<String>) {
        copy_opt(&self.id)
    }
}

impl<N> PushedRecord for PushStockOpnameDto<N> {
    open spec fn record_id(&self) -> Option<Seq<char>> {
        opt_text(self.id)
    }

    fn pushed_id(&self) -> (r: Option<String>) {
        copy_opt(&self.id)
    }
}

impl<N> PushedRecord for PushPayableDto<N> {
    open spec fn record_id(&self) -> Option<Seq<char>> {
        opt_text(self.id)
    }

    fn pushed_id(&self) -> (r: Option<String>) {
        copy_opt(&self.id)
    }
}

impl<N> PushedRecord for PushPayableRealizationDto<N> {
    open spec fn record_id(&self) -> Option<Seq<char>> {
        opt_text(self.id)
    }

    fn pushed_id(&self) -> (r: Option<String>) {
        copy_opt(&self.id)
    }
}

impl<N> PushedRecord for PushReceivableDto<N> {
    open spec fn record_id(&self) -> Option<Seq<char>> {
        opt_text(self.id)
    }

    fn pushed_id(&self) -> (r: Option<String>) {
        copy_opt(&self.id)
    }
}

impl<N> PushedRecord for PushReceivableRealizationDto<N> {
    open spec fn record_id(&self) -> Option<Seq<char>> {
        opt_text(self.id)
    }

    fn pushed_id(&self) -> (r: Option<String>) {
        copy_opt(&self.id)
    }
}

impl<N> PushedRecord for PushSalesTransactionDto<N> {
    open spec fn record_id(&self) -> Option<Seq<char>> {
        opt_text(self.id)
    }

    fn pushed_id(&self) -> (r: Option<String>) {
        copy_opt(&self.id)
    }
}

impl PushedRecord for PushCashDrawerDto {
    open spec fn record_id(&self) -> Option<Seq<char>> {
        Some(self.id@)
    }

    fn pushed_id(&self) -> (r: Option<String>) {
        Some(String::from_str(self.id.as_str()))
    }
}

impl<N> PushedRecord for PushShiftDto<N> {
    open spec fn record_id(&self) -> Option<Seq<char>> {
        opt_text(self.id)
    }

    fn pushed_id(&self) -> (r: Option<String>) {
        copy_opt(&self.id)
    }
}

/// The IDs of a list of pushed records, in push order.
pub open spec fn record_ids<T: PushedRecord>(items: Seq<T>) -> Seq<Option<Seq<char>>> {
    items.map_values(|t: T| t.record_id())
}

/// The IDs a group reports back: each record that carries an ID, in push order.
pub fn pushed_ids<T: PushedRecord>(items: &Vec<T>) -> (r: Vec<String>)
    ensures
        texts(r@) == present_ids(record_ids(items@)),
{
    let mut ids: Vec<Option<String>> = Vec::new();
    let mut i: usize = 0;
    while i < items.len()
        invariant
            i <= items@.len(),
            opt_texts(ids@) == record_ids(items@.subrange(0, i as int)),
        decreases items@.len() - i,
    {
        let ghost before = ids@;
        let id = items[i].pushed_id();
        ids.push(id);
        proof {
            let next = items@.subrange(0, i + 1);
            assert(opt_texts(before).len() == before.len());
            assert(record_ids(items@.subrange(0, i as int)).len() == i);
            assert forall|j: int| 0 <= j < i + 1 implies opt_texts(ids@)[j] == record_ids(next)[j] by {
                if j < i {
                    assert(opt_texts(ids@)[j] == opt_texts(before)[j]);
                    assert(record_ids(items@.subrange(0, i as int))[j] == items@[j].record_id());
                }
            }
            assert(opt_texts(ids@) =~= record_ids(next));
        }
        i = i + 1;
    }
    proof {
        assert(items@.subrange(0, items@.len() as int) =~= items@);
    }
    upserted_ids(&ids)
}

/// One group of a push answer: the group and the mapping of each reported ID.
pub struct GroupAnswer {
    pub group: PushGroup,
    pub ids: Vec<IdMapping>,
}

/// The client IDs listed in a group's mappings.
pub open spec fn mapped_ids(m: Seq<IdMapping>) -> Seq<Seq<char>> {
    m.map_values(|x: IdMapping| x.id@)
}

/// Every mapping tells the client that the server kept its ID.
pub open spec fn ids_kept(a: Seq<GroupAnswer>) -> bool {
    forall|k: int, i: int|
        0 <= k < a.len() && 0 <= i < a[k].ids@.len() ==> (#[trigger] a[k].ids@[i]).server_id@
            == a[k].ids@[i].id@
}

/// The groups of an answer with the IDs each reports.
pub open spec fn answer_entries(a: Seq<GroupAnswer>) -> Seq<(PushGroup, Seq<Seq<char>>)> {
    a.map_values(|g: GroupAnswer| (g.group, mapped_ids(g.ids@)))
}

/// What one group adds to the answer: nothing when the push left it out, else
/// the group with the IDs of its records that carry one.
pub open spec fn group_entry<T: PushedRecord>(g: PushGroup, items: Option<Vec<T>>) -> Seq<
    (PushGroup, Seq<Seq<char>>),
> {
    match items {
        Some(v) => seq![(g, present_ids(record_ids(v@)))],
        None => seq![],
    }
}

/// The answer to a push: the groups it carried, in processing order, each with
/// the IDs it reports.
pub open spec fn push_answer_of<N>(p: PushPayloadDto<N>) -> Seq<(PushGroup, Seq<Seq<char>>)> {
    group_entry(PushGroup::PaymentMethods, p.payment_methods)
        + group_entry(PushGroup::Categories, p.categories)
        + group_entry(PushGroup::Customers, p.customers)
        + group_entry(PushGroup::Products, p.products)
        + group_entry(PushGroup::Finances, p.finances)
        + group_entry(PushGroup::Brands, p.brands)
        + group_entry(PushGroup::Discounts, p.discounts)
        + group_entry(PushGroup::Suppliers, p.suppliers)
        + group_entry(PushGroup::Purchases, p.purchases)
        + group_entry(PushGroup::Transactions, p.transactions)
        + group_entry(PushGroup::PurchaseReturns, p.purchase_returns)
        + group_entry(PushGroup::StockOpnames, p.stock_opnames)
        + group_entry(PushGroup::Payables, p.payables)
        + group_entry(PushGroup::PayableRealizations, p.payable_realizations)
        + group_entry(PushGroup::Receivables, p.receivables)
        + group_entry(PushGroup::ReceivableRealizations, p.receivable_realizations)
        + group_entry(PushGroup::SalesTransactions, p.sales_transactions)
        + group_entry(PushGroup::CashDrawers, p.cash_drawers)
        + group_entry(PushGroup::Shifts, p.shifts)
}

/// Adds one group's entry to an answer.
fn answer_group<T: PushedRecord>(answer: &mut Vec<GroupAnswer>, g: PushGroup, items: &Option<Vec<T>>)
    requires
        ids_kept(old(answer)@),
    ensures
        answer_entries(final(answer)@) == answer_entries(old(answer)@) + group_entry(g, *items),
        ids_kept(final(answer)@),
{
    match items {
        Some(v) => {
            let ids = pushed_ids(v);
            let maps = id_mappings(&ids);
            proof {
                assert(mapped_ids(maps@) =~= texts(ids@));
            }
            answer.push(GroupAnswer { group: g, ids: maps });
            proof {
                assert(answer_entries(answer@) =~= answer_entries(old(answer)@) + group_entry(g, *items));
            }
        },
        None => {},
    }
}

/// The answer the server gives to a push: for each group the push carried, in
/// processing order, the mapping of each record's ID to the ID the server
/// stored it under, which is the same ID.
pub fn push_answer<N>(payload: &PushPayloadDto<N>) -> (r: Vec<GroupAnswer>)
    ensures
        answer_entries(r@) == push_answer_of(*payload),
        ids_kept(r@),
{
    let mut r: Vec<GroupAnswer> = Vec::new();
    proof {
        assert(answer_entries(r@) =~= Seq::<(PushGroup, Seq<Seq<char>>)>::empty());
    }
    answer_group(&mut r, PushGroup::PaymentMethods, &payload.payment_methods);
    answer_group(&mut r, PushGroup::Categories, &payload.categories);
    answer_group(&mut r, PushGroup::Customers, &payload.customers);
    answer_group(&mut r, PushGroup::Products, &payload.products);
    answer_group(&mut r, PushGroup::Finances, &payload.finances);
    answer_group(&mut r, PushGroup::Brands, &payload.brands);
    answer_group(&mut r, PushGroup::Discounts, &payload.discounts);
    answer_group(&mut r, PushGroup::Suppliers, &payload.suppliers);
    answer_group(&mut r, PushGroup::Purchases, &payload.purchases);
    answer_group(&mut r, PushGroup::Transactions, &payload.transactions);
    answer_group(&mut r, PushGroup::PurchaseReturns, &payload.purchase_returns);
    answer_group(&mut r, PushGroup::StockOpnames, &payload.stock_opnames);
    answer_group(&mut r, PushGroup::Payables, &payload.payables);
    answer_group(&mut r, PushGroup::PayableRealizations, &payload.payable_realizations);
    answer_group(&mut r, PushGroup::Receivables, &payload.receivables);
    answer_group(&mut r, PushGroup::ReceivableRealizations, &payload.receivable_realizations);
    answer_group(&mut r, PushGroup::SalesTransactions, &payload.sales_transactions);
    answer_group(&mut r, PushGroup::CashDrawers, &payload.cash_drawers);
    answer_group(&mut r, PushGroup::Shifts, &payload.shifts);
    proof {
        assert(answer_entries(r@) =~= push_answer_of(*payload));
    }
    r
}


// ------------------------------------------------------------------------
// What an upsert overwrites
// ------------------------------------------------------------------------

/// The tables a push writes.
#[derive(Debug, Clone, Copy, PartialEq, Eq, Structural)]
pub enum PushTable {
    PaymentMethods,
    Categories,
    Customers,
    Products,
    ProductPrices,
    Finances,
    Brands,
    Discounts,
    Suppliers,
    Purchases,
    InventoryTransactions,
    PurchaseReturns,
    PurchaseReturnItems,
    StockOpnames,
    StockOpnameItems,
    Payables,
    PayableRealizations,
    Receivables,
    ReceivableRealizations,
    Transactions,
    TransactionItems,
    CashDrawers,
    Shifts,
}

/// The columns of the pushed tables that an upsert can overwrite, with the
/// record's ID and organization.
#[derive(Debug, Clone, Copy, PartialEq, Eq, Structural)]
pub enum PushColumn {
    Id,
    OrganizationId,
    Name,
    Commission,
    MinimalAmount,
    UpdatedAt,
    DeletedAt,
    RetailPoint,
    WholesalePoint,
    Description,
    Category,
    Code,
    Phone,
    Address,
    Barcode,
    PurchasePrice,
    IsFavorite,
    IsActive,
    Type,
    Unit,
    MinimumStock,
    CategoryId,
    BrandId,
    DiscountId,
    SupplierId,
    Price,
    Label,
    MinimumPurchase,
    Nominal,
    Status,
    Note,
    LocalRefId,
    TotalAmount,
    PaymentType,
    DueDate,
    Quantity,
    TotalGain,
    TotalLoss,
    QuantityPhysical,
    Difference,
    TotalPaid,
    SellPrice,
    EndTime,
    FinalBalance,
}

/// The name of a table in the database.
pub open spec fn push_table_name(t: PushTable) -> Seq<char> {
    match t {
        PushTable::PaymentMethods => "payment_methods"@,
        PushTable::Categories => "categories"@,
        PushTable::Customers => "customers"@,
        PushTable::Products => "products"@,
        PushTable::ProductPrices => "product_prices"@,
        PushTable::Finances => "finances"@,
        PushTable::Brands => "brands"@,
        PushTable::Discounts => "discounts"@,
        PushTable::Suppliers => "suppliers"@,
        PushTable::Purchases => "purchases"@,
        PushTable::InventoryTransactions => "inventory_transactions"@,
        PushTable::PurchaseReturns => "purchase_returns"@,
        PushTable::PurchaseReturnItems => "purchase_return_items"@,
        PushTable::StockOpnames => "stock_opnames"@,
        PushTable::StockOpnameItems => "stock_opname_items"@,
        PushTable::Payables => "payables"@,
        PushTable::PayableRealizations => "payable_realizations"@,
        PushTable::Receivables => "receivables"@,
        PushTable::ReceivableRealizations => "receivable_realizations"@,
        PushTable::Transactions => "transactions"@,
        PushTable::TransactionItems => "transaction_items"@,
        PushTable::CashDrawers => "cash_drawers"@,
        PushTable::Shifts => "shifts"@,
    }
}

/// The name of a column in the database.
pub open spec fn push_column_name(c: PushColumn) -> Seq<char> {
    match c {
        PushColumn::Id => "id"@,
        PushColumn::OrganizationId => "organization_id"@,
        PushColumn::Name => "name"@,
        PushColumn::Commission => "commission"@,
        PushColumn::MinimalAmount => "minimal_amount"@,
        PushColumn::UpdatedAt => "updated_at"@,
        PushColumn::DeletedAt => "deleted_at"@,
        PushColumn::RetailPoint => "retail_point"@,
        PushColumn::WholesalePoint => "wholesale_point"@,
        PushColumn::Description => "description"@,
        PushColumn::Category => "category"@,
        PushColumn::Code => "code"@,
        PushColumn::Phone => "phone"@,
        PushColumn::Address => "address"@,
        PushColumn::Barcode => "barcode"@,
        PushColumn::PurchasePrice => "purchase_price"@,
        PushColumn::IsFavorite => "is_favorite"@,
        PushColumn::IsActive => "is_active"@,
        PushColumn::Type => "type"@,
        PushColumn::Unit => "unit"@,
        PushColumn::MinimumStock => "minimum_stock"@,
        PushColumn::CategoryId => "category_id"@,
        PushColumn::BrandId => "brand_id"@,
        PushColumn::DiscountId => "discount_id"@,
        PushColumn::SupplierId => "supplier_id"@,
        PushColumn::Price => "price"@,
        PushColumn::Label => "label"@,
        PushColumn::MinimumPurchase => "minimum_purchase"@,
        PushColumn::Nominal => "nominal"@,
        PushColumn::Status => "status"@,
        PushColumn::Note => "note"@,
        PushColumn::LocalRefId => "local_ref_id"@,
        PushColumn::TotalAmount => "total_amount"@,
        PushColumn::PaymentType => "payment_type"@,
        PushColumn::DueDate => "due_date"@,
        PushColumn::Quantity => "quantity"@,
        PushColumn::TotalGain => "total_gain"@,
        PushColumn::TotalLoss => "total_loss"@,
        PushColumn::QuantityPhysical => "quantity_physical"@,
        PushColumn::Difference => "difference"@,
        PushColumn::TotalPaid => "total_paid"@,
        PushColumn::SellPrice => "sell_price"@,
        PushColumn::EndTime => "end_time"@,
        PushColumn::FinalBalance => "final_balance"@,
    }
}

/// The columns that an upsert into a table overwrites when a row with the
/// pushed ID already exists, in order; every other column keeps its stored
/// value.
pub open spec fn conflict_columns(t: PushTable) -> Seq<PushColumn> {
    match t {
        PushTable::PaymentMethods => seq![PushColumn::Name, PushColumn::Commission, PushColumn::MinimalAmount, PushColumn::UpdatedAt, PushColumn::DeletedAt],
        PushTable::Categories => seq![PushColumn::Name, PushColumn::RetailPoint, PushColumn::WholesalePoint, PushColumn::Description, PushColumn::UpdatedAt, PushColumn::DeletedAt],
        PushTable::Customers => seq![PushColumn::Name, PushColumn::Category, PushColumn::Code, PushColumn::Phone, PushColumn::Address, PushColumn::UpdatedAt, PushColumn::DeletedAt],
        PushTable::Products => seq![PushColumn::Name, PushColumn::Description, PushColumn::Barcode, PushColumn::PurchasePrice, PushColumn::IsFavorite, PushColumn::IsActive, PushColumn::Type, PushColumn::Unit, PushColumn::MinimumStock, PushColumn::CategoryId, PushColumn::BrandId, PushColumn::DiscountId, PushColumn::SupplierId, PushColumn::UpdatedAt, PushColumn::DeletedAt],
        PushTable::ProductPrices => seq![PushColumn::Price, PushColumn::Label, PushColumn::MinimumPurchase],
        PushTable::Finances => seq![PushColumn::Nominal, PushColumn::Status, PushColumn::Note, PushColumn::UpdatedAt, PushColumn::DeletedAt],
        PushTable::Brands => seq![PushColumn::Name, PushColumn::Description, PushColumn::UpdatedAt, PushColumn::DeletedAt],
        PushTable::Discounts => seq![PushColumn::Name, PushColumn::Nominal, PushColumn::UpdatedAt, PushColumn::DeletedAt],
        PushTable::Suppliers => seq![PushColumn::Name, PushColumn::Phone, PushColumn::Address, PushColumn::UpdatedAt, PushColumn::DeletedAt],
        PushTable::Purchases => seq![PushColumn::LocalRefId, PushColumn::SupplierId, PushColumn::TotalAmount, PushColumn::PaymentType, PushColumn::Status, PushColumn::DueDate, PushColumn::UpdatedAt, PushColumn::DeletedAt],
        PushTable::InventoryTransactions => seq![PushColumn::Quantity, PushColumn::Status, PushColumn::DeletedAt],
        PushTable::PurchaseReturns => seq![PushColumn::TotalAmount, PushColumn::UpdatedAt],
        PushTable::PurchaseReturnItems => seq![PushColumn::Quantity, PushColumn::PurchasePrice],
        PushTable::StockOpnames => seq![PushColumn::Status, PushColumn::TotalGain, PushColumn::TotalLoss, PushColumn::UpdatedAt, PushColumn::DeletedAt],
        PushTable::StockOpnameItems => seq![PushColumn::QuantityPhysical, PushColumn::Difference],
        PushTable::Payables => seq![PushColumn::Nominal, PushColumn::DueDate, PushColumn::UpdatedAt, PushColumn::DeletedAt],
        PushTable::PayableRealizations => seq![PushColumn::Nominal, PushColumn::UpdatedAt, PushColumn::DeletedAt],
        PushTable::Receivables => seq![PushColumn::Nominal, PushColumn::DueDate, PushColumn::UpdatedAt, PushColumn::DeletedAt],
        PushTable::ReceivableRealizations => seq![PushColumn::Nominal, PushColumn::UpdatedAt, PushColumn::DeletedAt],
        PushTable::Transactions => seq![PushColumn::TotalAmount, PushColumn::TotalPaid, PushColumn::Status, PushColumn::UpdatedAt, PushColumn::DeletedAt],
        PushTable::TransactionItems => seq![PushColumn::Quantity, PushColumn::SellPrice, PushColumn::UpdatedAt, PushColumn::DeletedAt],
        PushTable::CashDrawers => seq![PushColumn::Name, PushColumn::Description, PushColumn::IsActive, PushColumn::UpdatedAt, PushColumn::DeletedAt],
        PushTable::Shifts => seq![PushColumn::EndTime, PushColumn::FinalBalance, PushColumn::Status, PushColumn::UpdatedAt, PushColumn::DeletedAt],
    }
}

impl PushTable {
    /// The name of the table in the database.
    pub fn name(&self) -> (r: &'static str)
        ensures
            r@ == push_table_name(*self),
    {
        match self {
            PushTable::PaymentMethods => "payment_methods",
            PushTable::Categories => "categories",
            PushTable::Customers => "customers",
            PushTable::Products => "products",
            PushTable::ProductPrices => "product_prices",
            PushTable::Finances => "finances",
            PushTable::Brands => "brands",
            PushTable::Discounts => "discounts",
            PushTable::Suppliers => "suppliers",
            PushTable::Purchases => "purchases",
            PushTable::InventoryTransactions => "inventory_transactions",
            PushTable::PurchaseReturns => "purchase_returns",
            PushTable::PurchaseReturnItems => "purchase_return_items",
            PushTable::StockOpnames => "stock_opnames",
            PushTable::StockOpnameItems => "stock_opname_items",
            PushTable::Payables => "payables",
            PushTable::PayableRealizations => "payable_realizations",
            PushTable::Receivables => "receivables",
            PushTable::ReceivableRealizations => "receivable_realizations",
            PushTable::Transactions => "transactions",
            PushTable::TransactionItems => "transaction_items",
            PushTable::CashDrawers => "cash_drawers",
            PushTable::Shifts => "shifts",
        }
    }

    /// The columns that an upsert overwrites when the pushed ID already exists.
    pub fn conflict_columns(&self) -> (r: Vec<PushColumn>)
        ensures
            r@ == conflict_columns(*self),
    {
        match self {
            PushTable::PaymentMethods => vec![PushColumn::Name, PushColumn::Commission, PushColumn::MinimalAmount, PushColumn::UpdatedAt, PushColumn::DeletedAt],
            PushTable::Categories => vec![PushColumn::Name, PushColumn::RetailPoint, PushColumn::WholesalePoint, PushColumn::Description, PushColumn::UpdatedAt, PushColumn::DeletedAt],
            PushTable::Customers => vec![PushColumn::Name, PushColumn::Category, PushColumn::Code, PushColumn::Phone, PushColumn::Address, PushColumn::UpdatedAt, PushColumn::DeletedAt],
            PushTable::Products => vec![PushColumn::Name, PushColumn::Description, PushColumn::Barcode, PushColumn::PurchasePrice, PushColumn::IsFavorite, PushColumn::IsActive, PushColumn::Type, PushColumn::Unit, PushColumn::MinimumStock, PushColumn::CategoryId, PushColumn::BrandId, PushColumn::DiscountId, PushColumn::SupplierId, PushColumn::UpdatedAt, PushColumn::DeletedAt],
            PushTable::ProductPrices => vec![PushColumn::Price, PushColumn::Label, PushColumn::MinimumPurchase],
            PushTable::Finances => vec![PushColumn::Nominal, PushColumn::Status, PushColumn::Note, PushColumn::UpdatedAt, PushColumn::DeletedAt],
            PushTable::Brands => vec![PushColumn::Name, PushColumn::Description, PushColumn::UpdatedAt, PushColumn::DeletedAt],
            PushTable::Discounts => vec![PushColumn::Name, PushColumn::Nominal, PushColumn::UpdatedAt, PushColumn::DeletedAt],
            PushTable::Suppliers => vec![PushColumn::Name, PushColumn::Phone, PushColumn::Address, PushColumn::UpdatedAt, PushColumn::DeletedAt],
            PushTable::Purchases => vec![PushColumn::LocalRefId, PushColumn::SupplierId, PushColumn::TotalAmount, PushColumn::PaymentType, PushColumn::Status, PushColumn::DueDate, PushColumn::UpdatedAt, PushColumn::DeletedAt],
            PushTable::InventoryTransactions => vec![PushColumn::Quantity, PushColumn::Status, PushColumn::DeletedAt],
            PushTable::PurchaseReturns => vec![PushColumn::TotalAmount, PushColumn::UpdatedAt],
            PushTable::PurchaseReturnItems => vec![PushColumn::Quantity, PushColumn::PurchasePrice],
            PushTable::StockOpnames => vec![PushColumn::Status, PushColumn::TotalGain, PushColumn::TotalLoss, PushColumn::UpdatedAt, PushColumn::DeletedAt],
            PushTable::StockOpnameItems => vec![PushColumn::QuantityPhysical, PushColumn::Difference],
            PushTable::Payables => vec![PushColumn::Nominal, PushColumn::DueDate, PushColumn::UpdatedAt, PushColumn::DeletedAt],
            PushTable::PayableRealizations => vec![PushColumn::Nominal, PushColumn::UpdatedAt, PushColumn::DeletedAt],
            PushTable::Receivables => vec![PushColumn::Nominal, PushColumn::DueDate, PushColumn::UpdatedAt, PushColumn::DeletedAt],
            PushTable::ReceivableRealizations => vec![PushColumn::Nominal, PushColumn::UpdatedAt, PushColumn::DeletedAt],
            PushTable::Transactions => vec![PushColumn::TotalAmount, PushColumn::TotalPaid, PushColumn::Status, PushColumn::UpdatedAt, PushColumn::DeletedAt],
            PushTable::TransactionItems => vec![PushColumn::Quantity, PushColumn::SellPrice, PushColumn::UpdatedAt, PushColumn::DeletedAt],
            PushTable::CashDrawers => vec![PushColumn::Name, PushColumn::Description, PushColumn::IsActive, PushColumn::UpdatedAt, PushColumn::DeletedAt],
            PushTable::Shifts => vec![PushColumn::EndTime, PushColumn::FinalBalance, PushColumn::Status, PushColumn::UpdatedAt, PushColumn::DeletedAt],
        }
    }
}

impl PushColumn {
    /// The name of the column in the database.
    pub fn name(&self) -> (r: &'static str)
        ensures
            r@ == push_column_name(*self),
    {
        match self {
            PushColumn::Id => "id",
            PushColumn::OrganizationId => "organization_id",
            PushColumn::Name => "name",
            PushColumn::Commission => "commission",
            PushColumn::MinimalAmount => "minimal_amount",
            PushColumn::UpdatedAt => "updated_at",
            PushColumn::DeletedAt => "deleted_at",
            PushColumn::RetailPoint => "retail_point",
            PushColumn::WholesalePoint => "wholesale_point",
            PushColumn::Description => "description",
            PushColumn::Category => "category",
            PushColumn::Code => "code",
            PushColumn::Phone => "phone",
            PushColumn::Address => "address",
            PushColumn::Barcode => "barcode",
            PushColumn::PurchasePrice => "purchase_price",
            PushColumn::IsFavorite => "is_favorite",
            PushColumn::IsActive => "is_active",
            PushColumn::Type => "type",
            PushColumn::Unit => "unit",
            PushColumn::MinimumStock => "minimum_stock",
            PushColumn::CategoryId => "category_id",
            PushColumn::BrandId => "brand_id",
            PushColumn::DiscountId => "discount_id",
            PushColumn::SupplierId => "supplier_id",
            PushColumn::Price => "price",
            PushColumn::Label => "label",
            PushColumn::MinimumPurchase => "minimum_purchase",
            PushColumn::Nominal => "nominal",
            PushColumn::Status => "status",
            PushColumn::Note => "note",
            PushColumn::LocalRefId => "local_ref_id",
            PushColumn::TotalAmount => "total_amount",
            PushColumn::PaymentType => "payment_type",
            PushColumn::DueDate => "due_date",
            PushColumn::Quantity => "quantity",
            PushColumn::TotalGain => "total_gain",
            PushColumn::TotalLoss => "total_loss",
            PushColumn::QuantityPhysical => "quantity_physical",
            PushColumn::Difference => "difference",
            PushColumn::TotalPaid => "total_paid",
            PushColumn::SellPrice => "sell_price",
            PushColumn::EndTime => "end_time",
            PushColumn::FinalBalance => "final_balance",
        }
    }
}

/// Law: a push never moves a stored row: when a pushed ID already exists, the
/// upsert overwrites neither the row's ID nor its organization. (Every record
/// a push inserts carries the pushing organization; see the upsert builders.)
pub proof fn law_push_keeps_rows_in_their_organization(t: PushTable)
    ensures
        !conflict_columns(t).contains(PushColumn::OrganizationId),
        !conflict_columns(t).contains(PushColumn::Id),
{
    let cs = conflict_columns(t);
    assert forall|i: int| 0 <= i < cs.len() implies cs[i] != PushColumn::OrganizationId && cs[i] != PushColumn::Id by {
    }
}


// ------------------------------------------------------------------------
// Laws of the push answer
// ------------------------------------------------------------------------

/// The IDs of the records a payload carries for a group (those that have
/// one, in push order), or `None` when the payload leaves the group out.
pub open spec fn carried_ids<N>(p: PushPayloadDto<N>, g: PushGroup) -> Option<Seq<Seq<char>>> {
    match g {
        PushGroup::PaymentMethods => match p.payment_methods {
            Some(v) => Some(present_ids(record_ids(v@))),
            None => None,
        },
        PushGroup::Categories => match p.categories {
            Some(v) => Some(present_ids(record_ids(v@))),
            None => None,
        },
        PushGroup::Customers => match p.customers {
            Some(v) => Some(present_ids(record_ids(v@))),
            None => None,
        },
        PushGroup::Products => match p.products {
            Some(v) => Some(present_ids(record_ids(v@))),
            None => None,
        },
        PushGroup::Finances => match p.finances {
            Some(v) => Some(present_ids(record_ids(v@))),
            None => None,
        },
        PushGroup::Brands => match p.brands {
            Some(v) => Some(present_ids(record_ids(v@))),
            None => None,
        },
        PushGroup::Discounts => match p.discounts {
            Some(v) => Some(present_ids(record_ids(v@))),
            None => None,
        },
        PushGroup::Suppliers => match p.suppliers {
            Some(v) => Some(present_ids(record_ids(v@))),
            None => None,
        },
        PushGroup::Purchases => match p.purchases {
            Some(v) => Some(present_ids(record_ids(v@))),
            None => None,
        },
        PushGroup::Transactions => match p.transactions {
            Some(v) => Some(present_ids(record_ids(v@))),
            None => None,
        },
        PushGroup::PurchaseReturns => match p.purchase_returns {
            Some(v) => Some(present_ids(record_ids(v@))),
            None => None,
        },
        PushGroup::StockOpnames => match p.stock_opnames {
            Some(v) => Some(present_ids(record_ids(v@))),
            None => None,
        },
        PushGroup::Payables => match p.payables {
            Some(v) => Some(present_ids(record_ids(v@))),
            None => None,
        },
        PushGroup::PayableRealizations => match p.payable_realizations {
            Some(v) => Some(present_ids(record_ids(v@))),
            None => None,
        },
        PushGroup::Receivables => match p.receivables {
            Some(v) => Some(present_ids(record_ids(v@))),
            None => None,
        },
        PushGroup::ReceivableRealizations => match p.receivable_realizations {
            Some(v) => Some(present_ids(record_ids(v@))),
            None => None,
        },
        PushGroup::SalesTransactions => match p.sales_transactions {
            Some(v) => Some(present_ids(record_ids(v@))),
            None => None,
        },
        PushGroup::CashDrawers => match p.cash_drawers {
            Some(v) => Some(present_ids(record_ids(v@))),
            None => None,
        },
        PushGroup::Shifts => match p.shifts {
            Some(v) => Some(present_ids(record_ids(v@))),
            None => None,
        },
    }
}

/// The number of groups a payload carries.
pub open spec fn carried_count<N>(p: PushPayloadDto<N>) -> int {
    (if p.payment_methods is Some { 1int } else { 0int })
        + (if p.categories is Some { 1int } else { 0int })
        + (if p.customers is Some { 1int } else { 0int })
        + (if p.products is Some { 1int } else { 0int })
        + (if p.finances is Some { 1int } else { 0int })
        + (if p.brands is Some { 1int } else { 0int })
        + (if p.discounts is Some { 1int } else { 0int })
        + (if p.suppliers is Some { 1int } else { 0int })
        + (if p.purchases is Some { 1int } else { 0int })
        + (if p.transactions is Some { 1int } else { 0int })
        + (if p.purchase_returns is Some { 1int } else { 0int })
        + (if p.stock_opnames is Some { 1int } else { 0int })
        + (if p.payables is Some { 1int } else { 0int })
        + (if p.payable_realizations is Some { 1int } else { 0int })
        + (if p.receivables is Some { 1int } else { 0int })
        + (if p.receivable_realizations is Some { 1int } else { 0int })
        + (if p.sales_transactions is Some { 1int } else { 0int })
        + (if p.cash_drawers is Some { 1int } else { 0int })
        + (if p.shifts is Some { 1int } else { 0int })
}

proof fn lemma_concat_contains<A>(a: Seq<A>, b: Seq<A>, x: A)
    ensures
        (a + b).contains(x) <==> a.contains(x) || b.contains(x),
{
    if a.contains(x) {
        let i = choose|i: int| 0 <= i < a.len() && a[i] == x;
        assert((a + b)[i] == x);
    }
    if b.contains(x) {
        let i = choose|i: int| 0 <= i < b.len() && b[i] == x;
        assert((a + b)[a.len() + i] == x);
    }
    if (a + b).contains(x) {
        let i = choose|i: int| 0 <= i < (a + b).len() && (a + b)[i] == x;
        if i < a.len() {
            assert(a[i] == x);
        } else {
            assert(b[i - a.len()] == x);
        }
    }
}

proof fn lemma_entry_contains<T: PushedRecord>(g: PushGroup, items: Option<Vec<T>>, x: (PushGroup, Seq<Seq<char>>))
    ensures
        group_entry(g, items).contains(x) <==> (items is Some && x == (g, present_ids(record_ids(items->0@)))),
        group_entry(g, items).len() == (if items is Some { 1int } else { 0int }),
{
    if items is Some {
        assert(group_entry(g, items)[0] == (g, present_ids(record_ids(items->0@))));
    }
}

/// Law: the push answer reports exactly the groups the payload carries. For
/// every group and ID list, the answer holds the entry (group, IDs) exactly
/// when the payload carries that group and the IDs are those of its records
/// that have one, in push order; and it holds one entry per carried group.
#[verifier::spinoff_prover]
#[verifier::rlimit(40)]
pub proof fn law_push_answer_reports_carried_groups<N>(p: PushPayloadDto<N>, g: PushGroup, ids: Seq<Seq<char>>)
    ensures
        push_answer_of(p).contains((g, ids)) <==> carried_ids(p, g) == Some(ids),
        push_answer_of(p).len() == carried_count(p),
{
    let x = (g, ids);
    lemma_entry_contains(PushGroup::PaymentMethods, p.payment_methods, x);
    lemma_entry_contains(PushGroup::Categories, p.categories, x);
    lemma_concat_contains(group_entry(PushGroup::PaymentMethods, p.payment_methods), group_entry(PushGroup::Categories, p.categories), x);
    lemma_entry_contains(PushGroup::Customers, p.customers, x);
    lemma_concat_contains(group_entry(PushGroup::PaymentMethods, p.payment_methods) + group_entry(PushGroup::Categories, p.categories), group_entry(PushGroup::Customers, p.customers), x);
    lemma_entry_contains(PushGroup::Products, p.products, x);
    lemma_concat_contains(group_entry(PushGroup::PaymentMethods, p.payment_methods) + group_entry(PushGroup::Categories, p.categories) + group_entry(PushGroup::Customers, p.customers), group_entry(PushGroup::Products, p.products), x);
    lemma_entry_contains(PushGroup::Finances, p.finances, x);
    lemma_concat_contains(group_entry(PushGroup::PaymentMethods, p.payment_methods) + group_entry(PushGroup::Categories, p.categories) + group_entry(PushGroup::Customers, p.customers) + group_entry(PushGroup::Products, p.products), group_entry(PushGroup::Finances, p.finances), x);
    lemma_entry_contains(PushGroup::Brands, p.brands, x);
    lemma_concat_contains(group_entry(PushGroup::PaymentMethods, p.payment_methods) + group_entry(PushGroup::Categories, p.categories) + group_entry(PushGroup::Customers, p.customers) + group_entry(PushGroup::Products, p.products) + group_entry(PushGroup::Finances, p.finances), group_entry(PushGroup::Brands, p.brands), x);
    lemma_entry_contains(PushGroup::Discounts, p.discounts, x);
    lemma_concat_contains(group_entry(PushGroup::PaymentMethods, p.payment_methods) + group_entry(PushGroup::Categories, p.categories) + group_entry(PushGroup::Customers, p.customers) + group_entry(PushGroup::Products, p.products) + group_entry(PushGroup::Finances, p.finances) + group_entry(PushGroup::Brands, p.brands), group_entry(PushGroup::Discounts, p.discounts), x);
    lemma_entry_contains(PushGroup::Suppliers, p.suppliers, x);
    lemma_concat_contains(group_entry(PushGroup::PaymentMethods, p.payment_methods) + group_entry(PushGroup::Categories, p.categories) + group_entry(PushGroup::Customers, p.customers) + group_entry(PushGroup::Products, p.products) + group_entry(PushGroup::Finances, p.finances) + group_entry(PushGroup::Brands, p.brands) + group_entry(PushGroup::Discounts, p.discounts), group_entry(PushGroup::Suppliers, p.suppliers), x);
    lemma_entry_contains(PushGroup::Purchases, p.purchases, x);
    lemma_concat_contains(group_entry(PushGroup::PaymentMethods, p.payment_methods) + group_entry(PushGroup::Categories, p.categories) + group_entry(PushGroup::Customers, p.customers) + group_entry(PushGroup::Products, p.products) + group_entry(PushGroup::Finances, p.finances) + group_entry(PushGroup::Brands, p.brands) + group_entry(PushGroup::Discounts, p.discounts) + group_entry(PushGroup::Suppliers, p.suppliers), group_entry(PushGroup::Purchases, p.purchases), x);
    lemma_entry_contains(PushGroup::Transactions, p.transactions, x);
    lemma_concat_contains(group_entry(PushGroup::PaymentMethods, p.payment_methods) + group_entry(PushGroup::Categories, p.categories) + group_entry(PushGroup::Customers, p.customers) + group_entry(PushGroup::Products, p.products) + group_entry(PushGroup::Finances, p.finances) + group_entry(PushGroup::Brands, p.brands) + group_entry(PushGroup::Discounts, p.discounts) + group_entry(PushGroup::Suppliers, p.suppliers) + group_entry(PushGroup::Purchases, p.purchases), group_entry(PushGroup::Transactions, p.transactions), x);
    lemma_entry_contains(PushGroup::PurchaseReturns, p.purchase_returns, x);
    lemma_concat_contains(group_entry(PushGroup::PaymentMethods, p.payment_methods) + group_entry(PushGroup::Categories, p.categories) + group_entry(PushGroup::Customers, p.customers) + group_entry(PushGroup::Products, p.products) + group_entry(PushGroup::Finances, p.finances) + group_entry(PushGroup::Brands, p.brands) + group_entry(PushGroup::Discounts, p.discounts) + group_entry(PushGroup::Suppliers, p.suppliers) + group_entry(PushGroup::Purchases, p.purchases) + group_entry(PushGroup::Transactions, p.transactions), group_entry(PushGroup::PurchaseReturns, p.purchase_returns), x);
    lemma_entry_contains(PushGroup::StockOpnames, p.stock_opnames, x);
    lemma_concat_contains(group_entry(PushGroup::PaymentMethods, p.payment_methods) + group_entry(PushGroup::Categories, p.categories) + group_entry(PushGroup::Customers, p.customers) + group_entry(PushGroup::Products, p.products) + group_entry(PushGroup::Finances, p.finances) + group_entry(PushGroup::Brands, p.brands) + group_entry(PushGroup::Discounts, p.discounts) + group_entry(PushGroup::Suppliers, p.suppliers) + group_entry(PushGroup::Purchases, p.purchases) + group_entry(PushGroup::Transactions, p.transactions) + group_entry(PushGroup::PurchaseReturns, p.purchase_returns), group_entry(PushGroup::StockOpnames, p.stock_opnames), x);
    lemma_entry_contains(PushGroup::Payables, p.payables, x);
    lemma_concat_contains(group_entry(PushGroup::PaymentMethods, p.payment_methods) + group_entry(PushGroup::Categories, p.categories) + group_entry(PushGroup::Customers, p.customers) + group_entry(PushGroup::Products, p.products) + group_entry(PushGroup::Finances, p.finances) + group_entry(PushGroup::Brands, p.brands) + group_entry(PushGroup::Discounts, p.discounts) + group_entry(PushGroup::Suppliers, p.suppliers) + group_entry(PushGroup::Purchases, p.purchases) + group_entry(PushGroup::Transactions, p.transactions) + group_entry(PushGroup::PurchaseReturns, p.purchase_returns) + group_entry(PushGroup::StockOpnames, p.stock_opnames), group_entry(PushGroup::Payables, p.payables), x);
    lemma_entry_contains(PushGroup::PayableRealizations, p.payable_realizations, x);
    lemma_concat_contains(group_entry(PushGroup::PaymentMethods, p.payment_methods) + group_entry(PushGroup::Categories, p.categories) + group_entry(PushGroup::Customers, p.customers) + group_entry(PushGroup::Products, p.products) + group_entry(PushGroup::Finances, p.finances) + group_entry(PushGroup::Brands, p.brands) + group_entry(PushGroup::Discounts, p.discounts) + group_entry(PushGroup::Suppliers, p.suppliers) + group_entry(PushGroup::Purchases, p.purchases) + group_entry(PushGroup::Transactions, p.transactions) + group_entry(PushGroup::PurchaseReturns, p.purchase_returns) + group_entry(PushGroup::StockOpnames, p.stock_opnames) + group_entry(PushGroup::Payables, p.payables), group_entry(PushGroup::PayableRealizations, p.payable_realizations), x);
    lemma_entry_contains(PushGroup::Receivables, p.receivables, x);
    lemma_concat_contains(group_entry(PushGroup::PaymentMethods, p.payment_methods) + group_entry(PushGroup::Categories, p.categories) + group_entry(PushGroup::Customers, p.customers) + group_entry(PushGroup::Products, p.products) + group_entry(PushGroup::Finances, p.finances) + group_entry(PushGroup::Brands, p.brands) + group_entry(PushGroup::Discounts, p.discounts) + group_entry(PushGroup::Suppliers, p.suppliers) + group_entry(PushGroup::Purchases, p.purchases) + group_entry(PushGroup::Transactions, p.transactions) + group_entry(PushGroup::PurchaseReturns, p.purchase_returns) + group_entry(PushGroup::StockOpnames, p.stock_opnames) + group_entry(PushGroup::Payables, p.payables) + group_entry(PushGroup::PayableRealizations, p.payable_realizations), group_entry(PushGroup::Receivables, p.receivables), x);
    lemma_entry_contains(PushGroup::ReceivableRealizations, p.receivable_realizations, x);
    lemma_concat_contains(group_entry(PushGroup::PaymentMethods, p.payment_methods) + group_entry(PushGroup::Categories, p.categories) + group_entry(PushGroup::Customers, p.customers) + group_entry(PushGroup::Products, p.products) + group_entry(PushGroup::Finances, p.finances) + group_entry(PushGroup::Brands, p.brands) + group_entry(PushGroup::Discounts, p.discounts) + group_entry(PushGroup::Suppliers, p.suppliers) + group_entry(PushGroup::Purchases, p.purchases) + group_entry(PushGroup::Transactions, p.transactions) + group_entry(PushGroup::PurchaseReturns, p.purchase_returns) + group_entry(PushGroup::StockOpnames, p.stock_opnames) + group_entry(PushGroup::Payables, p.payables) + group_entry(PushGroup::PayableRealizations, p.payable_realizations) + group_entry(PushGroup::Receivables, p.receivables), group_entry(PushGroup::ReceivableRealizations, p.receivable_realizations), x);
    lemma_entry_contains(PushGroup::SalesTransactions, p.sales_transactions, x);
    lemma_concat_contains(group_entry(PushGroup::PaymentMethods, p.payment_methods) + group_entry(PushGroup::Categories, p.categories) + group_entry(PushGroup::Customers, p.customers) + group_entry(PushGroup::Products, p.products) + group_entry(PushGroup::Finances, p.finances) + group_entry(PushGroup::Brands, p.brands) + group_entry(PushGroup::Discounts, p.discounts) + group_entry(PushGroup::Suppliers, p.suppliers) + group_entry(PushGroup::Purchases, p.purchases) + group_entry(PushGroup::Transactions, p.transactions) + group_entry(PushGroup::PurchaseReturns, p.purchase_returns) + group_entry(PushGroup::StockOpnames, p.stock_opnames) + group_entry(PushGroup::Payables, p.payables) + group_entry(PushGroup::PayableRealizations, p.payable_realizations) + group_entry(PushGroup::Receivables, p.receivables) + group_entry(PushGroup::ReceivableRealizations, p.receivable_realizations), group_entry(PushGroup::SalesTransactions, p.sales_transactions), x);
    lemma_entry_contains(PushGroup::CashDrawers, p.cash_drawers, x);
    lemma_concat_contains(group_entry(PushGroup::PaymentMethods, p.payment_methods) + group_entry(PushGroup::Categories, p.categories) + group_entry(PushGroup::Customers, p.customers) + group_entry(PushGroup::Products, p.products) + group_entry(PushGroup::Finances, p.finances) + group_entry(PushGroup::Brands, p.brands) + group_entry(PushGroup::Discounts, p.discounts) + group_entry(PushGroup::Suppliers, p.suppliers) + group_entry(PushGroup::Purchases, p.purchases) + group_entry(PushGroup::Transactions, p.transactions) + group_entry(PushGroup::PurchaseReturns, p.purchase_returns) + group_entry(PushGroup::StockOpnames, p.stock_opnames) + group_entry(PushGroup::Payables, p.payables) + group_entry(PushGroup::PayableRealizations, p.payable_realizations) + group_entry(PushGroup::Receivables, p.receivables) + group_entry(PushGroup::ReceivableRealizations, p.receivable_realizations) + group_entry(PushGroup::SalesTransactions, p.sales_transactions), group_entry(PushGroup::CashDrawers, p.cash_drawers), x);
    lemma_entry_contains(PushGroup::Shifts, p.shifts, x);
    lemma_concat_contains(group_entry(PushGroup::PaymentMethods, p.payment_methods) + group_entry(PushGroup::Categories, p.categories) + group_entry(PushGroup::Customers, p.customers) + group_entry(PushGroup::Products, p.products) + group_entry(PushGroup::Finances, p.finances) + group_entry(PushGroup::Brands, p.brands) + group_entry(PushGroup::Discounts, p.discounts) + group_entry(PushGroup::Suppliers, p.suppliers) + group_entry(PushGroup::Purchases, p.purchases) + group_entry(PushGroup::Transactions, p.transactions) + group_entry(PushGroup::PurchaseReturns, p.purchase_returns) + group_entry(PushGroup::StockOpnames, p.stock_opnames) + group_entry(PushGroup::Payables, p.payables) + group_entry(PushGroup::PayableRealizations, p.payable_realizations) + group_entry(PushGroup::Receivables, p.receivables) + group_entry(PushGroup::ReceivableRealizations, p.receivable_realizations) + group_entry(PushGroup::SalesTransactions, p.sales_transactions) + group_entry(PushGroup::CashDrawers, p.cash_drawers), group_entry(PushGroup::Shifts, p.shifts), x);
}

/// Law: the IDs a group reports are exactly the IDs its records carry: each
/// reported ID belongs to a record, every record's ID is reported, and no more
/// IDs are reported than there are records.
pub proof fn law_present_ids_are_the_carried_ids(ids: Seq<Option<Seq<char>>>)
    ensures
        present_ids(ids).len() <= ids.len(),
        forall|j: int| 0 <= j < ids.len() && ids[j] is Some ==> present_ids(ids).contains(ids[j]->0),
        forall|k: int| 0 <= k < present_ids(ids).len() ==> ids.contains(Some(present_ids(ids)[k])),
    decreases ids.len(),
{
    if ids.len() > 0 {
        let init = ids.drop_last();
        law_present_ids_are_the_carried_ids(init);
        let tail: Seq<Seq<char>> = match ids.last() {
            Some(i) => seq![i],
            None => seq![],
        };
        assert(present_ids(ids) == present_ids(init) + tail);
        assert forall|j: int| 0 <= j < ids.len() && ids[j] is Some implies present_ids(ids).contains(ids[j]->0) by {
            if j < ids.len() - 1 {
                assert(init[j] == ids[j]);
                lemma_concat_contains(present_ids(init), tail, ids[j]->0);
            } else {
                assert(tail[0] == ids[j]->0);
                lemma_concat_contains(present_ids(init), tail, ids[j]->0);
            }
        }
        assert forall|k: int| 0 <= k < present_ids(ids).len() implies ids.contains(Some(present_ids(ids)[k])) by {
            if k < present_ids(init).len() {
                assert(present_ids(ids)[k] == present_ids(init)[k]);
                let j = choose|j: int| 0 <= j < init.len() && init[j] == Some(present_ids(init)[k]);
                assert(ids[j] == init[j]);
            } else {
                assert(ids[ids.len() - 1] == Some(present_ids(ids)[k]));
            }
        }
    }
}



// ------------------------------------------------------------------------
// Laws of the stored records
// ------------------------------------------------------------------------

/// Law: a stored pushed payment method keeps each pushed field in the column of the
/// same name (an absent optional amount stored as zero, an absent flag as its
/// default), with the record's ID, the caller's organization and the record
/// timestamps.
pub proof fn law_payment_method_stores_pushed_fields<N>(r: PaymentMethodUpsert<N>, item: PushPaymentMethodDto<N>, org_id: Seq<char>, now: SyncTimestamp, zero: N)
    requires
        payment_method_upsert_of(r, item, org_id, now, zero),
    ensures
        (r.id@ == item.id@),
        (r.name@ == item.name@),
        (r.commission == item.commission),
        (r.minimal_amount == item.minimal_amount),
        (r.organization_id@ == org_id),
        (stamps_match(r.stamps, opt_text(item.created_at), opt_text(item.deleted_at), now)),
{
}

/// Law: a stored pushed category keeps each pushed field in the column of the
/// same name (an absent optional amount stored as zero, an absent flag as its
/// default), with the record's ID, the caller's organization and the record
/// timestamps.
pub proof fn law_category_stores_pushed_fields<N>(r: CategoryUpsert<N>, item: PushCategoryDto<N>, org_id: Seq<char>, now: SyncTimestamp, zero: N)
    requires
        category_upsert_of(r, item, org_id, now, zero),
    ensures
        (r.id@ == item.id@),
        (r.name@ == item.name@),
        (r.retail_point == match item.retail_point { Some(v) => v, None => zero }),
        (r.wholesale_point == match item.wholesale_point { Some(v) => v, None => zero }),
        (opt_text(r.description) == opt_text(item.description)),
        (r.organization_id@ == org_id),
        (stamps_match(r.stamps, opt_text(item.created_at), opt_text(item.deleted_at), now)),
{
}

/// Law: a stored pushed product keeps each pushed field in the column of the
/// same name (an absent optional amount stored as zero, an absent flag as its
/// default), with the record's ID, the caller's organization and the record
/// timestamps.
pub proof fn law_product_stores_pushed_fields<N>(r: ProductUpsert<N>, item: PushProductDto<N>, org_id: Seq<char>, now: SyncTimestamp, zero: N)
    requires
        product_upsert_of(r, item, org_id, now, zero),
    ensures
        (r.id@ == item.id@),
        (r.name@ == item.name@),
        (opt_text(r.description) == opt_text(item.description)),
        (opt_text(r.barcode) == opt_text(item.barcode)),
        (r.purchase_price == match item.purchase_price { Some(v) => v, None => zero }),
        (r.is_favorite == match item.is_favorite { Some(b) => b, None => false }),
        (r.is_active == match item.is_active { Some(b) => b, None => true }),
        (r.kind == product_type_of(opt_text(item.kind))),
        (opt_text(r.unit) == opt_text(item.unit)),
        (r.minimum_stock == match item.minimum_stock { Some(v) => v, None => zero }),
        (r.category_id@ == item.category_id@),
        (opt_text(r.brand_id) == opt_text(item.brand_id)),
        (opt_text(r.discount_id) == opt_text(item.discount_id)),
        (opt_text(r.supplier_id) == opt_text(item.supplier_id)),
        (r.organization_id@ == org_id),
        (stamps_match(r.stamps, opt_text(item.created_at), opt_text(item.deleted_at), now)),
{
}

/// Law: a stored pushed price keeps each pushed field in the column of the
/// same name (an absent optional amount stored as zero, an absent flag as its
/// default), with the record's ID, the caller's organization and the record
/// timestamps.
pub proof fn law_price_stores_pushed_fields<N>(r: PriceUpsert<N>, item: PushProductPriceDto<N>, org_id: Seq<char>, now: SyncTimestamp, zero: N, parent: Seq<char>)
    requires
        price_upsert_of(r, item, org_id, now, zero, parent),
    ensures
        (r.id@ == item.id@),
        (r.label@ == item.label@),
        (r.price == item.price),
        (r.minimum_purchase == item.minimum_purchase),
        (r.product_id@ == parent),
        (r.organization_id@ == org_id),
        (r.updated_at == now),
        (r.created_at == now),
{
}

/// Law: a stored pushed finance keeps each pushed field in the column of the
/// same name (an absent optional amount stored as zero, an absent flag as its
/// default), with the record's ID, the caller's organization and the record
/// timestamps.
pub proof fn law_finance_stores_pushed_fields<N>(r: FinanceUpsert<N>, item: PushFinanceDto<N>, org_id: Seq<char>, now: SyncTimestamp, zero: N)
    requires
        finance_upsert_of(r, item, org_id, now, zero),
    ensures
        (r.id@ == item.id@),
        (r.local_ref_id@ == item.local_ref_id@),
        (r.nominal == item.nominal),
        (r.kind == finance_type_of(item.kind@)),
        (r.expenses_type == match opt_text(item.expenses_type) { Some(t) => Some(finance_expenses_type_of(t)), None => None }),
        (r.transaction_date == now),
        (r.status == finance_status_of(item.status@)),
        (opt_text(r.note) == opt_text(item.note)),
        (r.input_to_cashdrawer == match item.input_to_cashdrawer { Some(b) => b, None => false }),
        (r.organization_id@ == org_id),
        (opt_text(r.user_id) == opt_text(item.user_id)),
        (stamps_match(r.stamps, opt_text(item.created_at), opt_text(item.deleted_at), now)),
{
}

/// Law: a stored pushed discount keeps each pushed field in the column of the
/// same name (an absent optional amount stored as zero, an absent flag as its
/// default), with the record's ID, the caller's organization and the record
/// timestamps.
pub proof fn law_discount_stores_pushed_fields<N>(r: DiscountUpsert<N>, item: PushDiscountDto<N>, org_id: Seq<char>, now: SyncTimestamp, zero: N)
    requires
        discount_upsert_of(r, item, org_id, now, zero),
    ensures
        (r.id@ == item.id@),
        (r.name@ == item.name@),
        (r.nominal == item.nominal),
        (r.kind == discount_type_of(item.kind@)),
        (r.start_date == now),
        (r.end_date == now),
        (r.organization_id@ == org_id),
        (stamps_match(r.stamps, opt_text(item.created_at), opt_text(item.deleted_at), now)),
{
}

/// Law: a stored pushed purchase keeps each pushed field in the column of the
/// same name (an absent optional amount stored as zero, an absent flag as its
/// default), with the record's ID, the caller's organization and the record
/// timestamps.
pub proof fn law_purchase_stores_pushed_fields<N>(r: PurchaseUpsert<N>, id: Seq<char>, item: PushPurchaseDto<N>, org_id: Seq<char>, now: SyncTimestamp, zero: N)
    requires
        purchase_upsert_of(r, id, item, org_id, now, zero),
    ensures
        (r.id@ == id),
        (opt_text(r.local_ref_id) == Some(item.local_ref_id@)),
        (r.supplier_id@ == item.supplier_id@),
        (r.total_amount == item.total_amount),
        (r.payment_type == payment_type_of(item.payment_type@)),
        (r.status == purchase_status_of(opt_text(item.status))),
        (stamp_value(r.due_date) == optional_stamp(opt_text(item.due_date))),
        (r.organization_id@ == org_id),
        (stamps_match(r.stamps, opt_text(item.created_at), opt_text(item.deleted_at), now)),
{
}

/// Law: a stored pushed inventory transaction keeps each pushed field in the column of the
/// same name (an absent optional amount stored as zero, an absent flag as its
/// default), with the record's ID, the caller's organization and the record
/// timestamps.
pub proof fn law_inventory_transaction_stores_pushed_fields<N>(r: InventoryTransactionUpsert<N>, id: Seq<char>, item: PushTransactionDto<N>, org_id: Seq<char>, now: SyncTimestamp, zero: N)
    requires
        inventory_transaction_upsert_of(r, id, item, org_id, now, zero),
    ensures
        (r.id@ == id),
        (opt_text(r.local_ref_id) == Some(item.local_ref_id@)),
        (r.product_id@ == item.product_id@),
        (r.kind == inventory_transaction_type_of(item.kind@)),
        (r.quantity == item.quantity),
        (r.status == purchase_status_of(opt_text(item.status))),
        (opt_text(r.inventory_batch_id) == opt_text(item.inventory_batch_id)),
        (r.organization_id@ == org_id),
        (stamp_pair(r.created_at) == created_stamp(opt_text(item.created_at), now)),
        (stamp_value(r.deleted_at) == optional_stamp(opt_text(item.deleted_at))),
{
}

/// Law: a stored pushed purchase return keeps each pushed field in the column of the
/// same name (an absent optional amount stored as zero, an absent flag as its
/// default), with the record's ID, the caller's organization and the record
/// timestamps.
pub proof fn law_purchase_return_stores_pushed_fields<N>(r: PurchaseReturnUpsert<N>, id: Seq<char>, item: PushReturnDto<N>, org_id: Seq<char>, now: SyncTimestamp, zero: N)
    requires
        purchase_return_upsert_of(r, id, item, org_id, now, zero),
    ensures
        (r.id@ == id),
        (opt_text(r.local_ref_id) == Some(item.local_ref_id@)),
        (r.supplier_id@ == item.supplier_id@),
        (r.total_amount == item.total_amount),
        (r.return_type == purchase_return_type_of(item.return_type@)),
        (r.organization_id@ == org_id),
        (r.updated_at == now),
        (stamp_pair(r.created_at) == created_stamp(opt_text(item.created_at), now)),
{
}

/// Law: a stored pushed return item keeps each pushed field in the column of the
/// same name (an absent optional amount stored as zero, an absent flag as its
/// default), with the record's ID, the caller's organization and the record
/// timestamps.
pub proof fn law_return_item_stores_pushed_fields<N>(r: ReturnItemUpsert<N>, id: Seq<char>, item: PushReturnItemDto<N>, org_id: Seq<char>, now: SyncTimestamp, zero: N, parent: Seq<char>)
    requires
        return_item_upsert_of(r, id, item, org_id, now, zero, parent),
    ensures
        (r.id@ == id),
        (r.product_id@ == item.product_id@),
        (r.quantity == item.quantity),
        (r.purchase_price == item.purchase_price),
        (r.purchase_return_id@ == parent),
        (r.organization_id@ == org_id),
{
}

/// Law: a stored pushed stock opname keeps each pushed field in the column of the
/// same name (an absent optional amount stored as zero, an absent flag as its
/// default), with the record's ID, the caller's organization and the record
/// timestamps.
pub proof fn law_stock_opname_stores_pushed_fields<N>(r: StockOpnameUpsert<N>, id: Seq<char>, item: PushStockOpnameDto<N>, org_id: Seq<char>, now: SyncTimestamp, zero: N)
    requires
        stock_opname_upsert_of(r, id, item, org_id, now, zero),
    ensures
        (r.id@ == id),
        (opt_text(r.local_ref_id) == Some(item.local_ref_id@)),
        (stamp_pair(r.date) == match naive_datetime_parse(item.date@, ISO_WITH_FRACTION@) { Some(v) => v, None => stamp_pair(now) }),
        (opt_text(r.note) == opt_text(item.note)),
        (r.status == stock_opname_status_of(item.status@)),
        (r.total_gain == match item.total_gain { Some(v) => v, None => zero }),
        (r.total_loss == match item.total_loss { Some(v) => v, None => zero }),
        (opt_text(r.created_by) == Some(item.created_by@)),
        (r.organization_id@ == org_id),
        (stamps_match(r.stamps, opt_text(item.created_at), opt_text(item.deleted_at), now)),
{
}

/// Law: a stored pushed stock opname item keeps each pushed field in the column of the
/// same name (an absent optional amount stored as zero, an absent flag as its
/// default), with the record's ID, the caller's organization and the record
/// timestamps.
pub proof fn law_stock_opname_item_stores_pushed_fields<N>(r: StockOpnameItemUpsert<N>, id: Seq<char>, item: PushStockOpnameItemDto<N>, org_id: Seq<char>, now: SyncTimestamp, zero: N, parent: Seq<char>)
    requires
        stock_opname_item_upsert_of(r, id, item, org_id, now, zero, parent),
    ensures
        (r.id@ == id),
        (r.product_id@ == item.product_id@),
        (r.quantity_system == item.quantity_system),
        (r.quantity_physical == item.quantity_physical),
        (r.difference == item.difference),
        (r.purchase_price == item.purchase_price),
        (r.financial_impact == item.financial_impact),
        (r.stock_opname_id@ == parent),
        (r.organization_id@ == org_id),
{
}

/// Law: a stored pushed payable keeps each pushed field in the column of the
/// same name (an absent optional amount stored as zero, an absent flag as its
/// default), with the record's ID, the caller's organization and the record
/// timestamps.
pub proof fn law_payable_stores_pushed_fields<N>(r: PayableUpsert<N>, id: Seq<char>, item: PushPayableDto<N>, org_id: Seq<char>, now: SyncTimestamp, zero: N)
    requires
        payable_upsert_of(r, id, item, org_id, now, zero),
    ensures
        (r.id@ == id),
        (opt_text(r.local_ref_id) == opt_text(item.local_ref_id)),
        (r.nominal == item.nominal),
        (stamp_value(r.due_date) == optional_stamp(opt_text(item.due_date))),
        (opt_text(r.note) == opt_text(item.note)),
        (r.supplier_id@ == item.supplier_id@),
        (r.organization_id@ == org_id),
        (stamps_match(r.stamps, opt_text(item.created_at), opt_text(item.deleted_at), now)),
{
}

/// Law: a stored pushed payable realization keeps each pushed field in the column of the
/// same name (an absent optional amount stored as zero, an absent flag as its
/// default), with the record's ID, the caller's organization and the record
/// timestamps.
pub proof fn law_payable_realization_stores_pushed_fields<N>(r: PayableRealizationUpsert<N>, id: Seq<char>, item: PushPayableRealizationDto<N>, org_id: Seq<char>, now: SyncTimestamp, zero: N)
    requires
        payable_realization_upsert_of(r, id, item, org_id, now, zero),
    ensures
        (r.id@ == id),
        (opt_text(r.local_ref_id) == opt_text(item.local_ref_id)),
        (r.payable_id@ == item.payable_id@),
        (r.nominal == item.nominal),
        (stamp_pair(r.realization_date) == created_stamp(opt_text(item.realization_date), now)),
        (r.payment_method_id@ == item.payment_method_id@),
        (opt_text(r.note) == opt_text(item.note)),
        (r.organization_id@ == org_id),
        (stamps_match(r.stamps, opt_text(item.created_at), opt_text(item.deleted_at), now)),
{
}

/// Law: a stored pushed receivable keeps each pushed field in the column of the
/// same name (an absent optional amount stored as zero, an absent flag as its
/// default), with the record's ID, the caller's organization and the record
/// timestamps.
pub proof fn law_receivable_stores_pushed_fields<N>(r: ReceivableUpsert<N>, id: Seq<char>, item: PushReceivableDto<N>, org_id: Seq<char>, now: SyncTimestamp, zero: N)
    requires
        receivable_upsert_of(r, id, item, org_id, now, zero),
    ensures
        (r.id@ == id),
        (opt_text(r.local_ref_id) == opt_text(item.local_ref_id)),
        (r.nominal == item.nominal),
        (stamp_value(r.due_date) == optional_stamp(opt_text(item.due_date))),
        (opt_text(r.note) == opt_text(item.note)),
        (r.user_id@ == item.customer_id@),
        (r.organization_id@ == org_id),
        (stamps_match(r.stamps, opt_text(item.created_at), opt_text(item.deleted_at), now)),
{
}

/// Law: a stored pushed receivable realization keeps each pushed field in the column of the
/// same name (an absent optional amount stored as zero, an absent flag as its
/// default), with the record's ID, the caller's organization and the record
/// timestamps.
pub proof fn law_receivable_realization_stores_pushed_fields<N>(r: ReceivableRealizationUpsert<N>, id: Seq<char>, item: PushReceivableRealizationDto<N>, org_id: Seq<char>, now: SyncTimestamp, zero: N)
    requires
        receivable_realization_upsert_of(r, id, item, org_id, now, zero),
    ensures
        (r.id@ == id),
        (opt_text(r.local_ref_id) == opt_text(item.local_ref_id)),
        (r.receivable_id@ == item.receivable_id@),
        (r.nominal == item.nominal),
        (stamp_pair(r.realization_date) == created_stamp(opt_text(item.realization_date), now)),
        (r.payment_method_id@ == item.payment_method_id@),
        (opt_text(r.note) == opt_text(item.note)),
        (r.organization_id@ == org_id),
        (stamps_match(r.stamps, opt_text(item.created_at), opt_text(item.deleted_at), now)),
{
}

/// Law: a stored pushed sale keeps each pushed field in the column of the
/// same name (an absent optional amount stored as zero, an absent flag as its
/// default), with the record's ID, the caller's organization and the record
/// timestamps.
pub proof fn law_sale_stores_pushed_fields<N>(r: SaleUpsert<N>, id: Seq<char>, item: PushSalesTransactionDto<N>, org_id: Seq<char>, now: SyncTimestamp, zero: N)
    requires
        sale_upsert_of(r, id, item, org_id, now, zero),
    ensures
        (r.id@ == id),
        (r.local_ref_id@ == item.local_ref_id@),
        (opt_text(r.customer_id) == opt_text(item.customer_id)),
        (r.total_amount == item.total_amount),
        (r.total_paid == item.total_paid),
        (r.payment_type_id@ == item.payment_type_id@),
        (stamp_pair(r.transaction_date) == match naive_datetime_parse(item.transaction_date@, ISO_WITH_FRACTION@) { Some(v) => v, None => stamp_pair(now) }),
        (r.status == transaction_status_of(item.status@)),
        (opt_text(r.note) == opt_text(item.note)),
        (r.organization_id@ == org_id),
        (stamps_match(r.stamps, opt_text(item.created_at), opt_text(item.deleted_at), now)),
{
}

/// Law: a stored pushed sale item keeps each pushed field in the column of the
/// same name (an absent optional amount stored as zero, an absent flag as its
/// default), with the record's ID, the caller's organization and the record
/// timestamps.
pub proof fn law_sale_item_stores_pushed_fields<N>(r: SaleItemUpsert<N>, id: Seq<char>, item: PushSalesTransactionItemDto<N>, org_id: Seq<char>, now: SyncTimestamp, zero: N, parent: Seq<char>)
    requires
        sale_item_upsert_of(r, id, item, org_id, now, zero, parent),
    ensures
        (r.id@ == id),
        (r.transaction_id@ == parent),
        (r.product_id@ == item.product_id@),
        (r.quantity == item.quantity),
        (r.sell_price == item.sell_price),
        (opt_text(r.note) == opt_text(item.note)),
        (r.organization_id@ == org_id),
        (stamps_match(r.stamps, opt_text(item.created_at), opt_text(item.deleted_at), now)),
{
}

/// Law: a stored pushed shift keeps each pushed field in the column of the
/// same name (an absent optional amount stored as zero, an absent flag as its
/// default), with the record's ID, the caller's organization and the record
/// timestamps.
pub proof fn law_shift_stores_pushed_fields<N>(r: ShiftUpsert<N>, id: Seq<char>, item: PushShiftDto<N>, org_id: Seq<char>, now: SyncTimestamp, zero: N)
    requires
        shift_upsert_of(r, id, item, org_id, now, zero),
    ensures
        (r.id@ == id),
        (r.local_ref_id@ == item.local_ref_id@),
        (r.cash_drawer_id@ == item.cash_drawer_id@),
        (r.user_id@ == item.user_id@),
        (stamp_pair(r.start_time) == match naive_datetime_parse(item.start_time@, ISO_WITH_FRACTION@) { Some(v) => v, None => stamp_pair(now) }),
        (stamp_value(r.end_time) == optional_stamp(opt_text(item.end_time))),
        (r.initial_balance == item.initial_balance),
        (r.final_balance == item.final_balance),
        (r.expected_balance == item.expected_balance),
        (r.difference == item.difference),
        (r.status == shift_status_of(item.status@)),
        (opt_text(r.note) == opt_text(item.note)),
        (r.organization_id@ == org_id),
        (stamps_match(r.stamps, opt_text(item.created_at), opt_text(item.deleted_at), now)),
{
}


/// Law: every pushed record is reported by its own ID field: the records
/// that always carry an ID report it, the others report theirs when they
/// carry one and are skipped otherwise.
pub proof fn law_records_report_their_own_ids<N>(
    r0: PushPaymentMethodDto<N>,
    r1: PushCategoryDto<N>,
    r2: PushCustomerDto,
    r3: PushProductDto<N>,
    r4: PushFinanceDto<N>,
    r5: PushBrandDto,
    r6: PushDiscountDto<N>,
    r7: PushSupplierDto,
    r8: PushPurchaseDto<N>,
    r9: PushTransactionDto<N>,
    r10: PushReturnDto<N>,
    r11: PushStockOpnameDto<N>,
    r12: PushPayableDto<N>,
    r13: PushPayableRealizationDto<N>,
    r14: PushReceivableDto<N>,
    r15: PushReceivableRealizationDto<N>,
    r16: PushSalesTransactionDto<N>,
    r17: PushCashDrawerDto,
    r18: PushShiftDto<N>,
)
    ensures
        r0.record_id() == Some(r0.id@),
        r1.record_id() == Some(r1.id@),
        r2.record_id() == Some(r2.id@),
        r3.record_id() == Some(r3.id@),
        r4.record_id() == Some(r4.id@),
        r5.record_id() == Some(r5.id@),
        r6.record_id() == Some(r6.id@),
        r7.record_id() == Some(r7.id@),
        r8.record_id() == (match r8.id { Some(s) => Some(s@), None => None }),
        r9.record_id() == (match r9.id { Some(s) => Some(s@), None => None }),
        r10.record_id() == (match r10.id { Some(s) => Some(s@), None => None }),
        r11.record_id() == (match r11.id { Some(s) => Some(s@), None => None }),
        r12.record_id() == (match r12.id { Some(s) => Some(s@), None => None }),
        r13.record_id() == (match r13.id { Some(s) => Some(s@), None => None }),
        r14.record_id() == (match r14.id { Some(s) => Some(s@), None => None }),
        r15.record_id() == (match r15.id { Some(s) => Some(s@), None => None }),
        r16.record_id() == (match r16.id { Some(s) => Some(s@), None => None }),
        r17.record_id() == Some(r17.id@),
        r18.record_id() == (match r18.id { Some(s) => Some(s@), None => None }),
{
}


} // verus!
