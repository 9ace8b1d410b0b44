//! Offline sync: what a pushed batch of records becomes on the server, how the
//! client's timestamps are read, and which records an incremental pull returns.
use vstd::prelude::*;
use vstd::string::*;
use crate::text::str_equal;

verus! {

/// The price category of a customer.
#[derive(Debug, Clone, Copy, PartialEq, Eq, Structural)]
pub enum CustomerCategory {
    /// Buys at wholesale prices.
    Wholesale,
    /// Buys at retail prices.
    Retail,
}

/// The CustomerCategory an optional pushed text stands for (`Retail` when absent or unknown).
pub open spec fn customer_category_of(s: Option<Seq<char>>) -> CustomerCategory {
    match s {
        Some(t) => 
            if t == "WHOLESALE"@ { CustomerCategory::Wholesale } else if t == "RETAIL"@ { CustomerCategory::Retail } else { CustomerCategory::Retail },
        None => CustomerCategory::Retail,
    }
}

/// Reads an optional pushed customer category text.
pub fn customer_category_from(s: Option<&str>) -> (r: CustomerCategory)
    ensures
        r == customer_category_of(match s { Some(t) => Some(t@), None => None }),
{
    match s {
        Some(t) => {
            if str_equal(t, "WHOLESALE") {
                CustomerCategory::Wholesale
            } else if str_equal(t, "RETAIL") {
                CustomerCategory::Retail
            } else {
                CustomerCategory::Retail
            }
        },
        None => CustomerCategory::Retail,
    }
}

/// How a product is sold.
#[derive(Debug, Clone, Copy, PartialEq, Eq, Structural)]
pub enum ProductType {
    /// A plain product.
    Default,
    /// A product with variants.
    Variants,
    /// A product sold in several units.
    Multiunit,
}

/// The ProductType an optional pushed text stands for (`Default` when absent or unknown).
pub open spec fn product_type_of(s: Option<Seq<char>>) -> ProductType {
    match s {
        Some(t) => 
            if t == "VARIANTS"@ { ProductType::Variants } else if t == "MULTIUNIT"@ { ProductType::Multiunit } else { ProductType::Default },
        None => ProductType::Default,
    }
}

/// Reads an optional pushed product type text.
pub fn product_type_from(s: Option<&str>) -> (r: ProductType)
    ensures
        r == product_type_of(match s { Some(t) => Some(t@), None => None }),
{
    match s {
        Some(t) => {
            if str_equal(t, "VARIANTS") {
                ProductType::Variants
            } else if str_equal(t, "MULTIUNIT") {
                ProductType::Multiunit
            } else {
                ProductType::Default
            }
        },
        None => ProductType::Default,
    }
}

/// Status of a finance entry.
#[derive(Debug, Clone, Copy, PartialEq, Eq, Structural)]
pub enum FinanceStatus {
    /// Booked.
    Completed,
    /// Not yet booked.
    Draft,
}

/// The FinanceStatus a pushed text stands for (`Draft` for any other text).
pub open spec fn finance_status_of(s: Seq<char>) -> FinanceStatus {
    if s == "COMPLETED"@ {
        FinanceStatus::Completed
    } else {
        FinanceStatus::Draft
    }
}

/// Reads a pushed finance status text.
pub fn finance_status_from(s: &str) -> (r: FinanceStatus)
    ensures
        r == finance_status_of(s@),
{
    if str_equal(s, "COMPLETED") {
        FinanceStatus::Completed
    } else {
        FinanceStatus::Draft
    }
}

/// Direction of a finance entry.
#[derive(Debug, Clone, Copy, PartialEq, Eq, Structural)]
pub enum FinanceType {
    /// Money in.
    Income,
    /// Money out.
    Expenses,
}

/// The FinanceType a pushed text stands for (`Income` for any other text).
pub open spec fn finance_type_of(s: Seq<char>) -> FinanceType {
    if s == "INCOME"@ {
        FinanceType::Income
    } else if s == "EXPENSES"@ {
        FinanceType::Expenses
    } else {
        FinanceType::Income
    }
}

/// Reads a pushed finance type text.
pub fn finance_type_from(s: &str) -> (r: FinanceType)
    ensures
        r == finance_type_of(s@),
{
    if str_equal(s, "INCOME") {
        FinanceType::Income
    } else if str_equal(s, "EXPENSES") {
        FinanceType::Expenses
    } else {
        FinanceType::Income
    }
}

/// What an expense was for.
#[derive(Debug, Clone, Copy, PartialEq, Eq, Structural)]
pub enum FinanceExpensesType {
    /// Running the store.
    StoreExpenses,
    /// Consumable supplies.
    Supplies,
    /// Equipment.
    Equipment,
}

/// The FinanceExpensesType a pushed text stands for (`StoreExpenses` for any other text).
pub open spec fn finance_expenses_type_of(s: Seq<char>) -> FinanceExpensesType {
    if s == "STORE_EXPENSES"@ {
        FinanceExpensesType::StoreExpenses
    } else if s == "SUPPLIES"@ {
        FinanceExpensesType::Supplies
    } else if s == "EQUIPMENT"@ {
        FinanceExpensesType::Equipment
    } else {
        FinanceExpensesType::StoreExpenses
    }
}

/// Reads an optional pushed finance expenses type text; absent stays absent.
pub fn finance_expenses_type_from(s: Option<&str>) -> (r: Option<FinanceExpensesType>)
    ensures
        r == match s { Some(t) => Some(finance_expenses_type_of(t@)), None => None },
{
    match s {
        Some(t) => Some(
            if str_equal(t, "STORE_EXPENSES") { FinanceExpensesType::StoreExpenses } else if str_equal(t, "SUPPLIES") { FinanceExpensesType::Supplies } else if str_equal(t, "EQUIPMENT") { FinanceExpensesType::Equipment } else { FinanceExpensesType::StoreExpenses },
        ),
        None => None,
    }
}

/// How a discount's nominal is applied.
#[derive(Debug, Clone, Copy, PartialEq, Eq, Structural)]
pub enum DiscountType {
    /// A percentage of the price.
    Percentage,
    /// A fixed amount.
    Flat,
}

/// The DiscountType a pushed text stands for (`Flat` for any other text).
pub open spec fn discount_type_of(s: Seq<char>) -> DiscountType {
    if s == "PERCENTAGE"@ {
        DiscountType::Percentage
    } else if s == "FLAT"@ {
        DiscountType::Flat
    } else {
        DiscountType::Flat
    }
}

/// Reads a pushed discount type text.
pub fn discount_type_from(s: &str) -> (r: DiscountType)
    ensures
        r == discount_type_of(s@),
{
    if str_equal(s, "PERCENTAGE") {
        DiscountType::Percentage
    } else if str_equal(s, "FLAT") {
        DiscountType::Flat
    } else {
        DiscountType::Flat
    }
}

/// Status of a purchase or inventory transaction.
#[derive(Debug, Clone, Copy, PartialEq, Eq, Structural)]
pub enum PurchaseStatus {
    /// Received.
    Completed,
    /// Not yet received.
    Draft,
}

/// The PurchaseStatus an optional pushed text stands for (`Draft` when absent or unknown).
pub open spec fn purchase_status_of(s: Option<Seq<char>>) -> PurchaseStatus {
    match s {
        Some(t) => 
            if t == "COMPLETED"@ { PurchaseStatus::Completed } else { PurchaseStatus::Draft },
        None => PurchaseStatus::Draft,
    }
}

/// Reads an optional pushed purchase status text.
pub fn purchase_status_from(s: Option<&str>) -> (r: PurchaseStatus)
    ensures
        r == purchase_status_of(match s { Some(t) => Some(t@), None => None }),
{
    match s {
        Some(t) => {
            if str_equal(t, "COMPLETED") {
                PurchaseStatus::Completed
            } else {
                PurchaseStatus::Draft
            }
        },
        None => PurchaseStatus::Draft,
    }
}

/// How a purchase is paid.
#[derive(Debug, Clone, Copy, PartialEq, Eq, Structural)]
pub enum PaymentType {
    /// Paid at once.
    Cash,
    /// Paid later.
    Debt,
}

/// The PaymentType a pushed text stands for (`Cash` for any other text).
pub open spec fn payment_type_of(s: Seq<char>) -> PaymentType {
    if s == "CASH"@ {
        PaymentType::Cash
    } else if s == "DEBT"@ {
        PaymentType::Debt
    } else {
        PaymentType::Cash
    }
}

/// Reads a pushed payment type text.
pub fn payment_type_from(s: &str) -> (r: PaymentType)
    ensures
        r == payment_type_of(s@),
{
    if str_equal(s, "CASH") {
        PaymentType::Cash
    } else if str_equal(s, "DEBT") {
        PaymentType::Debt
    } else {
        PaymentType::Cash
    }
}

/// What moved stock.
#[derive(Debug, Clone, Copy, PartialEq, Eq, Structural)]
pub enum InventoryTransactionType {
    /// A purchase.
    Purchase,
    /// A sale.
    Sale,
    /// A purchase return.
    ReturnPurchase,
    /// A stock count.
    StockOpname,
    /// A manual adjustment.
    Adjustment,
}

/// The InventoryTransactionType a pushed text stands for (`Sale` for any other text).
pub open spec fn inventory_transaction_type_of(s: Seq<char>) -> InventoryTransactionType {
    if s == "PURCHASE"@ {
        InventoryTransactionType::Purchase
    } else if s == "SALE"@ {
        InventoryTransactionType::Sale
    } else if s == "RETURN_PURCHASE"@ {
        InventoryTransactionType::ReturnPurchase
    } else if s == "STOCK_OPNAME"@ {
        InventoryTransactionType::StockOpname
    } else if s == "ADJUSTMENT"@ {
        InventoryTransactionType::Adjustment
    } else {
        InventoryTransactionType::Sale
    }
}

/// Reads a pushed inventory transaction type text.
pub fn inventory_transaction_type_from(s: &str) -> (r: InventoryTransactionType)
    ensures
        r == inventory_transaction_type_of(s@),
{
    if str_equal(s, "PURCHASE") {
        InventoryTransactionType::Purchase
    } else if str_equal(s, "SALE") {
        InventoryTransactionType::Sale
    } else if str_equal(s, "RETURN_PURCHASE") {
        InventoryTransactionType::ReturnPurchase
    } else if str_equal(s, "STOCK_OPNAME") {
        InventoryTransactionType::StockOpname
    } else if str_equal(s, "ADJUSTMENT") {
        InventoryTransactionType::Adjustment
    } else {
        InventoryTransactionType::Sale
    }
}

/// How a purchase return is settled.
#[derive(Debug, Clone, Copy, PartialEq, Eq, Structural)]
pub enum PurchaseReturnType {
    /// Refunded in cash.
    Cash,
    /// Replaced by items.
    Item,
}

/// The PurchaseReturnType a pushed text stands for (`Cash` for any other text).
pub open spec fn purchase_return_type_of(s: Seq<char>) -> PurchaseReturnType {
    if s == "CASH"@ {
        PurchaseReturnType::Cash
    } else if s == "ITEM"@ {
        PurchaseReturnType::Item
    } else {
        PurchaseReturnType::Cash
    }
}

/// Reads a pushed purchase return type text.
pub fn purchase_return_type_from(s: &str) -> (r: PurchaseReturnType)
    ensures
        r == purchase_return_type_of(s@),
{
    if str_equal(s, "CASH") {
        PurchaseReturnType::Cash
    } else if str_equal(s, "ITEM") {
        PurchaseReturnType::Item
    } else {
        PurchaseReturnType::Cash
    }
}

/// Outcome of a stock count.
#[derive(Debug, Clone, Copy, PartialEq, Eq, Structural)]
pub enum StockOpnameStatus {
    /// Counted stock differs.
    Difference,
    /// Counted stock matches.
    Done,
}

/// The StockOpnameStatus a pushed text stands for (`Done` for any other text).
pub open spec fn stock_opname_status_of(s: Seq<char>) -> StockOpnameStatus {
    if s == "DIFFERENCE"@ {
        StockOpnameStatus::Difference
    } else if s == "DONE"@ {
        StockOpnameStatus::Done
    } else {
        StockOpnameStatus::Done
    }
}

/// Reads a pushed stock opname status text.
pub fn stock_opname_status_from(s: &str) -> (r: StockOpnameStatus)
    ensures
        r == stock_opname_status_of(s@),
{
    if str_equal(s, "DIFFERENCE") {
        StockOpnameStatus::Difference
    } else if str_equal(s, "DONE") {
        StockOpnameStatus::Done
    } else {
        StockOpnameStatus::Done
    }
}

/// Status of a sales transaction.
#[derive(Debug, Clone, Copy, PartialEq, Eq, Structural)]
pub enum TransactionStatus {
    /// Not yet completed.
    Draft,
    /// Completed.
    Completed,
}

/// The TransactionStatus a pushed text stands for (`Completed` for any other text).
pub open spec fn transaction_status_of(s: Seq<char>) -> TransactionStatus {
    if s == "DRAFT"@ {
        TransactionStatus::Draft
    } else if s == "COMPLETED"@ {
        TransactionStatus::Completed
    } else {
        TransactionStatus::Completed
    }
}

/// Reads a pushed transaction status text.
pub fn transaction_status_from(s: &str) -> (r: TransactionStatus)
    ensures
        r == transaction_status_of(s@),
{
    if str_equal(s, "DRAFT") {
        TransactionStatus::Draft
    } else if str_equal(s, "COMPLETED") {
        TransactionStatus::Completed
    } else {
        TransactionStatus::Completed
    }
}

/// Status of a cashier shift.
#[derive(Debug, Clone, Copy, PartialEq, Eq, Structural)]
pub enum ShiftStatus {
    /// Open.
    Active,
    /// Closed.
    Closed,
}

/// The ShiftStatus a pushed text stands for (`Active` for any other text).
pub open spec fn shift_status_of(s: Seq<char>) -> ShiftStatus {
    if s == "ACTIVE"@ {
        ShiftStatus::Active
    } else if s == "CLOSED"@ {
        ShiftStatus::Closed
    } else {
        ShiftStatus::Active
    }
}

/// Reads a pushed shift status text.
pub fn shift_status_from(s: &str) -> (r: ShiftStatus)
    ensures
        r == shift_status_of(s@),
{
    if str_equal(s, "ACTIVE") {
        ShiftStatus::Active
    } else if str_equal(s, "CLOSED") {
        ShiftStatus::Closed
    } else {
        ShiftStatus::Active
    }
}

// ------------------------------------------------------------------------
// Timestamps
// ------------------------------------------------------------------------

/// A UTC date-time as whole seconds since the UNIX epoch and the nanoseconds
/// within that second.
#[derive(Debug, Clone, Copy, PartialEq, Eq, Structural)]
pub struct SyncTimestamp {
    /// Seconds since the epoch.
    pub secs: i64,
    /// Nanoseconds within the second.
    pub nanos: u32,
}

/// The plain value of an optional timestamp.
pub open spec fn stamp_value(t: Option<SyncTimestamp>) -> Option<(i64, u32)> {
    match t {
        Some(v) => Some((v.secs, v.nanos)),
        None => None,
    }
}

/// What `chrono::NaiveDateTime::parse_from_str` returns for a text and a
/// format, read as a UTC date-time (seconds and nanoseconds), if it parses.
pub uninterp spec fn naive_datetime_parse(s: Seq<char>, fmt: Seq<char>) -> Option<(i64, u32)>;

/// `chrono::NaiveDateTime::parse_from_str`, read as a UTC date-time.
///
/// The contract names the parser's result; chrono's format grammar is not
/// restated.
#[verifier::external_body]
fn parse_naive_datetime(s: &str, fmt: &str) -> (r: Option<SyncTimestamp>)
    ensures
        stamp_value(r) == naive_datetime_parse(s@, fmt@),
{
    match chrono::NaiveDateTime::parse_from_str(s, fmt) {
        Ok(t) => Some(SyncTimestamp { secs: t.and_utc().timestamp(), nanos: t.and_utc().timestamp_subsec_nanos() }),
        Err(_) => None,
    }
}

/// The client's full timestamp format: ISO 8601 with fractional seconds and `Z`.
pub const ISO_WITH_FRACTION: &'static str = "%Y-%m-%dT%H:%M:%S%.fZ";

/// The client's short timestamp format: ISO 8601 without fraction or zone.
pub const ISO_PLAIN: &'static str = "%Y-%m-%dT%H:%M:%S";

/// A client timestamp read with the full format, or else with the short one.
pub open spec fn client_stamp(s: Seq<char>) -> Option<(i64, u32)> {
    match naive_datetime_parse(s, ISO_WITH_FRACTION@) {
        Some(t) => Some(t),
        None => naive_datetime_parse(s, ISO_PLAIN@),
    }
}

/// Reads a client timestamp: the full format first, then the short one.
pub fn parse_client_timestamp(s: &str) -> (r: Option<SyncTimestamp>)
    ensures
        stamp_value(r) == client_stamp(s@),
{
    match parse_naive_datetime(s, ISO_WITH_FRACTION) {
        Some(t) => Some(t),
        None => parse_naive_datetime(s, ISO_PLAIN),
    }
}

/// An optional client timestamp: absent or unreadable texts give `None`.
pub open spec fn optional_stamp(s: Option<Seq<char>>) -> Option<(i64, u32)> {
    match s {
        Some(t) => client_stamp(t),
        None => None,
    }
}

/// Reads an optional client timestamp.
pub fn parse_date_opt(s: Option<&str>) -> (r: Option<SyncTimestamp>)
    ensures
        stamp_value(r) == optional_stamp(match s { Some(t) => Some(t@), None => None }),
{
    match s {
        Some(t) => parse_client_timestamp(t),
        None => None,
    }
}

/// An optional client timestamp, or `now` when it is absent or unreadable.
pub fn stamp_or_now(s: Option<&str>, now: SyncTimestamp) -> (r: SyncTimestamp)
    ensures
        Some((r.secs, r.nanos)) == match optional_stamp(match s { Some(t) => Some(t@), None => None }) {
            Some(v) => Some(v),
            None => Some((now.secs, now.nanos)),
        },
{
    match parse_date_opt(s) {
        Some(t) => t,
        None => now,
    }
}

/// A required client timestamp in the full format, or `now` when unreadable.
pub fn strict_stamp_or_now(s: &str, now: SyncTimestamp) -> (r: SyncTimestamp)
    ensures
        Some((r.secs, r.nanos)) == match naive_datetime_parse(s@, ISO_WITH_FRACTION@) {
            Some(v) => Some(v),
            None => Some((now.secs, now.nanos)),
        },
{
    match parse_naive_datetime(s, ISO_WITH_FRACTION) {
        Some(t) => t,
        None => now,
    }
}

/// Why an incremental pull request was refused.
pub open spec fn since_error(since: Option<Seq<char>>) -> Option<Seq<char>> {
    match since {
        None => Some("Missing 'since' parameter"@),
        Some(s) => if client_stamp(s) is None {
            Some("Invalid 'since' format"@)
        } else {
            None
        },
    }
}

/// Reads the `since` parameter of an incremental pull: missing and unreadable
/// values are refused with their own messages.
pub fn parse_since(since: Option<&str>) -> (r: Result<SyncTimestamp, String>)
    ensures
        match r {
            Ok(t) => since_error(match since { Some(s) => Some(s@), None => None }) is None
                && client_stamp(since->0@) == Some((t.secs, t.nanos)),
            Err(m) => since_error(match since { Some(s) => Some(s@), None => None }) == Some(m@),
        },
{
    match since {
        None => Err(String::from_str("Missing 'since' parameter")),
        Some(s) => match parse_client_timestamp(s) {
            Some(t) => Ok(t),
            None => Err(String::from_str("Invalid 'since' format")),
        },
    }
}

/// The `since` of a bootstrap pull: the epoch, written in the short format.
pub fn bootstrap_since() -> (r: Option<SyncTimestamp>)
    ensures
        stamp_value(r) == naive_datetime_parse("1970-01-01T00:00:00"@, ISO_PLAIN@),
{
    parse_naive_datetime("1970-01-01T00:00:00", ISO_PLAIN)
}

// ------------------------------------------------------------------------
// Pushed records
// ------------------------------------------------------------------------

/// A pushed brand.
#[derive(Debug, Clone)]
pub struct PushBrandDto {
    pub id: String,
    pub name: String,
    pub description: Option<String>,
    pub organization_id: Option<String>,
    pub created_at: Option<String>,
    pub updated_at: Option<String>,
    pub deleted_at: Option<String>,
}

/// A pushed product variant.
#[derive(Debug, Clone)]
pub struct PushProductVariantDto {
    pub id: String,
    pub name: String,
    pub code: String,
    pub product_id: Option<String>,
    pub organization_id: Option<String>,
    pub created_at: Option<String>,
    pub updated_at: Option<String>,
    pub deleted_at: Option<String>,
}

/// A pushed customer.
#[derive(Debug, Clone)]
pub struct PushCustomerDto {
    pub id: String,
    pub name: String,
    pub category: Option<String>,
    pub code: Option<String>,
    pub phone: Option<String>,
    pub address: Option<String>,
    pub organization_id: Option<String>,
    pub created_at: Option<String>,
    pub updated_at: Option<String>,
    pub deleted_at: Option<String>,
}

/// A pushed supplier.
#[derive(Debug, Clone)]
pub struct PushSupplierDto {
    pub id: String,
    pub name: String,
    pub phone: Option<String>,
    pub address: Option<String>,
    pub organization_id: Option<String>,
    pub created_at: Option<String>,
    pub updated_at: Option<String>,
    pub deleted_at: Option<String>,
}

/// A pushed cash drawer.
#[derive(Debug, Clone)]
pub struct PushCashDrawerDto {
    pub id: String,
    pub local_ref_id: Option<String>,
    pub name: String,
    pub description: Option<String>,
    pub is_active: bool,
    pub organization_id: Option<String>,
    pub created_at: Option<String>,
    pub updated_at: Option<String>,
    pub deleted_at: Option<String>,
}

/// The timestamps every upserted record carries: updated now, created at the
/// client's creation time (or now), deleted at the client's deletion time.
#[derive(Debug, Clone, Copy, PartialEq, Eq, Structural)]
pub struct RecordStamps {
    /// When the server wrote the record.
    pub updated_at: SyncTimestamp,
    /// When the record was created.
    pub created_at: SyncTimestamp,
    /// When the record was deleted, if it was.
    pub deleted_at: Option<SyncTimestamp>,
}

/// The timestamps an upsert stores for a pushed record.
pub open spec fn stamps_match(
    r: RecordStamps,
    created: Option<Seq<char>>,
    deleted: Option<Seq<char>>,
    now: SyncTimestamp,
) -> bool {
    &&& r.updated_at == now
    &&& Some((r.created_at.secs, r.created_at.nanos)) == match optional_stamp(created) {
        Some(v) => Some(v),
        None => Some((now.secs, now.nanos)),
    }
    &&& stamp_value(r.deleted_at) == optional_stamp(deleted)
}

/// The plain text of an optional string.
pub open spec fn opt_text(s: Option<String>) -> Option<Seq<char>> {
    match s {
        Some(t) => Some(t@),
        None => None,
    }
}

/// Copies an optional string.
pub(crate) fn copy_opt(s: &Option<String>) -> (r: Option<String>)
    ensures
        opt_text(r) == opt_text(*s),
{
    match s {
        Some(t) => Some(String::from_str(t.as_str())),
        None => None,
    }
}

/// Borrows the text of an optional string.
pub(crate) fn as_opt_str(s: &Option<String>) -> (r: Option<&str>)
    ensures
        match r {
            Some(t) => opt_text(*s) == Some(t@),
            None => s is None,
        },
{
    match s {
        Some(t) => Some(t.as_str()),
        None => None,
    }
}

/// The plain value of a timestamp.
pub open spec fn stamp_pair(t: SyncTimestamp) -> (i64, u32) {
    (t.secs, t.nanos)
}

/// The creation time an upsert stores: the client's, or `now` when it is
/// absent or unreadable.
pub open spec fn created_stamp(created: Option<Seq<char>>, now: SyncTimestamp) -> (i64, u32) {
    match optional_stamp(created) {
        Some(v) => v,
        None => stamp_pair(now),
    }
}

/// Computes the timestamps of an upserted record.
pub fn record_stamps(created_at: &Option<String>, deleted_at: &Option<String>, now: SyncTimestamp) -> (r:
    RecordStamps)
    ensures
        stamps_match(r, opt_text(*created_at), opt_text(*deleted_at), now),
{
    let c = match created_at {
        Some(t) => stamp_or_now(Some(t.as_str()), now),
        None => stamp_or_now(None, now),
    };
    let d = match deleted_at {
        Some(t) => parse_date_opt(Some(t.as_str())),
        None => parse_date_opt(None),
    };
    RecordStamps { updated_at: now, created_at: c, deleted_at: d }
}

/// The stored form of a pushed brand.
#[derive(Debug, Clone)]
pub struct BrandUpsert {
    pub id: String,
    pub name: String,
    pub description: Option<String>,
    pub organization_id: String,
    pub stamps: RecordStamps,
}

/// The stored form of a pushed brand: the client's fields, the caller's
/// organization, and the record timestamps.
pub fn brand_upsert(item: &PushBrandDto, org_id: &str, now: SyncTimestamp) -> (r: BrandUpsert)
    ensures
        r.id@ == item.id@,
        r.name@ == item.name@,
        opt_text(r.description) == opt_text(item.description),
        r.organization_id@ == org_id@,
        stamps_match(r.stamps, opt_text(item.created_at), opt_text(item.deleted_at), now),
{
    BrandUpsert {
        id: String::from_str(item.id.as_str()),
        name: String::from_str(item.name.as_str()),
        description: copy_opt(&item.description),
        organization_id: String::from_str(org_id),
        stamps: record_stamps(&item.created_at, &item.deleted_at, now),
    }
}

/// The stored form of a pushed customer.
#[derive(Debug, Clone)]
pub struct CustomerUpsert {
    pub id: String,
    pub name: String,
    pub category: CustomerCategory,
    pub code: Option<String>,
    pub phone: Option<String>,
    pub address: Option<String>,
    pub organization_id: Option<String>,
    pub stamps: RecordStamps,
}

/// The stored form of a pushed customer: the client's fields, the category
/// read from its text, the caller's organization, and the record timestamps.
pub fn customer_upsert(item: &PushCustomerDto, org_id: &str, now: SyncTimestamp) -> (r: CustomerUpsert)
    ensures
        r.id@ == item.id@,
        r.name@ == item.name@,
        r.category == customer_category_of(opt_text(item.category)),
        opt_text(r.code) == opt_text(item.code),
        opt_text(r.phone) == opt_text(item.phone),
        opt_text(r.address) == opt_text(item.address),
        opt_text(r.organization_id) == Some(org_id@),
        stamps_match(r.stamps, opt_text(item.created_at), opt_text(item.deleted_at), now),
{
    let category = match &item.category {
        Some(c) => customer_category_from(Some(c.as_str())),
        None => customer_category_from(None),
    };
    CustomerUpsert {
        id: String::from_str(item.id.as_str()),
        name: String::from_str(item.name.as_str()),
        category,
        code: copy_opt(&item.code),
        phone: copy_opt(&item.phone),
        address: copy_opt(&item.address),
        organization_id: Some(String::from_str(org_id)),
        stamps: record_stamps(&item.created_at, &item.deleted_at, now),
    }
}

/// The stored form of a pushed supplier.
#[derive(Debug, Clone)]
pub struct SupplierUpsert {
    pub id: String,
    pub name: String,
    pub phone: Option<String>,
    pub address: Option<String>,
    pub organization_id: String,
    pub stamps: RecordStamps,
}

/// The stored form of a pushed supplier.
pub fn supplier_upsert(item: &PushSupplierDto, org_id: &str, now: SyncTimestamp) -> (r: SupplierUpsert)
    ensures
        r.id@ == item.id@,
        r.name@ == item.name@,
        opt_text(r.phone) == opt_text(item.phone),
        opt_text(r.address) == opt_text(item.address),
        r.organization_id@ == org_id@,
        stamps_match(r.stamps, opt_text(item.created_at), opt_text(item.deleted_at), now),
{
    SupplierUpsert {
        id: String::from_str(item.id.as_str()),
        name: String::from_str(item.name.as_str()),
        phone: copy_opt(&item.phone),
        address: copy_opt(&item.address),
        organization_id: String::from_str(org_id),
        stamps: record_stamps(&item.created_at, &item.deleted_at, now),
    }
}

/// The stored form of a pushed cash drawer.
#[derive(Debug, Clone)]
pub struct CashDrawerUpsert {
    pub id: String,
    pub local_ref_id: Option<String>,
    pub name: String,
    pub description: Option<String>,
    pub is_active: bool,
    pub organization_id: String,
    pub stamps: RecordStamps,
}

/// The stored form of a pushed cash drawer.
pub fn cash_drawer_upsert(item: &PushCashDrawerDto, org_id: &str, now: SyncTimestamp) -> (r:
    CashDrawerUpsert)
    ensures
        r.id@ == item.id@,
        opt_text(r.local_ref_id) == opt_text(item.local_ref_id),
        r.name@ == item.name@,
        opt_text(r.description) == opt_text(item.description),
        r.is_active == item.is_active,
        r.organization_id@ == org_id@,
        stamps_match(r.stamps, opt_text(item.created_at), opt_text(item.deleted_at), now),
{
    CashDrawerUpsert {
        id: String::from_str(item.id.as_str()),
        local_ref_id: copy_opt(&item.local_ref_id),
        name: String::from_str(item.name.as_str()),
        description: copy_opt(&item.description),
        is_active: item.is_active,
        organization_id: String::from_str(org_id),
        stamps: record_stamps(&item.created_at, &item.deleted_at, now),
    }
}

// ------------------------------------------------------------------------
// The answer to a push
// ------------------------------------------------------------------------

/// The record groups of a push, in the order the server processes them.
#[derive(Debug, Clone, Copy, PartialEq, Eq, Structural)]
pub enum PushGroup {
    PaymentMethods,
    Categories,
    Customers,
    Products,
    Finances,
    Brands,
    Discounts,
    Suppliers,
    Purchases,
    Transactions,
    PurchaseReturns,
    StockOpnames,
    Payables,
    PayableRealizations,
    Receivables,
    ReceivableRealizations,
    SalesTransactions,
    CashDrawers,
    Shifts,
}

/// The key of a group in the push answer.
pub open spec fn push_group_key(g: PushGroup) -> Seq<char> {
    match g {
        PushGroup::PaymentMethods => "paymentMethods"@,
        PushGroup::Categories => "categories"@,
        PushGroup::Customers => "customers"@,
        PushGroup::Products => "products"@,
        PushGroup::Finances => "finances"@,
        PushGroup::Brands => "brands"@,
        PushGroup::Discounts => "discounts"@,
        PushGroup::Suppliers => "suppliers"@,
        PushGroup::Purchases => "purchases"@,
        PushGroup::Transactions => "transactions"@,
        PushGroup::PurchaseReturns => "purchaseReturns"@,
        PushGroup::StockOpnames => "stockOpnames"@,
        PushGroup::Payables => "payables"@,
        PushGroup::PayableRealizations => "payableRealizations"@,
        PushGroup::Receivables => "receivables"@,
        PushGroup::ReceivableRealizations => "receivableRealizations"@,
        PushGroup::SalesTransactions => "salesTransactions"@,
        PushGroup::CashDrawers => "cashDrawers"@,
        PushGroup::Shifts => "shifts"@,
    }
}

impl PushGroup {
    /// The key of the group in the push answer.
    pub fn key(&self) -> (r: &'static str)
        ensures
            r@ == push_group_key(*self),
    {
        match self {
            PushGroup::PaymentMethods => "paymentMethods",
            PushGroup::Categories => "categories",
            PushGroup::Customers => "customers",
            PushGroup::Products => "products",
            PushGroup::Finances => "finances",
            PushGroup::Brands => "brands",
            PushGroup::Discounts => "discounts",
            PushGroup::Suppliers => "suppliers",
            PushGroup::Purchases => "purchases",
            PushGroup::Transactions => "transactions",
            PushGroup::PurchaseReturns => "purchaseReturns",
            PushGroup::StockOpnames => "stockOpnames",
            PushGroup::Payables => "payables",
            PushGroup::PayableRealizations => "payableRealizations",
            PushGroup::Receivables => "receivables",
            PushGroup::ReceivableRealizations => "receivableRealizations",
            PushGroup::SalesTransactions => "salesTransactions",
            PushGroup::CashDrawers => "cashDrawers",
            PushGroup::Shifts => "shifts",
        }
    }
}

/// The IDs of the records that carry one, in push order.
pub open spec fn present_ids(ids: Seq<Option<Seq<char>>>) -> Seq<Seq<char>>
    decreases ids.len(),
{
    if ids.len() == 0 {
        seq![]
    } else {
        present_ids(ids.drop_last()) + match ids.last() {
            Some(i) => seq![i],
            None => seq![],
        }
    }
}

/// The plain texts of a list of optional IDs.
pub open spec fn opt_texts(ids: Seq<Option<String>>) -> Seq<Option<Seq<char>>> {
    ids.map_values(|i: Option<String>| opt_text(i))
}

/// The IDs a group reports back: every record that carries an ID was upserted
/// and is reported, in push order; records without one are skipped.
pub fn upserted_ids(ids: &Vec<Option<String>>) -> (r: Vec<String>)
    ensures
        crate::jwt::texts(r@) == present_ids(opt_texts(ids@)),
{
    let mut r: Vec<String> = Vec::new();
    let mut i: usize = 0;
    while i < ids.len()
        invariant
            i <= ids@.len(),
            crate::jwt::texts(r@) == present_ids(opt_texts(ids@.subrange(0, i as int))),
        decreases ids@.len() - i,
    {
        let ghost before = r@;
        match &ids[i] {
            Some(id) => r.push(String::from_str(id.as_str())),
            None => {},
        }
        proof {
            let s = opt_texts(ids@.subrange(0, i + 1));
            assert(s.drop_last() =~= opt_texts(ids@.subrange(0, i as int)));
            assert(s.last() == opt_text(ids@[i as int]));
            assert(crate::jwt::texts(r@) =~= present_ids(s));
        }
        i = i + 1;
    }
    proof {
        assert(ids@.subrange(0, ids@.len() as int) =~= ids@);
    }
    r
}

/// One entry of a push answer: the record's ID as both `id` and `server_id`
/// (the server keeps the client's IDs).
#[derive(Debug, Clone)]
pub struct IdMapping {
    /// The client's ID.
    pub id: String,
    /// The ID under which the server stored the record.
    pub server_id: String,
}

/// The ID mappings of a group's reported IDs.
pub fn id_mappings(ids: &Vec<String>) -> (r: Vec<IdMapping>)
    ensures
        r@.len() == ids@.len(),
        forall|i: int| 0 <= i < ids@.len() ==> (#[trigger] r@[i]).id@ == ids@[i]@ && r@[i].server_id@
            == ids@[i]@,
{
    let mut r: Vec<IdMapping> = Vec::new();
    let mut i: usize = 0;
    while i < ids.len()
        invariant
            i <= ids@.len(),
            r@.len() == i,
            forall|j: int| 0 <= j < i ==> (#[trigger] r@[j]).id@ == ids@[j]@ && r@[j].server_id@
                == ids@[j]@,
        decreases ids@.len() - i,
    {
        r.push(IdMapping {
            id: String::from_str(ids[i].as_str()),
            server_id: String::from_str(ids[i].as_str()),
        });
        i = i + 1;
    }
    r
}

// ------------------------------------------------------------------------
// Incremental pulls
// ------------------------------------------------------------------------

/// The record groups an incremental pull returns, in answer order.
#[derive(Debug, Clone, Copy, PartialEq, Eq, Structural)]
pub enum PullGroup {
    Categories,
    Brands,
    Discounts,
    Products,
    Prices,
    Customers,
    Suppliers,
    Purchases,
    Transactions,
    PurchaseReturns,
    StockOpnames,
    PaymentMethods,
    Payables,
    PayableRealizations,
    Receivables,
    ReceivableRealizations,
    Finances,
}

/// The key of a group under `data` in the pull answer.
pub open spec fn pull_group_key(g: PullGroup) -> Seq<char> {
    match g {
        PullGroup::Categories => "categories"@,
        PullGroup::Brands => "brands"@,
        PullGroup::Discounts => "discounts"@,
        PullGroup::Products => "products"@,
        PullGroup::Prices => "prices"@,
        PullGroup::Customers => "customers"@,
        PullGroup::Suppliers => "suppliers"@,
        PullGroup::Purchases => "purchases"@,
        PullGroup::Transactions => "transactions"@,
        PullGroup::PurchaseReturns => "purchaseReturns"@,
        PullGroup::StockOpnames => "stockOpnames"@,
        PullGroup::PaymentMethods => "paymentMethods"@,
        PullGroup::Payables => "payables"@,
        PullGroup::PayableRealizations => "payableRealizations"@,
        PullGroup::Receivables => "receivables"@,
        PullGroup::ReceivableRealizations => "receivableRealizations"@,
        PullGroup::Finances => "finances"@,
    }
}

impl PullGroup {
    /// The key of the group under `data` in the pull answer.
    pub fn key(&self) -> (r: &'static str)
        ensures
            r@ == pull_group_key(*self),
    {
        match self {
            PullGroup::Categories => "categories",
            PullGroup::Brands => "brands",
            PullGroup::Discounts => "discounts",
            PullGroup::Products => "products",
            PullGroup::Prices => "prices",
            PullGroup::Customers => "customers",
            PullGroup::Suppliers => "suppliers",
            PullGroup::Purchases => "purchases",
            PullGroup::Transactions => "transactions",
            PullGroup::PurchaseReturns => "purchaseReturns",
            PullGroup::StockOpnames => "stockOpnames",
            PullGroup::PaymentMethods => "paymentMethods",
            PullGroup::Payables => "payables",
            PullGroup::PayableRealizations => "payableRealizations",
            PullGroup::Receivables => "receivables",
            PullGroup::ReceivableRealizations => "receivableRealizations",
            PullGroup::Finances => "finances",
        }
    }
}

/// The timestamps of a stored record that a pull looks at.
#[derive(Debug, Clone, Copy, PartialEq, Eq, Structural)]
pub struct StoredStamps {
    /// When the record was created.
    pub created_at: SyncTimestamp,
    /// When the record was last written.
    pub updated_at: SyncTimestamp,
    /// When the record was deleted, if it was.
    pub deleted_at: Option<SyncTimestamp>,
}

/// Whether one timestamp lies strictly after another.
pub open spec fn later(a: SyncTimestamp, b: SyncTimestamp) -> bool {
    a.secs > b.secs || (a.secs == b.secs && a.nanos > b.nanos)
}

/// Whether a timestamp lies strictly after another.
pub fn is_later(a: SyncTimestamp, b: SyncTimestamp) -> (r: bool)
    ensures
        r == later(a, b),
{
    a.secs > b.secs || (a.secs == b.secs && a.nanos > b.nanos)
}

/// Whether a stored record of a group belongs in a pull since `since`:
/// inventory transactions when created or deleted after it, purchase returns
/// when updated after it, every other group when updated or deleted after it.
pub open spec fn pulled_since(g: PullGroup, r: StoredStamps, since: SyncTimestamp) -> bool {
    let deleted_later = match r.deleted_at {
        Some(d) => later(d, since),
        None => false,
    };
    match g {
        PullGroup::Transactions => later(r.created_at, since) || deleted_later,
        PullGroup::PurchaseReturns => later(r.updated_at, since),
        _ => later(r.updated_at, since) || deleted_later,
    }
}

/// Whether a stored record of a group belongs in a pull since `since`.
pub fn changed_since(g: PullGroup, r: &StoredStamps, since: SyncTimestamp) -> (b: bool)
    ensures
        b == pulled_since(g, *r, since),
{
    let deleted_later = match r.deleted_at {
        Some(d) => is_later(d, since),
        None => false,
    };
    match g {
        PullGroup::Transactions => is_later(r.created_at, since) || deleted_later,
        PullGroup::PurchaseReturns => is_later(r.updated_at, since),
        _ => is_later(r.updated_at, since) || deleted_later,
    }
}

/// Law: a pull never misses a write. A record of any group other than
/// inventory transactions that was written after `since` is pulled, and a
/// record deleted after `since` is pulled unless it is a purchase return.
pub proof fn law_pull_returns_recent_writes(g: PullGroup, r: StoredStamps, since: SyncTimestamp)
    ensures
        g != PullGroup::Transactions && later(r.updated_at, since) ==> pulled_since(g, r, since),
        g == PullGroup::Transactions && later(r.created_at, since) ==> pulled_since(g, r, since),
        g != PullGroup::PurchaseReturns && (r.deleted_at matches Some(d) && later(d, since))
            ==> pulled_since(g, r, since),
{
}

/// Law: an earlier `since` pulls at least as much: whatever a pull since `b`
/// returns, a pull since an earlier `a` returns too.
pub proof fn law_pull_is_monotone(g: PullGroup, r: StoredStamps, a: SyncTimestamp, b: SyncTimestamp)
    requires
        !later(a, b),
        pulled_since(g, r, b),
    ensures
        pulled_since(g, r, a),
{
}

/// A stored record as a pull sees it: the organization it belongs to and its
/// timestamps.
#[derive(Debug, Clone)]
pub struct StoredRecord {
    /// The organization that owns the record.
    pub organization_id: String,
    /// The record's timestamps.
    pub stamps: StoredStamps,
}

/// Whether a pull of a group for an organization since `since` returns a
/// stored record: it must belong to that organization and have changed since.
pub open spec fn pull_selects(g: PullGroup, org: Seq<char>, since: SyncTimestamp, r: StoredRecord) -> bool {
    r.organization_id@ == org && pulled_since(g, r.stamps, since)
}

/// Whether `rows` are exactly the positions, in increasing order, of the
/// records that a pull of a group for `org` since `since` returns.
pub open spec fn selects_exactly(rows: Seq<usize>, g: PullGroup, org: Seq<char>, since: SyncTimestamp, records: Seq<
    StoredRecord,
>) -> bool {
    &&& forall|k: int| 0 <= k < rows.len() ==> (#[trigger] rows[k]) < records.len() && pull_selects(
        g,
        org,
        since,
        records[rows[k] as int],
    )
    &&& forall|k: int, l: int| 0 <= k < l < rows.len() ==> rows[k] < rows[l]
    &&& forall|i: int|
        0 <= i < records.len() && pull_selects(g, org, since, #[trigger] records[i]) ==> rows.contains(
            i as usize,
        )
}

/// The positions of the stored records of a group that an incremental pull
/// for `org_id` since `since` returns, in stored order.
pub fn pull_records(g: PullGroup, org_id: &str, since: SyncTimestamp, records: &Vec<StoredRecord>) -> (r:
    Vec<usize>)
    ensures
        selects_exactly(r@, g, org_id@, since, records@),
{
    let mut r: Vec<usize> = Vec::new();
    let mut i: usize = 0;
    while i < records.len()
        invariant
            i <= records@.len(),
            forall|k: int| 0 <= k < r@.len() ==> (#[trigger] r@[k]) < i && pull_selects(
                g,
                org_id@,
                since,
                records@[r@[k] as int],
            ),
            forall|k: int, l: int| 0 <= k < l < r@.len() ==> r@[k] < r@[l],
            forall|j: int|
                0 <= j < i && pull_selects(g, org_id@, since, #[trigger] records@[j]) ==> r@.contains(j as usize),
        decreases records@.len() - i,
    {
        let rec = &records[i];
        if str_equal(rec.organization_id.as_str(), org_id) && changed_since(g, &rec.stamps, since) {
            let ghost before = r@;
            r.push(i);
            proof {
                assert forall|j: int|
                    0 <= j < i + 1 && pull_selects(g, org_id@, since, #[trigger] records@[j]) implies r@.contains(
                    j as usize,
                ) by {
                    if j < i {
                        assert(before.contains(j as usize));
                        let w = choose|w: int| 0 <= w < before.len() && before[w] == j as usize;
                        assert(r@[w] == j as usize);
                    } else {
                        assert(r@[before.len() as int] == i);
                    }
                }
            }
        }
        i = i + 1;
    }
    r
}

/// Law: a pull stays inside the organization that asked for it; every record
/// it returns belongs to that organization.
pub proof fn law_pull_stays_in_organization(g: PullGroup, org: Seq<char>, since: SyncTimestamp, r: StoredRecord)
    requires
        pull_selects(g, org, since, r),
    ensures
        r.organization_id@ == org,
{
}

/// `chrono::DateTime::<Utc>::from_timestamp` followed by `to_rfc3339`: the
/// RFC 3339 text of a UTC instant, if chrono can represent it.
pub uninterp spec fn rfc3339_text_of(secs: i64, nanos: u32) -> Option<Seq<char>>;

/// `DateTime::<Utc>::from_timestamp(secs, nanos)` and `to_rfc3339` on it.
///
/// The contract names the text. It also states the short fact of chrono's
/// source that an instant from 1970 on, within 2^37 seconds, with nanoseconds
/// below one second, is representable (its day number lies far inside the
/// date range and its time of day is valid).
#[verifier::external_body]
fn rfc3339_text(secs: i64, nanos: u32) -> (r: Option<String>)
    ensures
        opt_text(r) == rfc3339_text_of(secs, nanos),
        0 <= secs < 0x20_0000_0000 && nanos < 1_000_000_000 ==> r is Some,
{
    match chrono::DateTime::<chrono::Utc>::from_timestamp(secs, nanos) {
        Some(t) => Some(t.to_rfc3339()),
        None => None,
    }
}

/// The stored records of every synced table, as a pull sees them.
pub struct PullTables {
    pub categories: Vec<StoredRecord>,
    pub brands: Vec<StoredRecord>,
    pub discounts: Vec<StoredRecord>,
    pub products: Vec<StoredRecord>,
    pub prices: Vec<StoredRecord>,
    pub customers: Vec<StoredRecord>,
    pub suppliers: Vec<StoredRecord>,
    pub purchases: Vec<StoredRecord>,
    pub transactions: Vec<StoredRecord>,
    pub purchase_returns: Vec<StoredRecord>,
    pub stock_opnames: Vec<StoredRecord>,
    pub payment_methods: Vec<StoredRecord>,
    pub payables: Vec<StoredRecord>,
    pub payable_realizations: Vec<StoredRecord>,
    pub receivables: Vec<StoredRecord>,
    pub receivable_realizations: Vec<StoredRecord>,
    pub finances: Vec<StoredRecord>,
}

/// The stored records of one group's table.
pub open spec fn table_of(t: PullTables, g: PullGroup) -> Seq<StoredRecord> {
    match g {
        PullGroup::Categories => t.categories@,
        PullGroup::Brands => t.brands@,
        PullGroup::Discounts => t.discounts@,
        PullGroup::Products => t.products@,
        PullGroup::Prices => t.prices@,
        PullGroup::Customers => t.customers@,
        PullGroup::Suppliers => t.suppliers@,
        PullGroup::Purchases => t.purchases@,
        PullGroup::Transactions => t.transactions@,
        PullGroup::PurchaseReturns => t.purchase_returns@,
        PullGroup::StockOpnames => t.stock_opnames@,
        PullGroup::PaymentMethods => t.payment_methods@,
        PullGroup::Payables => t.payables@,
        PullGroup::PayableRealizations => t.payable_realizations@,
        PullGroup::Receivables => t.receivables@,
        PullGroup::ReceivableRealizations => t.receivable_realizations@,
        PullGroup::Finances => t.finances@,
    }
}

/// The groups of a pull answer, in answer order.
pub open spec fn pull_group_at(k: int) -> PullGroup {
    if k == 0 {
        PullGroup::Categories
    } else if k == 1 {
        PullGroup::Brands
    } else if k == 2 {
        PullGroup::Discounts
    } else if k == 3 {
        PullGroup::Products
    } else if k == 4 {
        PullGroup::Prices
    } else if k == 5 {
        PullGroup::Customers
    } else if k == 6 {
        PullGroup::Suppliers
    } else if k == 7 {
        PullGroup::Purchases
    } else if k == 8 {
        PullGroup::Transactions
    } else if k == 9 {
        PullGroup::PurchaseReturns
    } else if k == 10 {
        PullGroup::StockOpnames
    } else if k == 11 {
        PullGroup::PaymentMethods
    } else if k == 12 {
        PullGroup::Payables
    } else if k == 13 {
        PullGroup::PayableRealizations
    } else if k == 14 {
        PullGroup::Receivables
    } else if k == 15 {
        PullGroup::ReceivableRealizations
    } else {
        PullGroup::Finances
    }
}

/// The number of groups in a pull answer.
pub const PULL_GROUP_COUNT: usize = 17;

/// One group of a pull answer: its key under `data` and the positions of the
/// records it returns.
pub struct PulledGroup {
    pub group: PullGroup,
    pub key: String,
    pub rows: Vec<usize>,
}

/// The answer to an incremental pull: the data object (one entry per synced
/// table, in answer order) and the RFC 3339 time of the answer.
pub struct PullAnswer {
    pub data: Vec<PulledGroup>,
    pub timestamp: String,
}

/// Whether an answer's data holds, in answer order, every group with its key
/// and exactly the records a pull for `org` since `since` returns.
pub open spec fn pull_data_exact(data: Seq<PulledGroup>, org: Seq<char>, since: SyncTimestamp, t: PullTables) -> bool {
    &&& data.len() == 17
    &&& forall|k: int|
        0 <= k < 17 ==> (#[trigger] data[k]).group == pull_group_at(k) && data[k].key@ == pull_group_key(
            pull_group_at(k),
        ) && selects_exactly(data[k].rows@, pull_group_at(k), org, since, table_of(t, pull_group_at(k)))
}

fn pull_group(data: &mut Vec<PulledGroup>, g: PullGroup, org_id: &str, since: SyncTimestamp, records: &Vec<StoredRecord>)
    ensures
        final(data)@ == old(data)@.push(final(data)@.last()),
        final(data)@.last().group == g,
        final(data)@.last().key@ == pull_group_key(g),
        selects_exactly(final(data)@.last().rows@, g, org_id@, since, records@),
{
    let rows = pull_records(g, org_id, since, records);
    data.push(PulledGroup { group: g, key: String::from_str(g.key()), rows });
}

/// The answer to an incremental pull for `org_id` since `since`, made at
/// `now`: for each of the 17 synced tables in answer order, its key and
/// exactly the records of the organization that changed since (see
/// [`pull_records`]), with the RFC 3339 text of `now`. `None` only when
/// chrono cannot represent `now`.
pub fn pull_answer(org_id: &str, since: SyncTimestamp, tables: &PullTables, now: SyncTimestamp) -> (r: Option<
    PullAnswer,
>)
    ensures
        r is Some <==> rfc3339_text_of(now.secs, now.nanos) is Some,
        r matches Some(a) ==> Some(a.timestamp@) == rfc3339_text_of(now.secs, now.nanos)
            && pull_data_exact(a.data@, org_id@, since, *tables),
{
    let timestamp = match rfc3339_text(now.secs, now.nanos) {
        Some(t) => t,
        None => {
            return None;
        },
    };
    let mut data: Vec<PulledGroup> = Vec::new();
    pull_group(&mut data, PullGroup::Categories, org_id, since, &tables.categories);
    pull_group(&mut data, PullGroup::Brands, org_id, since, &tables.brands);
    pull_group(&mut data, PullGroup::Discounts, org_id, since, &tables.discounts);
    pull_group(&mut data, PullGroup::Products, org_id, since, &tables.products);
    pull_group(&mut data, PullGroup::Prices, org_id, since, &tables.prices);
    pull_group(&mut data, PullGroup::Customers, org_id, since, &tables.customers);
    pull_group(&mut data, PullGroup::Suppliers, org_id, since, &tables.suppliers);
    pull_group(&mut data, PullGroup::Purchases, org_id, since, &tables.purchases);
    pull_group(&mut data, PullGroup::Transactions, org_id, since, &tables.transactions);
    pull_group(&mut data, PullGroup::PurchaseReturns, org_id, since, &tables.purchase_returns);
    pull_group(&mut data, PullGroup::StockOpnames, org_id, since, &tables.stock_opnames);
    pull_group(&mut data, PullGroup::PaymentMethods, org_id, since, &tables.payment_methods);
    pull_group(&mut data, PullGroup::Payables, org_id, since, &tables.payables);
    pull_group(&mut data, PullGroup::PayableRealizations, org_id, since, &tables.payable_realizations);
    pull_group(&mut data, PullGroup::Receivables, org_id, since, &tables.receivables);
    pull_group(&mut data, PullGroup::ReceivableRealizations, org_id, since, &tables.receivable_realizations);
    pull_group(&mut data, PullGroup::Finances, org_id, since, &tables.finances);
    proof {
        assert forall|k: int| 0 <= k < 17 implies (#[trigger] data@[k]).group == pull_group_at(k)
            && data@[k].key@ == pull_group_key(pull_group_at(k)) && selects_exactly(
            data@[k].rows@,
            pull_group_at(k),
            org_id@,
            since,
            table_of(*tables, pull_group_at(k)),
        ) by {
        }
    }
    Some(PullAnswer { data, timestamp })
}


/// Law: a pull returns only changes. A stored record is pulled only when it
/// was written or deleted strictly after `since`: for inventory transactions
/// its creation or deletion, for purchase returns its last update, and for
/// every other group its last update or deletion lies after `since`.
pub proof fn law_pull_returns_only_changes(g: PullGroup, r: StoredStamps, since: SyncTimestamp)
    requires
        pulled_since(g, r, since),
    ensures
        r.updated_at.secs > since.secs || (r.updated_at.secs == since.secs && r.updated_at.nanos > since.nanos)
            || r.created_at.secs > since.secs || (r.created_at.secs == since.secs && r.created_at.nanos
            > since.nanos) || (r.deleted_at matches Some(d) && (d.secs > since.secs || (d.secs == since.secs
            && d.nanos > since.nanos))),
        g == PullGroup::Transactions ==> r.created_at.secs > since.secs || (r.created_at.secs == since.secs
            && r.created_at.nanos > since.nanos) || (r.deleted_at matches Some(d) && (d.secs > since.secs || (
            d.secs == since.secs && d.nanos > since.nanos))),
        g == PullGroup::PurchaseReturns ==> r.updated_at.secs > since.secs || (r.updated_at.secs
            == since.secs && r.updated_at.nanos > since.nanos),
        g != PullGroup::Transactions && g != PullGroup::PurchaseReturns ==> r.updated_at.secs > since.secs
            || (r.updated_at.secs == since.secs && r.updated_at.nanos > since.nanos) || (r.deleted_at matches Some(
            d) && (d.secs > since.secs || (d.secs == since.secs && d.nanos > since.nanos))),
{
}

/// Law: a pull never returns a record that was neither written nor deleted
/// after `since`, whatever its group; and it never returns a record of another
/// organization.
pub proof fn law_pull_skips_unchanged_records(g: PullGroup, org: Seq<char>, since: SyncTimestamp, r: StoredRecord)
    requires
        r.organization_id@ != org || (!(r.stamps.updated_at.secs > since.secs || (r.stamps.updated_at.secs
            == since.secs && r.stamps.updated_at.nanos > since.nanos)) && !(r.stamps.created_at.secs
            > since.secs || (r.stamps.created_at.secs == since.secs && r.stamps.created_at.nanos > since.nanos))
            && r.stamps.deleted_at is None),
    ensures
        !pull_selects(g, org, since, r),
{
}

/// Law: a pull never misses a change. A record of the asking organization is
/// pulled when its last update lies strictly after `since` (for any group but
/// inventory transactions), when its creation does (for inventory
/// transactions), or when its deletion does (for any group but purchase
/// returns).
pub proof fn law_pull_returns_every_change(g: PullGroup, org: Seq<char>, since: SyncTimestamp, r: StoredRecord)
    requires
        r.organization_id@ == org,
    ensures
        g != PullGroup::Transactions && (r.stamps.updated_at.secs > since.secs || (r.stamps.updated_at.secs
            == since.secs && r.stamps.updated_at.nanos > since.nanos)) ==> pull_selects(g, org, since, r),
        g == PullGroup::Transactions && (r.stamps.created_at.secs > since.secs || (r.stamps.created_at.secs
            == since.secs && r.stamps.created_at.nanos > since.nanos)) ==> pull_selects(g, org, since, r),
        g != PullGroup::PurchaseReturns && (r.stamps.deleted_at matches Some(d) && (d.secs > since.secs || (
            d.secs == since.secs && d.nanos > since.nanos))) ==> pull_selects(g, org, since, r),
{
}

/// Law: the pull answer lists the synced tables in the original's order, each
/// under its own key and filled from its own table: categories, brands,
/// discounts, products, prices, customers, suppliers, purchases, transactions,
/// purchaseReturns, stockOpnames, paymentMethods, payables,
/// payableRealizations, receivables, receivableRealizations, finances.
pub proof fn law_pull_answer_keys_and_tables(t: PullTables)
    ensures
        pull_group_at(0) == PullGroup::Categories && pull_group_key(PullGroup::Categories) == "categories"@ && table_of(t, PullGroup::Categories) == t.categories@,
        pull_group_at(1) == PullGroup::Brands && pull_group_key(PullGroup::Brands) == "brands"@ && table_of(t, PullGroup::Brands) == t.brands@,
        pull_group_at(2) == PullGroup::Discounts && pull_group_key(PullGroup::Discounts) == "discounts"@ && table_of(t, PullGroup::Discounts) == t.discounts@,
        pull_group_at(3) == PullGroup::Products && pull_group_key(PullGroup::Products) == "products"@ && table_of(t, PullGroup::Products) == t.products@,
        pull_group_at(4) == PullGroup::Prices && pull_group_key(PullGroup::Prices) == "prices"@ && table_of(t, PullGroup::Prices) == t.prices@,
        pull_group_at(5) == PullGroup::Customers && pull_group_key(PullGroup::Customers) == "customers"@ && table_of(t, PullGroup::Customers) == t.customers@,
        pull_group_at(6) == PullGroup::Suppliers && pull_group_key(PullGroup::Suppliers) == "suppliers"@ && table_of(t, PullGroup::Suppliers) == t.suppliers@,
        pull_group_at(7) == PullGroup::Purchases && pull_group_key(PullGroup::Purchases) == "purchases"@ && table_of(t, PullGroup::Purchases) == t.purchases@,
        pull_group_at(8) == PullGroup::Transactions && pull_group_key(PullGroup::Transactions) == "transactions"@ && table_of(t, PullGroup::Transactions) == t.transactions@,
        pull_group_at(9) == PullGroup::PurchaseReturns && pull_group_key(PullGroup::PurchaseReturns) == "purchaseReturns"@ && table_of(t, PullGroup::PurchaseReturns) == t.purchase_returns@,
        pull_group_at(10) == PullGroup::StockOpnames && pull_group_key(PullGroup::StockOpnames) == "stockOpnames"@ && table_of(t, PullGroup::StockOpnames) == t.stock_opnames@,
        pull_group_at(11) == PullGroup::PaymentMethods && pull_group_key(PullGroup::PaymentMethods) == "paymentMethods"@ && table_of(t, PullGroup::PaymentMethods) == t.payment_methods@,
        pull_group_at(12) == PullGroup::Payables && pull_group_key(PullGroup::Payables) == "payables"@ && table_of(t, PullGroup::Payables) == t.payables@,
        pull_group_at(13) == PullGroup::PayableRealizations && pull_group_key(PullGroup::PayableRealizations) == "payableRealizations"@ && table_of(t, PullGroup::PayableRealizations) == t.payable_realizations@,
        pull_group_at(14) == PullGroup::Receivables && pull_group_key(PullGroup::Receivables) == "receivables"@ && table_of(t, PullGroup::Receivables) == t.receivables@,
        pull_group_at(15) == PullGroup::ReceivableRealizations && pull_group_key(PullGroup::ReceivableRealizations) == "receivableRealizations"@ && table_of(t, PullGroup::ReceivableRealizations) == t.receivable_realizations@,
        pull_group_at(16) == PullGroup::Finances && pull_group_key(PullGroup::Finances) == "finances"@ && table_of(t, PullGroup::Finances) == t.finances@,
{
}


/// Law: each group of a push answer is reported under its own key:
/// paymentMethods, categories, customers, products, finances, brands,
/// discounts, suppliers, purchases, transactions, purchaseReturns,
/// stockOpnames, payables, payableRealizations, receivables,
/// receivableRealizations, salesTransactions, cashDrawers, shifts.
pub proof fn law_push_group_keys()
    ensures
        push_group_key(PushGroup::PaymentMethods) == "paymentMethods"@,
        push_group_key(PushGroup::Categories) == "categories"@,
        push_group_key(PushGroup::Customers) == "customers"@,
        push_group_key(PushGroup::Products) == "products"@,
        push_group_key(PushGroup::Finances) == "finances"@,
        push_group_key(PushGroup::Brands) == "brands"@,
        push_group_key(PushGroup::Discounts) == "discounts"@,
        push_group_key(PushGroup::Suppliers) == "suppliers"@,
        push_group_key(PushGroup::Purchases) == "purchases"@,
        push_group_key(PushGroup::Transactions) == "transactions"@,
        push_group_key(PushGroup::PurchaseReturns) == "purchaseReturns"@,
        push_group_key(PushGroup::StockOpnames) == "stockOpnames"@,
        push_group_key(PushGroup::Payables) == "payables"@,
        push_group_key(PushGroup::PayableRealizations) == "payableRealizations"@,
        push_group_key(PushGroup::Receivables) == "receivables"@,
        push_group_key(PushGroup::ReceivableRealizations) == "receivableRealizations"@,
        push_group_key(PushGroup::SalesTransactions) == "salesTransactions"@,
        push_group_key(PushGroup::CashDrawers) == "cashDrawers"@,
        push_group_key(PushGroup::Shifts) == "shifts"@,
{
}


} // verus!
