//! Query plans of the database clients: which statement runs with which
//! parameters, decided from the caller's filters before anything is sent.
use vstd::prelude::*;
use vstd::string::*;
use crate::data::{
    like_pattern, parse_prefixed_uuid, prefixed_uuid, record_key, remove_all, sort_column_choice,
    sort_column_for, sort_dir, sort_whitelist, Backend, SortTable,
};
use crate::error::join3;
use crate::data::{parse_uuid, PgError};
use crate::ids::uuid_parse_result;
use crate::sync::opt_text;
use crate::text::str_equal;
use crate::jwt::joined;

verus! {

// ------------------------------------------------------------------------
// Listing bills of materials (PostgreSQL)
// ------------------------------------------------------------------------

/// Filters for listing BOMs.
#[derive(Debug, Clone)]
pub struct ListBomFilters {
    /// Filter by organization ID (`org:<uuid>`).
    pub organization_id: Option<String>,
    /// Filter by product ID (`product:<uuid>`).
    pub product_id: Option<String>,
    /// Filter by status (draft, active, archived).
    pub status: Option<String>,
    /// Search by name.
    pub search: Option<String>,
}

/// Counts the BOMs of an organization whose name matches a pattern.
pub const BOM_COUNT_BY_SEARCH: &'static str =
    "SELECT COUNT(*) as cnt FROM boms WHERE organization_id = $1 AND name ILIKE $2";

/// Counts the BOMs of an organization for a product.
pub const BOM_COUNT_BY_PRODUCT: &'static str =
    "SELECT COUNT(*) as cnt FROM boms WHERE organization_id = $1 AND product_id = $2";

/// Counts the BOMs of an organization with a status.
pub const BOM_COUNT_BY_STATUS: &'static str =
    "SELECT COUNT(*) as cnt FROM boms WHERE organization_id = $1 AND status = $2";

/// Counts the BOMs of an organization.
pub const BOM_COUNT_ALL: &'static str = "SELECT COUNT(*) as cnt FROM boms WHERE organization_id = $1";

/// Lists a page of the BOMs of an organization whose name matches a pattern.
pub const BOM_LIST_BY_SEARCH: &'static str =
    "SELECT * FROM boms WHERE organization_id = $1 AND name ILIKE $2 ORDER BY created_at DESC LIMIT $3 OFFSET $4";

/// Lists a page of the BOMs of an organization for a product.
pub const BOM_LIST_BY_PRODUCT: &'static str =
    "SELECT * FROM boms WHERE organization_id = $1 AND product_id = $2 ORDER BY created_at DESC LIMIT $3 OFFSET $4";

/// Lists a page of the BOMs of an organization with a status.
pub const BOM_LIST_BY_STATUS: &'static str =
    "SELECT * FROM boms WHERE organization_id = $1 AND status = $2 ORDER BY created_at DESC LIMIT $3 OFFSET $4";

/// Lists a page of the BOMs of an organization.
pub const BOM_LIST_ALL: &'static str =
    "SELECT * FROM boms WHERE organization_id = $1 ORDER BY created_at DESC LIMIT $2 OFFSET $3";

/// The second parameter of the BOM count and list statements.
#[derive(Debug, Clone, PartialEq, Eq)]
pub enum BomFilterParam {
    /// A name pattern (`%<search>%`).
    Search(String),
    /// A product UUID.
    Product(u128),
    /// A status text.
    Status(String),
    /// No second parameter.
    Nothing,
}

/// How a BOM listing is answered.
#[derive(Debug, Clone, PartialEq, Eq)]
pub enum BomListPlan {
    /// Answer with no BOMs and a total of 0, without querying.
    Skip,
    /// Count with `count_sql`, then list a page with `list_sql`.
    Run {
        /// The count statement.
        count_sql: &'static str,
        /// The page statement.
        list_sql: &'static str,
        /// The organization UUID, bound first.
        organization: u128,
        /// The filter value, bound second (when there is one).
        filter: BomFilterParam,
        /// The page size (`LIMIT`).
        per_page: i64,
        /// The number of BOMs skipped (`OFFSET`).
        offset: i64,
    },
}

/// The count statement chosen by which filters are present: search first,
/// then product ID, then status.
pub open spec fn bom_count_sql(f: ListBomFilters) -> Seq<char> {
    if f.search is Some {
        BOM_COUNT_BY_SEARCH@
    } else if f.product_id is Some {
        BOM_COUNT_BY_PRODUCT@
    } else if f.status is Some {
        BOM_COUNT_BY_STATUS@
    } else {
        BOM_COUNT_ALL@
    }
}

/// Whether a filter parameter is the one a listing binds: the search pattern
/// when there is a search, else the product UUID when the product ID parsed,
/// else the status when there is one, else nothing.
pub open spec fn bom_filter_matches(f: ListBomFilters, product: Option<u128>, p: BomFilterParam) -> bool {
    match f.search {
        Some(s) => p matches BomFilterParam::Search(pat) && pat@ == "%"@ + s@ + "%"@,
        None => match product {
            Some(u) => p == BomFilterParam::Product(u),
            None => match f.status {
                Some(st) => p matches BomFilterParam::Status(v) && v@ == st@,
                None => p == BomFilterParam::Nothing,
            },
        },
    }
}

/// The page statement that goes with a filter parameter.
pub open spec fn bom_list_sql(p: BomFilterParam) -> Seq<char> {
    match p {
        BomFilterParam::Search(_) => BOM_LIST_BY_SEARCH@,
        BomFilterParam::Product(_) => BOM_LIST_BY_PRODUCT@,
        BomFilterParam::Status(_) => BOM_LIST_BY_STATUS@,
        BomFilterParam::Nothing => BOM_LIST_ALL@,
    }
}

/// The BOM listing plan once the organization and product IDs are parsed.
///
/// Without an organization nothing is queried. Otherwise the count statement
/// follows which filters are present, while the bound filter value and the page
/// statement follow the search, the parsed product and the status in that order;
/// the offset is `(page - 1) * per_page`.
pub fn plan_bom_list_for(
    filters: &ListBomFilters,
    organization: Option<u128>,
    product: Option<u128>,
    page: i64,
    per_page: i64,
) -> (r: BomListPlan)
    requires
        organization is Some ==> i64::MIN <= (page - 1) * per_page <= i64::MAX,
        organization is Some ==> page - 1 >= i64::MIN,
    ensures
        organization is None ==> r == BomListPlan::Skip,
        organization matches Some(o) ==> (r matches BomListPlan::Run {
            count_sql,
            list_sql,
            organization: org,
            filter,
            per_page: limit,
            offset,
        } && count_sql@ == bom_count_sql(*filters) && org == o && bom_filter_matches(
            *filters,
            product,
            filter,
        ) && list_sql@ == bom_list_sql(filter) && limit == per_page && offset == (page - 1)
            * per_page),
{
    let o = match organization {
        Some(o) => o,
        None => {
            return BomListPlan::Skip;
        },
    };
    let count_sql = if filters.search.is_some() {
        BOM_COUNT_BY_SEARCH
    } else if filters.product_id.is_some() {
        BOM_COUNT_BY_PRODUCT
    } else if filters.status.is_some() {
        BOM_COUNT_BY_STATUS
    } else {
        BOM_COUNT_ALL
    };
    let (filter, list_sql) = match &filters.search {
        Some(s) => (BomFilterParam::Search(like_pattern(s.as_str())), BOM_LIST_BY_SEARCH),
        None => match product {
            Some(u) => (BomFilterParam::Product(u), BOM_LIST_BY_PRODUCT),
            None => match &filters.status {
                Some(st) => (BomFilterParam::Status(String::from_str(st.as_str())), BOM_LIST_BY_STATUS),
                None => (BomFilterParam::Nothing, BOM_LIST_ALL),
            },
        },
    };
    let offset = (page - 1) * per_page;
    BomListPlan::Run { count_sql, list_sql, organization: o, filter, per_page, offset }
}

/// The organization UUID of a BOM filter (`org:<uuid>`), if it has one.
pub open spec fn bom_filter_org(f: ListBomFilters) -> Option<u128> {
    match f.organization_id {
        Some(s) => prefixed_uuid(s@, "org:"@),
        None => None,
    }
}

/// The product UUID of a BOM filter (`product:<uuid>`), if it has one.
pub open spec fn bom_filter_product(f: ListBomFilters) -> Option<u128> {
    match f.product_id {
        Some(s) => prefixed_uuid(s@, "product:"@),
        None => None,
    }
}

/// Plans a BOM listing from the raw filters and page numbers.
///
/// The organization and product IDs are parsed from `org:<uuid>` and
/// `product:<uuid>`; then the plan is the one [`plan_bom_list_for`] gives. The
/// answer is `None` only when an organization is present and the offset
/// `(page - 1) * per_page` does not fit in an `i64`.
pub fn plan_bom_list(filters: &ListBomFilters, page: i64, per_page: i64) -> (r: Option<BomListPlan>)
    ensures
        bom_filter_org(*filters) is None ==> r == Some(BomListPlan::Skip),
        bom_filter_org(*filters) matches Some(o) ==> (r is None <==> !(i64::MIN < page && i64::MIN
            <= (page - 1) * per_page <= i64::MAX)),
        bom_filter_org(*filters) matches Some(o) ==> (i64::MIN < page && i64::MIN <= (page - 1)
            * per_page <= i64::MAX ==> (r matches Some(BomListPlan::Run {
            count_sql,
            list_sql,
            organization: org,
            filter,
            per_page: limit,
            offset,
        }) && count_sql@ == bom_count_sql(*filters) && org == o && bom_filter_matches(
            *filters,
            bom_filter_product(*filters),
            filter,
        ) && list_sql@ == bom_list_sql(filter) && limit == per_page && offset == (page - 1)
            * per_page)),
{
    let organization = match &filters.organization_id {
        Some(s) => parse_prefixed_uuid(s.as_str(), "org:"),
        None => None,
    };
    let product = match &filters.product_id {
        Some(s) => parse_prefixed_uuid(s.as_str(), "product:"),
        None => None,
    };
    if organization.is_some() {
        if page == i64::MIN {
            return None;
        }
        let prev = page - 1;
        match prev.checked_mul(per_page) {
            Some(_) => {},
            None => {
                return None;
            },
        }
    }
    Some(plan_bom_list_for(filters, organization, product, page, per_page))
}

// ------------------------------------------------------------------------
// Listing and counting orders (SurrealDB)
// ------------------------------------------------------------------------

/// The search condition of the order listing.
pub const ORDER_SEARCH_CONDITION: &'static str =
    "(string::lowercase(order_number) CONTAINS string::lowercase($search) OR string::lowercase(customer_name ?? '') CONTAINS string::lowercase($search))";

/// The status inclusion condition of the order listing.
pub const ORDER_STATUS_IN: &'static str = "status IN $status_filter";

/// The status exclusion condition of the order listing.
pub const ORDER_STATUS_NOT_IN: &'static str = "status NOT IN $status_exclude";

/// The conditions of an order query, in order: search, status inclusion,
/// status exclusion, each present when its filter is.
pub open spec fn order_conditions(search: bool, with_status: bool, exclude: bool) -> Seq<Seq<char>> {
    (if search { seq![ORDER_SEARCH_CONDITION@] } else { seq![] }) + (if with_status {
        seq![ORDER_STATUS_IN@]
    } else {
        seq![]
    }) + (if exclude { seq![ORDER_STATUS_NOT_IN@] } else { seq![] })
}

/// The `WHERE` clause of an order query: empty without conditions, else
/// `WHERE ` and the conditions joined with ` AND `.
pub open spec fn order_where_clause(search: bool, with_status: bool, exclude: bool) -> Seq<char> {
    let c = order_conditions(search, with_status, exclude);
    if c.len() == 0 {
        seq![]
    } else {
        "WHERE "@ + joined(c, " AND "@)
    }
}

/// Builds the `WHERE` clause of an order query.
pub fn order_where(search: bool, with_status: bool, exclude: bool) -> (r: String)
    ensures
        r@ == order_where_clause(search, with_status, exclude),
{
    proof {
        reveal_strlit("");
        reveal_strlit(" AND ");
    }
    let mut conditions: Vec<&'static str> = Vec::new();
    if search {
        conditions.push(ORDER_SEARCH_CONDITION);
    }
    if with_status {
        conditions.push(ORDER_STATUS_IN);
    }
    if exclude {
        conditions.push(ORDER_STATUS_NOT_IN);
    }
    let ghost c = order_conditions(search, with_status, exclude);
    proof {
        assert(crate::jwt::str_texts(conditions@) =~= c);
    }
    if conditions.len() == 0 {
        return String::from_str("");
    }
    let mut r = String::from_str("WHERE ");
    let mut i: usize = 0;
    while i < conditions.len()
        invariant
            i <= conditions@.len(),
            conditions@.len() > 0,
            crate::jwt::str_texts(conditions@) == c,
            i == 0 ==> r@ == "WHERE "@,
            i > 0 ==> r@ == "WHERE "@ + joined(c.subrange(0, i as int), " AND "@),
        decreases conditions@.len() - i,
    {
        let ghost before = r@;
        if i > 0 {
            r = r.concat(" AND ");
        }
        r = r.concat(conditions[i]);
        proof {
            let t = c.subrange(0, i + 1);
            assert(t.drop_last() =~= c.subrange(0, i as int));
            assert(t.last() == conditions@[i as int]@);
            if i == 0 {
                assert(joined(t, " AND "@) == t[0]);
            } else {
                assert(joined(t, " AND "@) == joined(t.drop_last(), " AND "@) + " AND "@ + t.last());
            }
        }
        i = i + 1;
    }
    proof {
        assert(c.subrange(0, c.len() as int) =~= c);
    }
    r
}

/// The order listing statement.
pub open spec fn order_list_query_text(
    sort_by: Seq<char>,
    desc: bool,
    search: bool,
    with_status: bool,
    exclude: bool,
) -> Seq<char> {
    "SELECT * FROM order "@ + order_where_clause(search, with_status, exclude) + " ORDER BY "@
        + sort_column_choice(sort_by, sort_whitelist(Backend::Surreal, SortTable::Orders), "created_at"@)
        + " "@ + (if desc { "DESC"@ } else { "ASC"@ }) + " LIMIT $limit START $start"@
}

/// Builds the order listing statement: the optional conditions, the
/// whitelisted sort column and direction, and the page parameters.
pub fn order_list_query(sort_by: &str, desc: bool, search: bool, with_status: bool, exclude: bool) -> (r:
    String)
    ensures
        r@ == order_list_query_text(sort_by@, desc, search, with_status, exclude),
{
    let w = order_where(search, with_status, exclude);
    let col = sort_column_for(Backend::Surreal, SortTable::Orders, sort_by);
    let dir = sort_dir(desc);
    let r = join3("SELECT * FROM order ", w.as_str(), " ORDER BY ");
    let r = r.concat(col).concat(" ").concat(dir).concat(" LIMIT $limit START $start");
    r
}

/// The order count statement.
pub open spec fn order_count_query_text(search: bool, with_status: bool, exclude: bool) -> Seq<char> {
    "SELECT count() AS count FROM order "@ + order_where_clause(search, with_status, exclude)
        + " GROUP ALL"@
}

/// Builds the order count statement with the optional conditions.
pub fn order_count_query(search: bool, with_status: bool, exclude: bool) -> (r: String)
    ensures
        r@ == order_count_query_text(search, with_status, exclude),
{
    let w = order_where(search, with_status, exclude);
    join3("SELECT count() AS count FROM order ", w.as_str(), " GROUP ALL")
}

// ------------------------------------------------------------------------
// Listing and counting other records (SurrealDB)
// ------------------------------------------------------------------------

/// The record tables that SurrealDB listings page through, besides orders.
#[derive(Debug, Clone, Copy, PartialEq, Eq, Structural)]
pub enum ListingTable {
    /// `product`; the search matches name, SKU or barcode.
    Products,
    /// `user`; the search matches email, full name or username.
    Users,
    /// `organization`; the search matches the name.
    Organizations,
    /// `role`; the search matches the name.
    Roles,
    /// `category`; the search matches the name.
    Categories,
    /// `brand`; the search matches the name.
    Brands,
    /// `inventory_item`; listings take no search.
    Inventory,
}

/// The sort whitelist a listing table uses.
pub open spec fn listing_sort_table(t: ListingTable) -> SortTable {
    match t {
        ListingTable::Products => SortTable::Products,
        ListingTable::Users => SortTable::Users,
        ListingTable::Organizations => SortTable::Organizations,
        ListingTable::Roles => SortTable::Roles,
        ListingTable::Categories => SortTable::Categories,
        ListingTable::Brands => SortTable::Brands,
        ListingTable::Inventory => SortTable::Inventory,
    }
}

impl ListingTable {
    /// The sort whitelist this table uses.
    pub fn sort_table(&self) -> (r: SortTable)
        ensures
            r == listing_sort_table(*self),
    {
        match self {
            ListingTable::Products => SortTable::Products,
            ListingTable::Users => SortTable::Users,
            ListingTable::Organizations => SortTable::Organizations,
            ListingTable::Roles => SortTable::Roles,
            ListingTable::Categories => SortTable::Categories,
            ListingTable::Brands => SortTable::Brands,
            ListingTable::Inventory => SortTable::Inventory,
        }
    }
}

/// The part of a listing statement before its `ORDER BY`: the table and, when
/// a search is given, the search condition.
pub open spec fn listing_head(t: ListingTable, search: bool) -> Seq<char> {
    match t {
        ListingTable::Products => if search {
            "SELECT * FROM product WHERE deleted_at = NONE AND (string::lowercase(name) CONTAINS string::lowercase($search) OR string::lowercase(sku) CONTAINS string::lowercase($search) OR string::lowercase(barcode ?? '') CONTAINS string::lowercase($search))"@
        } else {
            "SELECT * FROM product WHERE deleted_at = NONE"@
        },
        ListingTable::Users => if search {
            "SELECT * FROM user WHERE string::lowercase(email) CONTAINS string::lowercase($search) OR string::lowercase(full_name ?? '') CONTAINS string::lowercase($search) OR string::lowercase(username ?? '') CONTAINS string::lowercase($search)"@
        } else {
            "SELECT * FROM user"@
        },
        ListingTable::Organizations => if search {
            "SELECT * FROM organization WHERE string::lowercase(name) CONTAINS string::lowercase($search)"@
        } else {
            "SELECT * FROM organization"@
        },
        ListingTable::Roles => if search {
            "SELECT * FROM role WHERE string::lowercase(name) CONTAINS string::lowercase($search)"@
        } else {
            "SELECT * FROM role"@
        },
        ListingTable::Categories => if search {
            "SELECT * FROM category WHERE string::lowercase(name) CONTAINS string::lowercase($search)"@
        } else {
            "SELECT * FROM category"@
        },
        ListingTable::Brands => if search {
            "SELECT * FROM brand WHERE string::lowercase(name) CONTAINS string::lowercase($search)"@
        } else {
            "SELECT * FROM brand"@
        },
        ListingTable::Inventory => "SELECT * FROM inventory_item"@,
    }
}

fn listing_head_of(t: ListingTable, search: bool) -> (r: &'static str)
    ensures
        r@ == listing_head(t, search),
{
    match t {
        ListingTable::Products => if search {
            "SELECT * FROM product WHERE deleted_at = NONE AND (string::lowercase(name) CONTAINS string::lowercase($search) OR string::lowercase(sku) CONTAINS string::lowercase($search) OR string::lowercase(barcode ?? '') CONTAINS string::lowercase($search))"
        } else {
            "SELECT * FROM product WHERE deleted_at = NONE"
        },
        ListingTable::Users => if search {
            "SELECT * FROM user WHERE string::lowercase(email) CONTAINS string::lowercase($search) OR string::lowercase(full_name ?? '') CONTAINS string::lowercase($search) OR string::lowercase(username ?? '') CONTAINS string::lowercase($search)"
        } else {
            "SELECT * FROM user"
        },
        ListingTable::Organizations => if search {
            "SELECT * FROM organization WHERE string::lowercase(name) CONTAINS string::lowercase($search)"
        } else {
            "SELECT * FROM organization"
        },
        ListingTable::Roles => if search {
            "SELECT * FROM role WHERE string::lowercase(name) CONTAINS string::lowercase($search)"
        } else {
            "SELECT * FROM role"
        },
        ListingTable::Categories => if search {
            "SELECT * FROM category WHERE string::lowercase(name) CONTAINS string::lowercase($search)"
        } else {
            "SELECT * FROM category"
        },
        ListingTable::Brands => if search {
            "SELECT * FROM brand WHERE string::lowercase(name) CONTAINS string::lowercase($search)"
        } else {
            "SELECT * FROM brand"
        },
        ListingTable::Inventory => "SELECT * FROM inventory_item",
    }
}

/// A listing statement: the head, then the whitelisted sort column and the
/// direction, then the page parameters.
pub open spec fn listing_query_text(t: ListingTable, sort_by: Seq<char>, desc: bool, search: bool) -> Seq<char> {
    listing_head(t, search) + " ORDER BY "@ + sort_column_choice(
        sort_by,
        sort_whitelist(Backend::Surreal, listing_sort_table(t)),
        "created_at"@,
    ) + " "@ + (if desc { "DESC"@ } else { "ASC"@ }) + " LIMIT $limit START $start"@
}

/// Builds a listing statement for a table.
pub fn listing_query(t: ListingTable, sort_by: &str, desc: bool, search: bool) -> (r: String)
    ensures
        r@ == listing_query_text(t, sort_by@, desc, search),
{
    let col = sort_column_for(Backend::Surreal, t.sort_table(), sort_by);
    let dir = sort_dir(desc);
    let r = join3(listing_head_of(t, search), " ORDER BY ", col);
    r.concat(" ").concat(dir).concat(" LIMIT $limit START $start")
}

/// The count statement of a table, with the search condition when a search is
/// given (products count matches on name and SKU only).
pub open spec fn listing_count_text(t: ListingTable, search: bool) -> Seq<char> {
    match t {
        ListingTable::Products => if search {
            "SELECT count() AS count FROM product WHERE deleted_at = NONE AND (string::lowercase(name) CONTAINS string::lowercase($search) OR string::lowercase(sku) CONTAINS string::lowercase($search)) GROUP ALL"@
        } else {
            "SELECT count() AS count FROM product WHERE deleted_at = NONE GROUP ALL"@
        },
        ListingTable::Users => if search {
            "SELECT count() AS count FROM user WHERE string::lowercase(email) CONTAINS string::lowercase($search) OR string::lowercase(full_name ?? '') CONTAINS string::lowercase($search) OR string::lowercase(username ?? '') CONTAINS string::lowercase($search) GROUP ALL"@
        } else {
            "SELECT count() AS count FROM user GROUP ALL"@
        },
        ListingTable::Organizations => if search {
            "SELECT count() AS count FROM organization WHERE string::lowercase(name) CONTAINS string::lowercase($search) GROUP ALL"@
        } else {
            "SELECT count() AS count FROM organization GROUP ALL"@
        },
        ListingTable::Roles => if search {
            "SELECT count() AS count FROM role WHERE string::lowercase(name) CONTAINS string::lowercase($search) GROUP ALL"@
        } else {
            "SELECT count() AS count FROM role GROUP ALL"@
        },
        ListingTable::Categories => if search {
            "SELECT count() AS count FROM category WHERE string::lowercase(name) CONTAINS string::lowercase($search) GROUP ALL"@
        } else {
            "SELECT count() AS count FROM category GROUP ALL"@
        },
        ListingTable::Brands => if search {
            "SELECT count() AS count FROM brand WHERE string::lowercase(name) CONTAINS string::lowercase($search) GROUP ALL"@
        } else {
            "SELECT count() AS count FROM brand GROUP ALL"@
        },
        ListingTable::Inventory => "SELECT count() AS count FROM inventory_item GROUP ALL"@,
    }
}

/// The count statement of a table.
pub fn listing_count_query(t: ListingTable, search: bool) -> (r: &'static str)
    ensures
        r@ == listing_count_text(t, search),
{
    match t {
        ListingTable::Products => if search {
            "SELECT count() AS count FROM product WHERE deleted_at = NONE AND (string::lowercase(name) CONTAINS string::lowercase($search) OR string::lowercase(sku) CONTAINS string::lowercase($search)) GROUP ALL"
        } else {
            "SELECT count() AS count FROM product WHERE deleted_at = NONE GROUP ALL"
        },
        ListingTable::Users => if search {
            "SELECT count() AS count FROM user WHERE string::lowercase(email) CONTAINS string::lowercase($search) OR string::lowercase(full_name ?? '') CONTAINS string::lowercase($search) OR string::lowercase(username ?? '') CONTAINS string::lowercase($search) GROUP ALL"
        } else {
            "SELECT count() AS count FROM user GROUP ALL"
        },
        ListingTable::Organizations => if search {
            "SELECT count() AS count FROM organization WHERE string::lowercase(name) CONTAINS string::lowercase($search) GROUP ALL"
        } else {
            "SELECT count() AS count FROM organization GROUP ALL"
        },
        ListingTable::Roles => if search {
            "SELECT count() AS count FROM role WHERE string::lowercase(name) CONTAINS string::lowercase($search) GROUP ALL"
        } else {
            "SELECT count() AS count FROM role GROUP ALL"
        },
        ListingTable::Categories => if search {
            "SELECT count() AS count FROM category WHERE string::lowercase(name) CONTAINS string::lowercase($search) GROUP ALL"
        } else {
            "SELECT count() AS count FROM category GROUP ALL"
        },
        ListingTable::Brands => if search {
            "SELECT count() AS count FROM brand WHERE string::lowercase(name) CONTAINS string::lowercase($search) GROUP ALL"
        } else {
            "SELECT count() AS count FROM brand GROUP ALL"
        },
        ListingTable::Inventory => "SELECT count() AS count FROM inventory_item GROUP ALL",
    }
}


// ------------------------------------------------------------------------
// Creating products (SurrealDB)
// ------------------------------------------------------------------------

/// The record keys that a new product links to.
#[derive(Debug, Clone)]
pub struct ProductLinks {
    /// Key of the owning organization record.
    pub organization: String,
    /// Key of the creating user record.
    pub created_by: String,
    /// Key of the category record, if any.
    pub category: Option<String>,
    /// Key of the brand record, if any.
    pub brand: Option<String>,
}

/// The record keys of a new product's links: each ID with its table prefix
/// removed wherever it occurs.
pub fn product_links(
    organization_id: &str,
    created_by: &str,
    category_id: Option<&str>,
    brand_id: Option<&str>,
) -> (r: ProductLinks)
    ensures
        r.organization@ == remove_all(organization_id@, "organization:"@),
        r.created_by@ == remove_all(created_by@, "user:"@),
        r.category is Some <==> category_id is Some,
        r.category matches Some(k) ==> k@ == remove_all(category_id->0@, "category:"@),
        r.brand is Some <==> brand_id is Some,
        r.brand matches Some(k) ==> k@ == remove_all(brand_id->0@, "brand:"@),
{
    ProductLinks {
        organization: record_key(organization_id, "organization:"),
        created_by: record_key(created_by, "user:"),
        category: match category_id {
            Some(c) => Some(record_key(c, "category:")),
            None => None,
        },
        brand: match brand_id {
            Some(b) => Some(record_key(b, "brand:")),
            None => None,
        },
    }
}

/// The stored minimum stock level of a new product: the given one, or 0.
pub fn min_stock_level_or_default(min_stock_level: Option<i64>) -> (r: i64)
    ensures
        r == match min_stock_level {
            Some(v) => v,
            None => 0,
        },
{
    match min_stock_level {
        Some(v) => v,
        None => 0,
    }
}

// ------------------------------------------------------------------------
// Updating a product from a JSON patch (PostgreSQL)
// ------------------------------------------------------------------------

/// A member value of a product patch, as far as the update reads it.
#[derive(Debug, Clone)]
pub enum PatchValue {
    /// A JSON string.
    Text(String),
    /// A JSON number that fits an `i64`.
    Int(i64),
    /// A JSON boolean.
    Bool(bool),
    /// Any other JSON value.
    Other,
}

/// A product patch document: a JSON object's members in order, or another
/// JSON value.
#[derive(Debug, Clone)]
pub enum ProductPatch {
    NotObject,
    Object(Vec<(String, PatchValue)>),
}

/// The value of the first member of a patch named `k`.
pub open spec fn patch_lookup(es: Seq<(String, PatchValue)>, k: Seq<char>) -> Option<PatchValue>
    decreases es.len(),
{
    if es.len() == 0 {
        None
    } else if es[0].0@ == k {
        Some(es[0].1)
    } else {
        patch_lookup(es.subrange(1, es.len() as int), k)
    }
}

/// The text of member `k`, when it is a string.
pub open spec fn patch_text(es: Seq<(String, PatchValue)>, k: Seq<char>) -> Option<Seq<char>> {
    match patch_lookup(es, k) {
        Some(PatchValue::Text(s)) => Some(s@),
        _ => None,
    }
}

/// The number of member `k`, when it is an `i64`.
pub open spec fn patch_int(es: Seq<(String, PatchValue)>, k: Seq<char>) -> Option<i64> {
    match patch_lookup(es, k) {
        Some(PatchValue::Int(n)) => Some(n),
        _ => None,
    }
}

/// The truth value of member `k`, when it is a boolean.
pub open spec fn patch_bool(es: Seq<(String, PatchValue)>, k: Seq<char>) -> Option<bool> {
    match patch_lookup(es, k) {
        Some(PatchValue::Bool(b)) => Some(b),
        _ => None,
    }
}

/// The values an update binds: `None` leaves the stored column as it is.
#[derive(Debug, Clone)]
pub struct ProductUpdate {
    pub name: Option<String>,
    pub description: Option<String>,
    pub sku: Option<String>,
    pub barcode: Option<String>,
    pub base_price: Option<i64>,
    pub cost_price: Option<i64>,
    pub category_id: Option<u128>,
    pub brand_id: Option<u128>,
    pub image_url: Option<String>,
    pub is_featured: Option<bool>,
    pub track_inventory: Option<bool>,
}

/// What updating a product does.
#[derive(Debug, Clone)]
pub enum ProductUpdatePlan {
    /// An empty patch changes nothing: the stored product is fetched instead
    /// (a missing one is `NotFound("Product")`).
    FetchExisting,
    /// Run the update with these values.
    Update(ProductUpdate),
}

/// The parsed UUID of a member given as text, when there is one.
pub open spec fn patch_uuid(es: Seq<(String, PatchValue)>, k: Seq<char>) -> Option<u128> {
    match patch_text(es, k) {
        Some(t) => match uuid_parse_result(t) {
            Ok(u) => Some(u),
            Err(_) => None,
        },
        None => None,
    }
}

/// The error of a member given as text that is no UUID, when there is one.
pub open spec fn patch_uuid_error(es: Seq<(String, PatchValue)>, k: Seq<char>) -> Option<Seq<char>> {
    match patch_text(es, k) {
        Some(t) => match uuid_parse_result(t) {
            Ok(_) => None,
            Err(m) => Some("invalid UUID '"@ + t + "': "@ + m),
        },
        None => None,
    }
}

/// Whether an update binds exactly what the patch gives for each column.
pub open spec fn update_matches(u: ProductUpdate, es: Seq<(String, PatchValue)>) -> bool {
    &&& opt_text(u.name) == patch_text(es, "name"@)
    &&& opt_text(u.description) == patch_text(es, "description"@)
    &&& opt_text(u.sku) == patch_text(es, "sku"@)
    &&& opt_text(u.barcode) == patch_text(es, "barcode"@)
    &&& u.base_price == patch_int(es, "base_price"@)
    &&& u.cost_price == patch_int(es, "cost_price"@)
    &&& u.category_id == patch_uuid(es, "category_id"@)
    &&& u.brand_id == patch_uuid(es, "brand_id"@)
    &&& opt_text(u.image_url) == patch_text(es, "image_url"@)
    &&& u.is_featured == patch_bool(es, "is_featured"@)
    &&& u.track_inventory == patch_bool(es, "track_inventory"@)
}

/// The value of the first member named `k`.
fn lookup_member<'a>(es: &'a Vec<(String, PatchValue)>, k: &str) -> (r: Option<&'a PatchValue>)
    ensures
        match r {
            Some(v) => patch_lookup(es@, k@) == Some(*v),
            None => patch_lookup(es@, k@) is None,
        },
{
    let mut i: usize = 0;
    assert(es@.subrange(0, es@.len() as int) =~= es@);
    while i < es.len()
        invariant
            i <= es@.len(),
            patch_lookup(es@, k@) == patch_lookup(es@.subrange(i as int, es@.len() as int), k@),
        decreases es@.len() - i,
    {
        let ghost rest = es@.subrange(i as int, es@.len() as int);
        assert(rest[0] == es@[i as int]);
        if str_equal(es[i].0.as_str(), k) {
            return Some(&es[i].1);
        }
        assert(rest.subrange(1, rest.len() as int) =~= es@.subrange(i + 1, es@.len() as int));
        i = i + 1;
    }
    None
}

fn member_text(es: &Vec<(String, PatchValue)>, k: &str) -> (r: Option<String>)
    ensures
        opt_text(r) == patch_text(es@, k@),
{
    match lookup_member(es, k) {
        Some(PatchValue::Text(s)) => Some(String::from_str(s.as_str())),
        _ => None,
    }
}

fn member_int(es: &Vec<(String, PatchValue)>, k: &str) -> (r: Option<i64>)
    ensures
        r == patch_int(es@, k@),
{
    match lookup_member(es, k) {
        Some(PatchValue::Int(n)) => Some(*n),
        _ => None,
    }
}

fn member_bool(es: &Vec<(String, PatchValue)>, k: &str) -> (r: Option<bool>)
    ensures
        r == patch_bool(es@, k@),
{
    match lookup_member(es, k) {
        Some(PatchValue::Bool(b)) => Some(*b),
        _ => None,
    }
}

fn member_uuid(es: &Vec<(String, PatchValue)>, k: &str) -> (r: Result<Option<u128>, PgError>)
    ensures
        match patch_uuid_error(es@, k@) {
            Some(m) => r matches Err(PgError::Query(q)) && q@ == m,
            None => r == Ok::<Option<u128>, PgError>(patch_uuid(es@, k@)),
        },
{
    match lookup_member(es, k) {
        Some(PatchValue::Text(s)) => match parse_uuid(s.as_str()) {
            Ok(u) => Ok(Some(u)),
            Err(e) => Err(e),
        },
        _ => Ok(None),
    }
}

/// Plans the update of product `id` from a JSON patch, checking in order:
/// the ID must be a UUID; the patch must be an object; an empty object only
/// fetches the stored product; `category_id` and `brand_id`, when given as
/// text, must be UUIDs. Otherwise the update binds, for each column, the
/// member of that name when it has the column's type (text, `i64` number or
/// boolean), and leaves the column as it is otherwise.
pub fn plan_product_update(id: &str, patch: &ProductPatch) -> (r: Result<(u128, ProductUpdatePlan), PgError>)
    ensures
        uuid_parse_result(id@) matches Err(m) ==> (r matches Err(PgError::Query(q)) && q@
            == "invalid UUID '"@ + id@ + "': "@ + m),
        uuid_parse_result(id@) matches Ok(u) ==> match *patch {
            ProductPatch::NotObject => r matches Err(PgError::Query(q)) && q@ == "expected JSON object"@,
            ProductPatch::Object(es) => if es@.len() == 0 {
                r matches Ok((v, ProductUpdatePlan::FetchExisting)) && v == u
            } else {
                match patch_uuid_error(es@, "category_id"@) {
                    Some(m) => r matches Err(PgError::Query(q)) && q@ == m,
                    None => match patch_uuid_error(es@, "brand_id"@) {
                        Some(m) => r matches Err(PgError::Query(q)) && q@ == m,
                        None => r matches Ok((v, ProductUpdatePlan::Update(upd))) && v == u
                            && update_matches(upd, es@),
                    },
                }
            },
        },
{
    let uid = match parse_uuid(id) {
        Ok(u) => u,
        Err(e) => {
            return Err(e);
        },
    };
    let es = match patch {
        ProductPatch::NotObject => {
            return Err(PgError::Query(String::from_str("expected JSON object")));
        },
        ProductPatch::Object(es) => es,
    };
    if es.len() == 0 {
        return Ok((uid, ProductUpdatePlan::FetchExisting));
    }
    let category_id = match member_uuid(es, "category_id") {
        Ok(c) => c,
        Err(e) => {
            return Err(e);
        },
    };
    let brand_id = match member_uuid(es, "brand_id") {
        Ok(b) => b,
        Err(e) => {
            return Err(e);
        },
    };
    let upd = ProductUpdate {
        name: member_text(es, "name"),
        description: member_text(es, "description"),
        sku: member_text(es, "sku"),
        barcode: member_text(es, "barcode"),
        base_price: member_int(es, "base_price"),
        cost_price: member_int(es, "cost_price"),
        category_id,
        brand_id,
        image_url: member_text(es, "image_url"),
        is_featured: member_bool(es, "is_featured"),
        track_inventory: member_bool(es, "track_inventory"),
    };
    Ok((uid, ProductUpdatePlan::Update(upd)))
}

/// Law: a BOM listing binds the filter of the first filter present, in the
/// order search, product, status: a search is bound as the pattern
/// `%<search>%` with the name-matching page statement, whatever else is given;
/// without a search a parsed product ID is bound with the product page
/// statement; then a status with the status page statement; otherwise no
/// filter with the plain page statement. The count statement follows which
/// filter fields are present in the same order.
pub proof fn law_bom_listing_binds_first_filter(f: ListBomFilters, product: Option<u128>, p: BomFilterParam)
    requires
        bom_filter_matches(f, product, p),
    ensures
        f.search matches Some(s) ==> (p matches BomFilterParam::Search(pat) && pat@ == "%"@ + s@ + "%"@
            && bom_list_sql(p) == BOM_LIST_BY_SEARCH@ && bom_count_sql(f) == BOM_COUNT_BY_SEARCH@),
        f.search is None ==> (product matches Some(u) ==> (p == BomFilterParam::Product(u) && bom_list_sql(p)
            == BOM_LIST_BY_PRODUCT@)),
        f.search is None && product is None ==> (f.status matches Some(st) ==> (p matches BomFilterParam::Status(
            v,
        ) && v@ == st@ && bom_list_sql(p) == BOM_LIST_BY_STATUS@)),
        f.search is None && product is None && f.status is None ==> (p == BomFilterParam::Nothing && bom_list_sql(p)
            == BOM_LIST_ALL@),
        f.search is None && f.product_id is Some ==> bom_count_sql(f) == BOM_COUNT_BY_PRODUCT@,
        f.search is None && f.product_id is None && f.status is Some ==> bom_count_sql(f) == BOM_COUNT_BY_STATUS@,
        f.search is None && f.product_id is None && f.status is None ==> bom_count_sql(f) == BOM_COUNT_ALL@,
{
}

} // verus!
