//! The storage layer's own logic: error texts, identifier handling, sort-column
//! whitelists and the query texts and parameters that the database clients send.
use vstd::prelude::*;
use vstd::string::*;
use crate::error::{join2, join3};
use crate::ids::{parse_uuid_text, uuid_parse_result, uuid_text, uuid_to_text};
use crate::jwt::str_texts;
use crate::text::str_equal;

verus! {

// ------------------------------------------------------------------------
// Errors
// ------------------------------------------------------------------------

/// Errors returned by the PostgreSQL client.
#[derive(Debug, Clone, PartialEq, Eq)]
pub enum PgError {
    /// The connection pool could not be established.
    Connection(String),
    /// A SQL query failed.
    Query(String),
    /// A migration failed.
    Migration(String),
    /// A requested record was not found.
    NotFound(String),
}

/// The message text of a [`PgError`].
pub open spec fn pg_error_text(e: PgError) -> Seq<char> {
    match e {
        PgError::Connection(s) => "connection error: "@ + s@,
        PgError::Query(s) => "query error: "@ + s@,
        PgError::Migration(s) => "migration error: "@ + s@,
        PgError::NotFound(s) => "not found: "@ + s@,
    }
}

impl PgError {
    /// The error's message, as its text form prints it.
    pub fn to_string(&self) -> (r: String)
        ensures
            r@ == pg_error_text(*self),
    {
        match self {
            PgError::Connection(s) => join2("connection error: ", s.as_str()),
            PgError::Query(s) => join2("query error: ", s.as_str()),
            PgError::Migration(s) => join2("migration error: ", s.as_str()),
            PgError::NotFound(s) => join2("not found: ", s.as_str()),
        }
    }
}

/// Errors produced by the SurrealDB client layer.
#[derive(Debug, Clone, PartialEq, Eq)]
pub enum SurrealError {
    /// Connection to SurrealDB failed.
    Connection(String),
    /// A query execution error.
    Query(String),
}

/// The message text of a [`SurrealError`].
pub open spec fn surreal_error_text(e: SurrealError) -> Seq<char> {
    match e {
        SurrealError::Connection(s) => "SurrealDB connection failed: "@ + s@,
        SurrealError::Query(s) => "SurrealDB query error: "@ + s@,
    }
}

impl SurrealError {
    /// The error's message, as its text form prints it.
    pub fn to_string(&self) -> (r: String)
        ensures
            r@ == surreal_error_text(*self),
    {
        match self {
            SurrealError::Connection(s) => join2("SurrealDB connection failed: ", s.as_str()),
            SurrealError::Query(s) => join2("SurrealDB query error: ", s.as_str()),
        }
    }
}

/// Errors produced by the Zenoh client layer.
#[derive(Debug, Clone, PartialEq, Eq)]
pub enum ZenohError {
    /// Connection to the Zenoh router failed.
    Connection(String),
    /// Publishing a message failed.
    Publish(String),
    /// Subscribing to a topic failed.
    Subscribe(String),
}

/// The message text of a [`ZenohError`].
pub open spec fn zenoh_error_text(e: ZenohError) -> Seq<char> {
    match e {
        ZenohError::Connection(s) => "Zenoh connection failed: "@ + s@,
        ZenohError::Publish(s) => "Zenoh publish error: "@ + s@,
        ZenohError::Subscribe(s) => "Zenoh subscribe error: "@ + s@,
    }
}

impl ZenohError {
    /// The error's message, as its text form prints it.
    pub fn to_string(&self) -> (r: String)
        ensures
            r@ == zenoh_error_text(*self),
    {
        match self {
            ZenohError::Connection(s) => join2("Zenoh connection failed: ", s.as_str()),
            ZenohError::Publish(s) => join2("Zenoh publish error: ", s.as_str()),
            ZenohError::Subscribe(s) => join2("Zenoh subscribe error: ", s.as_str()),
        }
    }
}

/// One JSON5 setting of a Zenoh session configuration: its key path and value.
#[derive(Debug, Clone)]
pub struct ZenohSetting {
    /// The configuration key path.
    pub key: String,
    /// The value, as JSON5 text.
    pub value: String,
}

/// The settings a Zenoh session is opened with: the endpoint (`["<connect>"]`)
/// unless it is empty, then the user and password (each quoted) when both are
/// given.
pub open spec fn zenoh_settings_spec(connect: Seq<char>, user: Option<Seq<char>>, password: Option<Seq<char>>) -> Seq<(Seq<char>, Seq<char>)> {
    (if connect.len() > 0 {
        seq![("connect/endpoints"@, "[\""@ + connect + "\"]"@)]
    } else {
        seq![]
    }) + match (user, password) {
        (Some(u), Some(p)) => seq![
            ("transport/auth/usrpwd/user"@, "\""@ + u + "\""@),
            ("transport/auth/usrpwd/password"@, "\""@ + p + "\""@),
        ],
        _ => seq![],
    }
}

/// The settings of a Zenoh session, in the order they are applied.
pub fn zenoh_settings(connect: &str, user: Option<&str>, password: Option<&str>) -> (r: Vec<ZenohSetting>)
    ensures
        r@.map_values(|z: ZenohSetting| (z.key@, z.value@)) == zenoh_settings_spec(
            connect@,
            match user { Some(u) => Some(u@), None => None },
            match password { Some(p) => Some(p@), None => None },
        ),
{
    let mut r: Vec<ZenohSetting> = Vec::new();
    if connect.unicode_len() > 0 {
        r.push(ZenohSetting { key: String::from_str("connect/endpoints"), value: join3("[\"", connect, "\"]") });
    }
    let ghost first = r@;
    match (user, password) {
        (Some(u), Some(p)) => {
            r.push(ZenohSetting { key: String::from_str("transport/auth/usrpwd/user"), value: join3("\"", u, "\"") });
            r.push(ZenohSetting { key: String::from_str("transport/auth/usrpwd/password"), value: join3("\"", p, "\"") });
        },
        _ => {},
    }
    proof {
        assert(r@.map_values(|z: ZenohSetting| (z.key@, z.value@)) =~= zenoh_settings_spec(
            connect@,
            match user { Some(u) => Some(u@), None => None },
            match password { Some(p) => Some(p@), None => None },
        ));
    }
    r
}

// ------------------------------------------------------------------------
// Identifiers
// ------------------------------------------------------------------------

/// The hyphenated text of a UUID.
pub fn uuid_to_string(u: u128) -> (r: String)
    ensures
        r@ == uuid_text(u),
{
    uuid_to_text(u)
}

/// Parses an ID string as a UUID; a failure is a query error
/// `invalid UUID '<id>': <parser message>`.
pub fn parse_uuid(id: &str) -> (r: Result<u128, PgError>)
    ensures
        uuid_parse_result(id@) matches Ok(u) ==> r == Ok::<u128, PgError>(u),
        uuid_parse_result(id@) matches Err(m) ==> (r matches Err(PgError::Query(q)) && q@
            == "invalid UUID '"@ + id@ + "': "@ + m),
{
    match parse_uuid_text(id) {
        Ok(u) => Ok(u),
        Err(e) => {
            let head = join3("invalid UUID '", id, "': ");
            Err(PgError::Query(head.concat(e.as_str())))
        },
    }
}

/// The record ID text `<table>:<uuid>` of a row.
pub fn record_id(table: &str, u: u128) -> (r: String)
    ensures
        r@ == table@ + ":"@ + uuid_text(u),
{
    let t = uuid_to_text(u);
    join3(table, ":", t.as_str())
}

/// The record ID text of an optional row reference.
pub fn optional_record_id(table: &str, u: Option<u128>) -> (r: Option<String>)
    ensures
        r is Some <==> u is Some,
        r matches Some(t) ==> t@ == table@ + ":"@ + uuid_text(u->0),
{
    match u {
        Some(v) => Some(record_id(table, v)),
        None => None,
    }
}

/// What `str::strip_prefix` returns: the rest after the prefix, if present.
pub open spec fn strip_prefix_spec(s: Seq<char>, prefix: Seq<char>) -> Option<Seq<char>> {
    if prefix.len() <= s.len() && s.subrange(0, prefix.len() as int) == prefix {
        Some(s.subrange(prefix.len() as int, s.len() as int))
    } else {
        None
    }
}

/// `str::strip_prefix`.
pub fn strip_prefix<'a>(s: &'a str, prefix: &str) -> (r: Option<&'a str>)
    ensures
        match r {
            Some(rest) => strip_prefix_spec(s@, prefix@) == Some(rest@),
            None => strip_prefix_spec(s@, prefix@) is None,
        },
{
    let n = s.unicode_len();
    let m = prefix.unicode_len();
    if m > n {
        return None;
    }
    let mut i: usize = 0;
    while i < m
        invariant
            m <= n,
            n == s@.len(),
            m == prefix@.len(),
            i <= m,
            forall|j: int| 0 <= j < i ==> s@[j] == prefix@[j],
        decreases m - i,
    {
        if s.get_char(i) != prefix.get_char(i) {
            proof {
                assert(s@.subrange(0, m as int)[i as int] != prefix@[i as int]);
            }
            return None;
        }
        i = i + 1;
    }
    proof {
        assert(s@.subrange(0, m as int) =~= prefix@);
    }
    Some(s.substring_char(m, n))
}

/// The UUID in a record ID of the form `<prefix><uuid>`, if it has that form.
pub open spec fn prefixed_uuid(id: Seq<char>, prefix: Seq<char>) -> Option<u128> {
    match strip_prefix_spec(id, prefix) {
        Some(rest) => match uuid_parse_result(rest) {
            Ok(u) => Some(u),
            Err(_) => None,
        },
        None => None,
    }
}

/// Parses a record ID `<prefix><uuid>` to its UUID; `None` when the prefix is
/// missing or the rest is not a UUID.
pub fn parse_prefixed_uuid(id: &str, prefix: &str) -> (r: Option<u128>)
    ensures
        r == prefixed_uuid(id@, prefix@),
{
    match strip_prefix(id, prefix) {
        Some(rest) => match parse_uuid_text(rest) {
            Ok(u) => Some(u),
            Err(_) => None,
        },
        None => None,
    }
}

/// `s` with every non-overlapping occurrence of a non-empty `pat` replaced by
/// `rep`, scanning left to right (what `str::replace` returns).
pub open spec fn replaced(s: Seq<char>, pat: Seq<char>, rep: Seq<char>) -> Seq<char>
    decreases s.len(),
{
    if pat.len() == 0 || s.len() < pat.len() {
        s
    } else if s.subrange(0, pat.len() as int) == pat {
        rep + replaced(s.subrange(pat.len() as int, s.len() as int), pat, rep)
    } else {
        seq![s[0]] + replaced(s.drop_first(), pat, rep)
    }
}

/// `s` with every non-overlapping occurrence of `pat` removed (what
/// `str::replace(pat, "")` returns).
pub open spec fn remove_all(s: Seq<char>, pat: Seq<char>) -> Seq<char> {
    replaced(s, pat, seq![])
}

/// Whether `pat` occurs in `s` at character position `i`.
fn occurs_at(s: &str, i: usize, pat: &str) -> (r: bool)
    requires
        i <= s@.len(),
    ensures
        r == (i + pat@.len() <= s@.len() && s@.subrange(i as int, i + pat@.len()) == pat@),
{
    let n = s.unicode_len();
    let m = pat.unicode_len();
    if m > n - i {
        return false;
    }
    let mut j: usize = 0;
    while j < m
        invariant
            n == s@.len(),
            m == pat@.len(),
            i + m <= n,
            j <= m,
            forall|k: int| 0 <= k < j ==> s@[i + k] == pat@[k],
        decreases m - j,
    {
        if s.get_char(i + j) != pat.get_char(j) {
            proof {
                assert(s@.subrange(i as int, i + m)[j as int] != pat@[j as int]);
            }
            return false;
        }
        j = j + 1;
    }
    proof {
        assert(s@.subrange(i as int, i + m) =~= pat@);
    }
    true
}

/// `str::replace` for a non-empty pattern: every non-overlapping occurrence,
/// found left to right, is replaced.
pub fn replace_text(s: &str, pat: &str, rep: &str) -> (r: String)
    requires
        pat@.len() > 0,
    ensures
        r@ == replaced(s@, pat@, rep@),
{
    proof {
        reveal_strlit("");
    }
    let n = s.unicode_len();
    let m = pat.unicode_len();
    let mut r = String::from_str("");
    let mut i: usize = 0;
    proof {
        assert(s@.subrange(0, n as int) =~= s@);
        assert(r@ + replaced(s@, pat@, rep@) =~= replaced(s@, pat@, rep@));
    }
    while i < n
        invariant
            n == s@.len(),
            m == pat@.len(),
            m > 0,
            i <= n,
            r@ + replaced(s@.subrange(i as int, n as int), pat@, rep@) == replaced(s@, pat@, rep@),
        decreases n - i,
    {
        let ghost t = s@.subrange(i as int, n as int);
        let ghost before = r@;
        if occurs_at(s, i, pat) {
            proof {
                assert(t.subrange(0, m as int) =~= s@.subrange(i as int, i + m));
                assert(t.subrange(m as int, t.len() as int) =~= s@.subrange(i + m, n as int));
            }
            r = r.concat(rep);
            proof {
                assert(r@ + replaced(s@.subrange(i + m, n as int), pat@, rep@) =~= before + (rep@
                    + replaced(t.subrange(m as int, t.len() as int), pat@, rep@)));
            }
            i = i + m;
        } else {
            proof {
                if m <= t.len() {
                    assert(t.subrange(0, m as int) =~= s@.subrange(i as int, i + m));
                }
                assert(t.drop_first() =~= s@.subrange(i + 1, n as int));
                if t.len() < m {
                    assert(replaced(t, pat@, rep@) == t);
                    assert(replaced(t.drop_first(), pat@, rep@) == t.drop_first());
                }
            }
            let c = s.substring_char(i, i + 1);
            proof {
                assert(c@ =~= seq![t[0]]);
            }
            r = r.concat(c);
            proof {
                assert(r@ == before + seq![t[0]]);
                assert(seq![t[0]] + replaced(t.drop_first(), pat@, rep@) == replaced(t, pat@, rep@));
                assert(r@ + replaced(s@.subrange(i + 1, n as int), pat@, rep@) =~= before + (seq![t[0]]
                    + replaced(t.drop_first(), pat@, rep@)));
            }
            i = i + 1;
        }
    }
    proof {
        assert(s@.subrange(n as int, n as int) =~= seq![]);
        assert(r@ + seq![] =~= r@);
    }
    r
}

/// The key of a record ID: the ID with every occurrence of the table prefix
/// removed (as `id.replace(prefix, "")` does).
pub fn record_key(id: &str, prefix: &str) -> (r: String)
    ensures
        r@ == remove_all(id@, prefix@),
{
    if prefix.unicode_len() == 0 {
        return String::from_str(id);
    }
    proof {
        reveal_strlit("");
    }
    let r = replace_text(id, prefix, "");
    proof {
        assert(""@ =~= seq![]);
    }
    r
}

// ------------------------------------------------------------------------
// Sorting and search parameters
// ------------------------------------------------------------------------

/// The column a listing sorts by: the requested one when the whitelist holds
/// it, the default otherwise.
pub open spec fn sort_column_choice(input: Seq<char>, allowed: Seq<Seq<char>>, default: Seq<
    char,
>) -> Seq<char> {
    if allowed.contains(input) {
        input
    } else {
        default
    }
}

/// Picks the sort column: the whitelist entry equal to the input, or the default.
pub fn safe_sort_column<'a>(input: &str, allowed: &[&'a str], default: &'a str) -> (r: &'a str)
    ensures
        r@ == sort_column_choice(input@, str_texts(allowed@), default@),
{
    let mut i: usize = 0;
    while i < allowed.len()
        invariant
            i <= allowed@.len(),
            forall|j: int| 0 <= j < i ==> allowed@[j]@ != input@,
        decreases allowed@.len() - i,
    {
        if str_equal(allowed[i], input) {
            proof {
                assert(str_texts(allowed@)[i as int] == input@);
            }
            return allowed[i];
        }
        i = i + 1;
    }
    proof {
        assert forall|j: int| 0 <= j < str_texts(allowed@).len() implies str_texts(allowed@)[j]
            != input@ by {
            assert(str_texts(allowed@)[j] == allowed@[j]@);
        }
    }
    default
}

/// The SQL sort direction keyword.
pub fn sort_dir(desc: bool) -> (r: &'static str)
    ensures
        desc ==> r@ == "DESC"@,
        !desc ==> r@ == "ASC"@,
{
    if desc {
        "DESC"
    } else {
        "ASC"
    }
}

/// The `ILIKE` pattern matching a search text anywhere: `%<search>%`.
pub fn like_pattern(search: &str) -> (r: String)
    ensures
        r@ == "%"@ + search@ + "%"@,
{
    join3("%", search, "%")
}

/// The tables whose listings take a client-chosen sort column.
#[derive(Debug, Clone, Copy, PartialEq, Eq, Structural)]
pub enum SortTable {
    /// Products.
    Products,
    /// Users.
    Users,
    /// Organizations.
    Organizations,
    /// Roles.
    Roles,
    /// Categories.
    Categories,
    /// Brands.
    Brands,
    /// Orders.
    Orders,
    /// Inventory items.
    Inventory,
}

/// The columns besides `created_at` that the PostgreSQL listings sort by.
pub open spec fn pg_sort_whitelist(t: SortTable) -> Seq<Seq<char>> {
    match t {
        SortTable::Products => seq!["name"@, "sku"@, "base_price"@, "is_featured"@, "created_at"@],
        SortTable::Users => seq!["email"@, "full_name"@, "username"@, "is_active"@, "created_at"@],
        SortTable::Organizations => seq!["name"@, "type"@, "code"@, "is_active"@, "created_at"@],
        SortTable::Roles => seq!["name"@, "is_system_role"@, "is_active"@, "created_at"@],
        SortTable::Categories => seq!["name"@, "slug"@, "sort_order"@, "is_active"@, "created_at"@],
        SortTable::Brands => seq!["name"@, "slug"@, "is_active"@, "created_at"@],
        SortTable::Orders => seq![
            "order_number"@,
            "status"@,
            "total_amount"@,
            "payment_status"@,
            "created_at"@,
        ],
        SortTable::Inventory => seq!["quantity_on_hand"@, "quantity_available"@, "sku"@, "created_at"@],
    }
}

/// The columns besides `created_at` that the SurrealDB listings sort by.
pub open spec fn surreal_sort_whitelist(t: SortTable) -> Seq<Seq<char>> {
    match t {
        SortTable::Products => seq!["name"@, "sku"@, "base_price"@, "is_featured"@],
        SortTable::Users => seq!["email"@, "full_name"@, "username"@, "is_active"@, "last_login_at"@],
        SortTable::Organizations => seq!["name"@, "type"@, "is_active"@],
        SortTable::Roles => seq!["name"@, "is_system_role"@, "is_active"@],
        SortTable::Categories => seq!["name"@, "slug"@, "sort_order"@, "is_active"@],
        SortTable::Brands => seq!["name"@, "slug"@, "is_active"@],
        SortTable::Orders => seq!["order_number"@, "status"@, "total_amount"@, "payment_status"@],
        SortTable::Inventory => seq!["quantity_on_hand"@, "quantity_available"@, "sku"@],
    }
}

/// Which database a listing runs on.
#[derive(Debug, Clone, Copy, PartialEq, Eq, Structural)]
pub enum Backend {
    /// PostgreSQL.
    Postgres,
    /// SurrealDB.
    Surreal,
}

/// The whitelist of a table's listing on a backend.
pub open spec fn sort_whitelist(b: Backend, t: SortTable) -> Seq<Seq<char>> {
    match b {
        Backend::Postgres => pg_sort_whitelist(t),
        Backend::Surreal => surreal_sort_whitelist(t),
    }
}

/// The whitelist of a table's listing on a backend, as string slices.
pub fn sort_whitelist_of(b: Backend, t: SortTable) -> (r: Vec<&'static str>)
    ensures
        str_texts(r@) == sort_whitelist(b, t),
{
    let v: Vec<&'static str> = match (b, t) {
        (Backend::Postgres, SortTable::Products) => vec!["name", "sku", "base_price", "is_featured", "created_at"],
        (Backend::Postgres, SortTable::Users) => vec!["email", "full_name", "username", "is_active", "created_at"],
        (Backend::Postgres, SortTable::Organizations) => vec!["name", "type", "code", "is_active", "created_at"],
        (Backend::Postgres, SortTable::Roles) => vec!["name", "is_system_role", "is_active", "created_at"],
        (Backend::Postgres, SortTable::Categories) => vec!["name", "slug", "sort_order", "is_active", "created_at"],
        (Backend::Postgres, SortTable::Brands) => vec!["name", "slug", "is_active", "created_at"],
        (Backend::Postgres, SortTable::Orders) => vec![
            "order_number",
            "status",
            "total_amount",
            "payment_status",
            "created_at",
        ],
        (Backend::Postgres, SortTable::Inventory) => vec!["quantity_on_hand", "quantity_available", "sku", "created_at"],
        (Backend::Surreal, SortTable::Products) => vec!["name", "sku", "base_price", "is_featured"],
        (Backend::Surreal, SortTable::Users) => vec!["email", "full_name", "username", "is_active", "last_login_at"],
        (Backend::Surreal, SortTable::Organizations) => vec!["name", "type", "is_active"],
        (Backend::Surreal, SortTable::Roles) => vec!["name", "is_system_role", "is_active"],
        (Backend::Surreal, SortTable::Categories) => vec!["name", "slug", "sort_order", "is_active"],
        (Backend::Surreal, SortTable::Brands) => vec!["name", "slug", "is_active"],
        (Backend::Surreal, SortTable::Orders) => vec!["order_number", "status", "total_amount", "payment_status"],
        (Backend::Surreal, SortTable::Inventory) => vec!["quantity_on_hand", "quantity_available", "sku"],
    };
    assert(str_texts(v@) =~= sort_whitelist(b, t));
    v
}

/// The column a listing of a table sorts by on a backend: the requested column
/// when the whitelist holds it, `created_at` otherwise.
pub fn sort_column_for(b: Backend, t: SortTable, sort_by: &str) -> (r: &'static str)
    ensures
        r@ == sort_column_choice(sort_by@, sort_whitelist(b, t), "created_at"@),
{
    let allowed = sort_whitelist_of(b, t);
    safe_sort_column(sort_by, allowed.as_slice(), "created_at")
}

/// Law: the chosen sort column is always `created_at` or a whitelisted column,
/// so no client text reaches the query text.
pub proof fn law_sort_column_is_whitelisted(b: Backend, t: SortTable, sort_by: Seq<char>)
    ensures
        sort_column_choice(sort_by, sort_whitelist(b, t), "created_at"@) == "created_at"@
            || sort_whitelist(b, t).contains(sort_column_choice(sort_by, sort_whitelist(b, t), "created_at"@)),
{
}

/// The column a listing sorts by for a requested column, written out per
/// listing: the requested column when it is one of the listing's sortable
/// columns, `created_at` otherwise.
pub open spec fn listing_sort_column(b: Backend, t: SortTable, c: Seq<char>) -> Seq<char> {
    match (b, t) {
        (Backend::Postgres, SortTable::Products) => if c == "name"@ || c == "sku"@ || c == "base_price"@ || c == "is_featured"@ || c == "created_at"@ { c } else { "created_at"@ },
        (Backend::Postgres, SortTable::Users) => if c == "email"@ || c == "full_name"@ || c == "username"@ || c == "is_active"@ || c == "created_at"@ { c } else { "created_at"@ },
        (Backend::Postgres, SortTable::Organizations) => if c == "name"@ || c == "type"@ || c == "code"@ || c == "is_active"@ || c == "created_at"@ { c } else { "created_at"@ },
        (Backend::Postgres, SortTable::Roles) => if c == "name"@ || c == "is_system_role"@ || c == "is_active"@ || c == "created_at"@ { c } else { "created_at"@ },
        (Backend::Postgres, SortTable::Categories) => if c == "name"@ || c == "slug"@ || c == "sort_order"@ || c == "is_active"@ || c == "created_at"@ { c } else { "created_at"@ },
        (Backend::Postgres, SortTable::Brands) => if c == "name"@ || c == "slug"@ || c == "is_active"@ || c == "created_at"@ { c } else { "created_at"@ },
        (Backend::Postgres, SortTable::Orders) => if c == "order_number"@ || c == "status"@ || c == "total_amount"@ || c == "payment_status"@ || c == "created_at"@ { c } else { "created_at"@ },
        (Backend::Postgres, SortTable::Inventory) => if c == "quantity_on_hand"@ || c == "quantity_available"@ || c == "sku"@ || c == "created_at"@ { c } else { "created_at"@ },
        (Backend::Surreal, SortTable::Products) => if c == "name"@ || c == "sku"@ || c == "base_price"@ || c == "is_featured"@ { c } else { "created_at"@ },
        (Backend::Surreal, SortTable::Users) => if c == "email"@ || c == "full_name"@ || c == "username"@ || c == "is_active"@ || c == "last_login_at"@ { c } else { "created_at"@ },
        (Backend::Surreal, SortTable::Organizations) => if c == "name"@ || c == "type"@ || c == "is_active"@ { c } else { "created_at"@ },
        (Backend::Surreal, SortTable::Roles) => if c == "name"@ || c == "is_system_role"@ || c == "is_active"@ { c } else { "created_at"@ },
        (Backend::Surreal, SortTable::Categories) => if c == "name"@ || c == "slug"@ || c == "sort_order"@ || c == "is_active"@ { c } else { "created_at"@ },
        (Backend::Surreal, SortTable::Brands) => if c == "name"@ || c == "slug"@ || c == "is_active"@ { c } else { "created_at"@ },
        (Backend::Surreal, SortTable::Orders) => if c == "order_number"@ || c == "status"@ || c == "total_amount"@ || c == "payment_status"@ { c } else { "created_at"@ },
        (Backend::Surreal, SortTable::Inventory) => if c == "quantity_on_hand"@ || c == "quantity_available"@ || c == "sku"@ { c } else { "created_at"@ },
    }
}

proof fn lemma_listing_sort_column(b: Backend, t: SortTable, c: Seq<char>)
    ensures
        sort_column_choice(c, sort_whitelist(b, t), "created_at"@) == listing_sort_column(b, t, c),
{
    let s = sort_whitelist(b, t);
    if s.contains(c) {
        let i = choose|i: int| 0 <= i < s.len() && s[i] == c;
        match (b, t) {
            (Backend::Postgres, SortTable::Products) => { assert(s[0] == "name"@); assert(s[1] == "sku"@); assert(s[2] == "base_price"@); assert(s[3] == "is_featured"@); assert(s[4] == "created_at"@); assert(i == 0 || i == 1 || i == 2 || i == 3 || i == 4); },
            (Backend::Postgres, SortTable::Users) => { assert(s[0] == "email"@); assert(s[1] == "full_name"@); assert(s[2] == "username"@); assert(s[3] == "is_active"@); assert(s[4] == "created_at"@); assert(i == 0 || i == 1 || i == 2 || i == 3 || i == 4); },
            (Backend::Postgres, SortTable::Organizations) => { assert(s[0] == "name"@); assert(s[1] == "type"@); assert(s[2] == "code"@); assert(s[3] == "is_active"@); assert(s[4] == "created_at"@); assert(i == 0 || i == 1 || i == 2 || i == 3 || i == 4); },
            (Backend::Postgres, SortTable::Roles) => { assert(s[0] == "name"@); assert(s[1] == "is_system_role"@); assert(s[2] == "is_active"@); assert(s[3] == "created_at"@); assert(i == 0 || i == 1 || i == 2 || i == 3); },
            (Backend::Postgres, SortTable::Categories) => { assert(s[0] == "name"@); assert(s[1] == "slug"@); assert(s[2] == "sort_order"@); assert(s[3] == "is_active"@); assert(s[4] == "created_at"@); assert(i == 0 || i == 1 || i == 2 || i == 3 || i == 4); },
            (Backend::Postgres, SortTable::Brands) => { assert(s[0] == "name"@); assert(s[1] == "slug"@); assert(s[2] == "is_active"@); assert(s[3] == "created_at"@); assert(i == 0 || i == 1 || i == 2 || i == 3); },
            (Backend::Postgres, SortTable::Orders) => { assert(s[0] == "order_number"@); assert(s[1] == "status"@); assert(s[2] == "total_amount"@); assert(s[3] == "payment_status"@); assert(s[4] == "created_at"@); assert(i == 0 || i == 1 || i == 2 || i == 3 || i == 4); },
            (Backend::Postgres, SortTable::Inventory) => { assert(s[0] == "quantity_on_hand"@); assert(s[1] == "quantity_available"@); assert(s[2] == "sku"@); assert(s[3] == "created_at"@); assert(i == 0 || i == 1 || i == 2 || i == 3); },
            (Backend::Surreal, SortTable::Products) => { assert(s[0] == "name"@); assert(s[1] == "sku"@); assert(s[2] == "base_price"@); assert(s[3] == "is_featured"@); assert(i == 0 || i == 1 || i == 2 || i == 3); },
            (Backend::Surreal, SortTable::Users) => { assert(s[0] == "email"@); assert(s[1] == "full_name"@); assert(s[2] == "username"@); assert(s[3] == "is_active"@); assert(s[4] == "last_login_at"@); assert(i == 0 || i == 1 || i == 2 || i == 3 || i == 4); },
            (Backend::Surreal, SortTable::Organizations) => { assert(s[0] == "name"@); assert(s[1] == "type"@); assert(s[2] == "is_active"@); assert(i == 0 || i == 1 || i == 2); },
            (Backend::Surreal, SortTable::Roles) => { assert(s[0] == "name"@); assert(s[1] == "is_system_role"@); assert(s[2] == "is_active"@); assert(i == 0 || i == 1 || i == 2); },
            (Backend::Surreal, SortTable::Categories) => { assert(s[0] == "name"@); assert(s[1] == "slug"@); assert(s[2] == "sort_order"@); assert(s[3] == "is_active"@); assert(i == 0 || i == 1 || i == 2 || i == 3); },
            (Backend::Surreal, SortTable::Brands) => { assert(s[0] == "name"@); assert(s[1] == "slug"@); assert(s[2] == "is_active"@); assert(i == 0 || i == 1 || i == 2); },
            (Backend::Surreal, SortTable::Orders) => { assert(s[0] == "order_number"@); assert(s[1] == "status"@); assert(s[2] == "total_amount"@); assert(s[3] == "payment_status"@); assert(i == 0 || i == 1 || i == 2 || i == 3); },
            (Backend::Surreal, SortTable::Inventory) => { assert(s[0] == "quantity_on_hand"@); assert(s[1] == "quantity_available"@); assert(s[2] == "sku"@); assert(i == 0 || i == 1 || i == 2); },
        }
    } else {
        match (b, t) {
            (Backend::Postgres, SortTable::Products) => { assert(s[0] == "name"@); assert(s[1] == "sku"@); assert(s[2] == "base_price"@); assert(s[3] == "is_featured"@); assert(s[4] == "created_at"@); },
            (Backend::Postgres, SortTable::Users) => { assert(s[0] == "email"@); assert(s[1] == "full_name"@); assert(s[2] == "username"@); assert(s[3] == "is_active"@); assert(s[4] == "created_at"@); },
            (Backend::Postgres, SortTable::Organizations) => { assert(s[0] == "name"@); assert(s[1] == "type"@); assert(s[2] == "code"@); assert(s[3] == "is_active"@); assert(s[4] == "created_at"@); },
            (Backend::Postgres, SortTable::Roles) => { assert(s[0] == "name"@); assert(s[1] == "is_system_role"@); assert(s[2] == "is_active"@); assert(s[3] == "created_at"@); },
            (Backend::Postgres, SortTable::Categories) => { assert(s[0] == "name"@); assert(s[1] == "slug"@); assert(s[2] == "sort_order"@); assert(s[3] == "is_active"@); assert(s[4] == "created_at"@); },
            (Backend::Postgres, SortTable::Brands) => { assert(s[0] == "name"@); assert(s[1] == "slug"@); assert(s[2] == "is_active"@); assert(s[3] == "created_at"@); },
            (Backend::Postgres, SortTable::Orders) => { assert(s[0] == "order_number"@); assert(s[1] == "status"@); assert(s[2] == "total_amount"@); assert(s[3] == "payment_status"@); assert(s[4] == "created_at"@); },
            (Backend::Postgres, SortTable::Inventory) => { assert(s[0] == "quantity_on_hand"@); assert(s[1] == "quantity_available"@); assert(s[2] == "sku"@); assert(s[3] == "created_at"@); },
            (Backend::Surreal, SortTable::Products) => { assert(s[0] == "name"@); assert(s[1] == "sku"@); assert(s[2] == "base_price"@); assert(s[3] == "is_featured"@); },
            (Backend::Surreal, SortTable::Users) => { assert(s[0] == "email"@); assert(s[1] == "full_name"@); assert(s[2] == "username"@); assert(s[3] == "is_active"@); assert(s[4] == "last_login_at"@); },
            (Backend::Surreal, SortTable::Organizations) => { assert(s[0] == "name"@); assert(s[1] == "type"@); assert(s[2] == "is_active"@); },
            (Backend::Surreal, SortTable::Roles) => { assert(s[0] == "name"@); assert(s[1] == "is_system_role"@); assert(s[2] == "is_active"@); },
            (Backend::Surreal, SortTable::Categories) => { assert(s[0] == "name"@); assert(s[1] == "slug"@); assert(s[2] == "sort_order"@); assert(s[3] == "is_active"@); },
            (Backend::Surreal, SortTable::Brands) => { assert(s[0] == "name"@); assert(s[1] == "slug"@); assert(s[2] == "is_active"@); },
            (Backend::Surreal, SortTable::Orders) => { assert(s[0] == "order_number"@); assert(s[1] == "status"@); assert(s[2] == "total_amount"@); assert(s[3] == "payment_status"@); },
            (Backend::Surreal, SortTable::Inventory) => { assert(s[0] == "quantity_on_hand"@); assert(s[1] == "quantity_available"@); assert(s[2] == "sku"@); },
        }
    }
}

/// Law: each listing sorts by exactly its own sortable columns. For every
/// backend, table and requested column, the column used is the requested one
/// when the listing names it among its sortable columns and `created_at`
/// otherwise; e.g. the PostgreSQL brand listing sorts by `name`, `slug`,
/// `is_active` or `created_at`.
pub proof fn law_listings_sort_by_their_columns(b: Backend, t: SortTable, c: Seq<char>)
    ensures
        sort_column_choice(c, sort_whitelist(b, t), "created_at"@) == listing_sort_column(b, t, c),
        listing_sort_column(b, t, c) == c || listing_sort_column(b, t, c) == "created_at"@,
{
    lemma_listing_sort_column(b, t, c);
}


} // verus!
