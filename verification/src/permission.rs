//! The permission catalogue: module/action pairs, their canonical scope texts,
//! validation of stored role permissions and their conversion to JWT scopes.
use vstd::prelude::*;
use vstd::string::*;
use crate::error::{join2, join3};
use crate::text::str_equal;

verus! {

/// Whether a permission is meant for business roles or reserved for technical use.
#[derive(Debug, Clone, Copy, PartialEq, Eq, Structural)]
pub enum PermissionKind {
    /// A permission that user-managed business roles may hold.
    Business,
    /// A permission reserved for system or service-to-service use.
    Technical,
}

/// One entry of the permission catalogue.
#[derive(Debug, Clone, Copy, PartialEq, Eq, Structural)]
pub struct KnownPermission {
    /// The module the permission belongs to.
    pub module: PermissionModuleKey,
    /// The action it grants.
    pub action: PermissionActionKey,
    /// Whether it is a business or a technical permission.
    pub kind: PermissionKind,
}

/// The canonical scope text of a permission: `module:action`.
pub open spec fn scope_text(p: KnownPermission) -> Seq<char> {
    module_name(p.module) + ":"@ + action_name(p.action)
}

/// The canonical scope string of a catalogue entry.
pub fn canonical_scope(p: &KnownPermission) -> (r: String)
    ensures
        r@ == scope_text(*p),
{
    join3(p.module.as_str(), ":", p.action.as_str())
}

/// A set of permission kinds, as bits (1 = business, 2 = technical).
#[derive(Debug, Clone, Copy, PartialEq, Eq, Structural)]
pub struct PermissionKindSet(pub u8);

/// Whether a kind set holds a kind.
pub open spec fn kind_set_has(s: PermissionKindSet, k: PermissionKind) -> bool {
    match k {
        PermissionKind::Business => s.0 & 1u8 != 0,
        PermissionKind::Technical => s.0 & 2u8 != 0,
    }
}

impl PermissionKindSet {
    /// The set holding only business permissions.
    pub fn business() -> (r: PermissionKindSet)
        ensures
            r.0 == 1,
            kind_set_has(r, PermissionKind::Business),
            !kind_set_has(r, PermissionKind::Technical),
    {
        let r = PermissionKindSet(1);
        assert(1u8 & 1u8 != 0 && 1u8 & 2u8 == 0) by (bit_vector);
        r
    }

    /// The set holding only technical permissions.
    pub fn technical() -> (r: PermissionKindSet)
        ensures
            r.0 == 2,
            !kind_set_has(r, PermissionKind::Business),
            kind_set_has(r, PermissionKind::Technical),
    {
        let r = PermissionKindSet(2);
        assert(2u8 & 1u8 == 0 && 2u8 & 2u8 != 0) by (bit_vector);
        r
    }

    /// Whether the set holds `kind`.
    pub fn contains(self, kind: PermissionKind) -> (r: bool)
        ensures
            r == kind_set_has(self, kind),
    {
        match kind {
            PermissionKind::Business => self.0 & 1 != 0,
            PermissionKind::Technical => self.0 & 2 != 0,
        }
    }
}

/// The bit that stands for a kind in a [`PermissionKindSet`].
pub open spec fn kind_bit(k: PermissionKind) -> u8 {
    match k {
        PermissionKind::Business => 1,
        PermissionKind::Technical => 2,
    }
}

impl PermissionKind {
    /// The set holding both `self` and `rhs`.
    pub fn bitor(self, rhs: PermissionKind) -> (r: PermissionKindSet)
        ensures
            forall|k: PermissionKind| kind_set_has(r, k) <==> (k == self || k == rhs),
            r.0 == kind_bit(self) | kind_bit(rhs),
    {
        let left: u8 = match self {
            PermissionKind::Business => 1,
            PermissionKind::Technical => 2,
        };
        let right: u8 = match rhs {
            PermissionKind::Business => 1,
            PermissionKind::Technical => 2,
        };
        let v = left | right;
        assert((1u8 | 1u8) & 1u8 != 0 && (1u8 | 1u8) & 2u8 == 0) by (bit_vector);
        assert((2u8 | 2u8) & 1u8 == 0 && (2u8 | 2u8) & 2u8 != 0) by (bit_vector);
        assert((1u8 | 2u8) & 1u8 != 0 && (1u8 | 2u8) & 2u8 != 0) by (bit_vector);
        assert((2u8 | 1u8) & 1u8 != 0 && (2u8 | 1u8) & 2u8 != 0) by (bit_vector);
        PermissionKindSet(v)
    }
}

/// The modules that permissions are grouped by.
#[derive(Debug, Clone, Copy, PartialEq, Eq, Structural)]
pub enum PermissionModuleKey {
    /// `organization`
    Organization,
    /// `product`
    Product,
    /// `brand`
    Brand,
    /// `category`
    Category,
    /// `stock`
    Stock,
    /// `user`
    User,
    /// `role`
    Role,
    /// `pos`
    Pos,
    /// `bom`
    Bom,
    /// `db`
    Db,
    /// `zenoh`
    Zenoh,
}

/// The actions that a permission grants on a module.
#[derive(Debug, Clone, Copy, PartialEq, Eq, Structural)]
pub enum PermissionActionKey {
    /// `read`
    Read,
    /// `create`
    Create,
    /// `update`
    Update,
    /// `delete`
    Delete,
    /// `select`
    Select,
    /// `write`
    Write,
    /// `admin`
    Admin,
    /// `publish`
    Publish,
    /// `subscribe`
    Subscribe,
}

/// The key under which a module is stored in a permissions object.
pub open spec fn module_name(m: PermissionModuleKey) -> Seq<char> {
    match m {
        PermissionModuleKey::Organization => "organization"@,
        PermissionModuleKey::Product => "product"@,
        PermissionModuleKey::Brand => "brand"@,
        PermissionModuleKey::Category => "category"@,
        PermissionModuleKey::Stock => "stock"@,
        PermissionModuleKey::User => "user"@,
        PermissionModuleKey::Role => "role"@,
        PermissionModuleKey::Pos => "pos"@,
        PermissionModuleKey::Bom => "bom"@,
        PermissionModuleKey::Db => "db"@,
        PermissionModuleKey::Zenoh => "zenoh"@,
    }
}

/// The key under which an action is stored in a permissions object.
pub open spec fn action_name(a: PermissionActionKey) -> Seq<char> {
    match a {
        PermissionActionKey::Read => "read"@,
        PermissionActionKey::Create => "create"@,
        PermissionActionKey::Update => "update"@,
        PermissionActionKey::Delete => "delete"@,
        PermissionActionKey::Select => "select"@,
        PermissionActionKey::Write => "write"@,
        PermissionActionKey::Admin => "admin"@,
        PermissionActionKey::Publish => "publish"@,
        PermissionActionKey::Subscribe => "subscribe"@,
    }
}

impl PermissionModuleKey {
    /// The module's key text.
    pub fn as_str(&self) -> (r: &'static str)
        ensures
            r@ == module_name(*self),
    {
        match self {
            PermissionModuleKey::Organization => "organization",
            PermissionModuleKey::Product => "product",
            PermissionModuleKey::Brand => "brand",
            PermissionModuleKey::Category => "category",
            PermissionModuleKey::Stock => "stock",
            PermissionModuleKey::User => "user",
            PermissionModuleKey::Role => "role",
            PermissionModuleKey::Pos => "pos",
            PermissionModuleKey::Bom => "bom",
            PermissionModuleKey::Db => "db",
            PermissionModuleKey::Zenoh => "zenoh",
        }
    }
}

impl PermissionActionKey {
    /// The action's key text.
    pub fn as_str(&self) -> (r: &'static str)
        ensures
            r@ == action_name(*self),
    {
        match self {
            PermissionActionKey::Read => "read",
            PermissionActionKey::Create => "create",
            PermissionActionKey::Update => "update",
            PermissionActionKey::Delete => "delete",
            PermissionActionKey::Select => "select",
            PermissionActionKey::Write => "write",
            PermissionActionKey::Admin => "admin",
            PermissionActionKey::Publish => "publish",
            PermissionActionKey::Subscribe => "subscribe",
        }
    }
}



proof fn lemma_module_name_shape(m: PermissionModuleKey)
    ensures
        module_name(m).len() == module_name_len(m),
        module_name(m)[0] == module_name_first(m),
        forall|k: int| 0 <= k < module_name(m).len() ==> module_name(m)[k] != ':',
{
    match m {
        PermissionModuleKey::Organization => {
            reveal_strlit("organization");
            assert(module_name(m) =~= seq!['o', 'r', 'g', 'a', 'n', 'i', 'z', 'a', 't', 'i', 'o', 'n']);
        },
        PermissionModuleKey::Product => {
            reveal_strlit("product");
            assert(module_name(m) =~= seq!['p', 'r', 'o', 'd', 'u', 'c', 't']);
        },
        PermissionModuleKey::Brand => {
            reveal_strlit("brand");
            assert(module_name(m) =~= seq!['b', 'r', 'a', 'n', 'd']);
        },
        PermissionModuleKey::Category => {
            reveal_strlit("category");
            assert(module_name(m) =~= seq!['c', 'a', 't', 'e', 'g', 'o', 'r', 'y']);
        },
        PermissionModuleKey::Stock => {
            reveal_strlit("stock");
            assert(module_name(m) =~= seq!['s', 't', 'o', 'c', 'k']);
        },
        PermissionModuleKey::User => {
            reveal_strlit("user");
            assert(module_name(m) =~= seq!['u', 's', 'e', 'r']);
        },
        PermissionModuleKey::Role => {
            reveal_strlit("role");
            assert(module_name(m) =~= seq!['r', 'o', 'l', 'e']);
        },
        PermissionModuleKey::Pos => {
            reveal_strlit("pos");
            assert(module_name(m) =~= seq!['p', 'o', 's']);
        },
        PermissionModuleKey::Bom => {
            reveal_strlit("bom");
            assert(module_name(m) =~= seq!['b', 'o', 'm']);
        },
        PermissionModuleKey::Db => {
            reveal_strlit("db");
            assert(module_name(m) =~= seq!['d', 'b']);
        },
        PermissionModuleKey::Zenoh => {
            reveal_strlit("zenoh");
            assert(module_name(m) =~= seq!['z', 'e', 'n', 'o', 'h']);
        },
    }
}

/// Length of a module key.
pub open spec fn module_name_len(m: PermissionModuleKey) -> int {
    match m {
        PermissionModuleKey::Organization => 12,
        PermissionModuleKey::Product => 7,
        PermissionModuleKey::Brand => 5,
        PermissionModuleKey::Category => 8,
        PermissionModuleKey::Stock => 5,
        PermissionModuleKey::User => 4,
        PermissionModuleKey::Role => 4,
        PermissionModuleKey::Pos => 3,
        PermissionModuleKey::Bom => 3,
        PermissionModuleKey::Db => 2,
        PermissionModuleKey::Zenoh => 5,
    }
}

/// First character of a module key.
pub open spec fn module_name_first(m: PermissionModuleKey) -> char {
    match m {
        PermissionModuleKey::Organization => 'o',
        PermissionModuleKey::Product => 'p',
        PermissionModuleKey::Brand => 'b',
        PermissionModuleKey::Category => 'c',
        PermissionModuleKey::Stock => 's',
        PermissionModuleKey::User => 'u',
        PermissionModuleKey::Role => 'r',
        PermissionModuleKey::Pos => 'p',
        PermissionModuleKey::Bom => 'b',
        PermissionModuleKey::Db => 'd',
        PermissionModuleKey::Zenoh => 'z',
    }
}

proof fn lemma_module_name_injective(a: PermissionModuleKey, b: PermissionModuleKey)
    requires
        module_name(a) == module_name(b),
    ensures
        a == b,
{
    lemma_module_name_shape(a);
    lemma_module_name_shape(b);
}

proof fn lemma_action_name_shape(m: PermissionActionKey)
    ensures
        action_name(m).len() == action_name_len(m),
        action_name(m)[0] == action_name_first(m),
        forall|k: int| 0 <= k < action_name(m).len() ==> action_name(m)[k] != ':',
{
    match m {
        PermissionActionKey::Read => {
            reveal_strlit("read");
            assert(action_name(m) =~= seq!['r', 'e', 'a', 'd']);
        },
        PermissionActionKey::Create => {
            reveal_strlit("create");
            assert(action_name(m) =~= seq!['c', 'r', 'e', 'a', 't', 'e']);
        },
        PermissionActionKey::Update => {
            reveal_strlit("update");
            assert(action_name(m) =~= seq!['u', 'p', 'd', 'a', 't', 'e']);
        },
        PermissionActionKey::Delete => {
            reveal_strlit("delete");
            assert(action_name(m) =~= seq!['d', 'e', 'l', 'e', 't', 'e']);
        },
        PermissionActionKey::Select => {
            reveal_strlit("select");
            assert(action_name(m) =~= seq!['s', 'e', 'l', 'e', 'c', 't']);
        },
        PermissionActionKey::Write => {
            reveal_strlit("write");
            assert(action_name(m) =~= seq!['w', 'r', 'i', 't', 'e']);
        },
        PermissionActionKey::Admin => {
            reveal_strlit("admin");
            assert(action_name(m) =~= seq!['a', 'd', 'm', 'i', 'n']);
        },
        PermissionActionKey::Publish => {
            reveal_strlit("publish");
            assert(action_name(m) =~= seq!['p', 'u', 'b', 'l', 'i', 's', 'h']);
        },
        PermissionActionKey::Subscribe => {
            reveal_strlit("subscribe");
            assert(action_name(m) =~= seq!['s', 'u', 'b', 's', 'c', 'r', 'i', 'b', 'e']);
        },
    }
}

/// Length of a action key.
pub open spec fn action_name_len(m: PermissionActionKey) -> int {
    match m {
        PermissionActionKey::Read => 4,
        PermissionActionKey::Create => 6,
        PermissionActionKey::Update => 6,
        PermissionActionKey::Delete => 6,
        PermissionActionKey::Select => 6,
        PermissionActionKey::Write => 5,
        PermissionActionKey::Admin => 5,
        PermissionActionKey::Publish => 7,
        PermissionActionKey::Subscribe => 9,
    }
}

/// First character of a action key.
pub open spec fn action_name_first(m: PermissionActionKey) -> char {
    match m {
        PermissionActionKey::Read => 'r',
        PermissionActionKey::Create => 'c',
        PermissionActionKey::Update => 'u',
        PermissionActionKey::Delete => 'd',
        PermissionActionKey::Select => 's',
        PermissionActionKey::Write => 'w',
        PermissionActionKey::Admin => 'a',
        PermissionActionKey::Publish => 'p',
        PermissionActionKey::Subscribe => 's',
    }
}

proof fn lemma_action_name_injective(a: PermissionActionKey, b: PermissionActionKey)
    requires
        action_name(a) == action_name(b),
    ensures
        a == b,
{
    lemma_action_name_shape(a);
    lemma_action_name_shape(b);
}

/// The number of known permissions.
pub const KNOWN_PERMISSION_COUNT: usize = 39;

/// The known permission at position `i` (0 to 38) of the catalogue.
pub open spec fn known_row(i: int) -> KnownPermission {
    if i == 0 {
        KnownPermission { module: PermissionModuleKey::Organization, action: PermissionActionKey::Read, kind: PermissionKind::Business }
    } else if i == 1 {
        KnownPermission { module: PermissionModuleKey::Organization, action: PermissionActionKey::Create, kind: PermissionKind::Business }
    } else if i == 2 {
        KnownPermission { module: PermissionModuleKey::Organization, action: PermissionActionKey::Update, kind: PermissionKind::Business }
    } else if i == 3 {
        KnownPermission { module: PermissionModuleKey::Organization, action: PermissionActionKey::Delete, kind: PermissionKind::Business }
    } else if i == 4 {
        KnownPermission { module: PermissionModuleKey::Organization, action: PermissionActionKey::Select, kind: PermissionKind::Business }
    } else if i == 5 {
        KnownPermission { module: PermissionModuleKey::Product, action: PermissionActionKey::Read, kind: PermissionKind::Business }
    } else if i == 6 {
        KnownPermission { module: PermissionModuleKey::Product, action: PermissionActionKey::Create, kind: PermissionKind::Business }
    } else if i == 7 {
        KnownPermission { module: PermissionModuleKey::Product, action: PermissionActionKey::Update, kind: PermissionKind::Business }
    } else if i == 8 {
        KnownPermission { module: PermissionModuleKey::Product, action: PermissionActionKey::Delete, kind: PermissionKind::Business }
    } else if i == 9 {
        KnownPermission { module: PermissionModuleKey::Brand, action: PermissionActionKey::Read, kind: PermissionKind::Business }
    } else if i == 10 {
        KnownPermission { module: PermissionModuleKey::Brand, action: PermissionActionKey::Create, kind: PermissionKind::Business }
    } else if i == 11 {
        KnownPermission { module: PermissionModuleKey::Brand, action: PermissionActionKey::Update, kind: PermissionKind::Business }
    } else if i == 12 {
        KnownPermission { module: PermissionModuleKey::Brand, action: PermissionActionKey::Delete, kind: PermissionKind::Business }
    } else if i == 13 {
        KnownPermission { module: PermissionModuleKey::Category, action: PermissionActionKey::Read, kind: PermissionKind::Business }
    } else if i == 14 {
        KnownPermission { module: PermissionModuleKey::Category, action: PermissionActionKey::Create, kind: PermissionKind::Business }
    } else if i == 15 {
        KnownPermission { module: PermissionModuleKey::Category, action: PermissionActionKey::Update, kind: PermissionKind::Business }
    } else if i == 16 {
        KnownPermission { module: PermissionModuleKey::Category, action: PermissionActionKey::Delete, kind: PermissionKind::Business }
    } else if i == 17 {
        KnownPermission { module: PermissionModuleKey::Stock, action: PermissionActionKey::Read, kind: PermissionKind::Business }
    } else if i == 18 {
        KnownPermission { module: PermissionModuleKey::Stock, action: PermissionActionKey::Update, kind: PermissionKind::Business }
    } else if i == 19 {
        KnownPermission { module: PermissionModuleKey::User, action: PermissionActionKey::Read, kind: PermissionKind::Business }
    } else if i == 20 {
        KnownPermission { module: PermissionModuleKey::User, action: PermissionActionKey::Create, kind: PermissionKind::Business }
    } else if i == 21 {
        KnownPermission { module: PermissionModuleKey::User, action: PermissionActionKey::Update, kind: PermissionKind::Business }
    } else if i == 22 {
        KnownPermission { module: PermissionModuleKey::User, action: PermissionActionKey::Delete, kind: PermissionKind::Business }
    } else if i == 23 {
        KnownPermission { module: PermissionModuleKey::Role, action: PermissionActionKey::Read, kind: PermissionKind::Business }
    } else if i == 24 {
        KnownPermission { module: PermissionModuleKey::Role, action: PermissionActionKey::Create, kind: PermissionKind::Business }
    } else if i == 25 {
        KnownPermission { module: PermissionModuleKey::Role, action: PermissionActionKey::Update, kind: PermissionKind::Business }
    } else if i == 26 {
        KnownPermission { module: PermissionModuleKey::Role, action: PermissionActionKey::Delete, kind: PermissionKind::Business }
    } else if i == 27 {
        KnownPermission { module: PermissionModuleKey::Pos, action: PermissionActionKey::Read, kind: PermissionKind::Business }
    } else if i == 28 {
        KnownPermission { module: PermissionModuleKey::Pos, action: PermissionActionKey::Create, kind: PermissionKind::Business }
    } else if i == 29 {
        KnownPermission { module: PermissionModuleKey::Pos, action: PermissionActionKey::Update, kind: PermissionKind::Business }
    } else if i == 30 {
        KnownPermission { module: PermissionModuleKey::Bom, action: PermissionActionKey::Read, kind: PermissionKind::Business }
    } else if i == 31 {
        KnownPermission { module: PermissionModuleKey::Bom, action: PermissionActionKey::Create, kind: PermissionKind::Business }
    } else if i == 32 {
        KnownPermission { module: PermissionModuleKey::Bom, action: PermissionActionKey::Update, kind: PermissionKind::Business }
    } else if i == 33 {
        KnownPermission { module: PermissionModuleKey::Bom, action: PermissionActionKey::Delete, kind: PermissionKind::Business }
    } else if i == 34 {
        KnownPermission { module: PermissionModuleKey::Db, action: PermissionActionKey::Read, kind: PermissionKind::Technical }
    } else if i == 35 {
        KnownPermission { module: PermissionModuleKey::Db, action: PermissionActionKey::Write, kind: PermissionKind::Technical }
    } else if i == 36 {
        KnownPermission { module: PermissionModuleKey::Db, action: PermissionActionKey::Admin, kind: PermissionKind::Technical }
    } else if i == 37 {
        KnownPermission { module: PermissionModuleKey::Zenoh, action: PermissionActionKey::Publish, kind: PermissionKind::Technical }
    } else {
        KnownPermission { module: PermissionModuleKey::Zenoh, action: PermissionActionKey::Subscribe, kind: PermissionKind::Technical }
    }
}

/// The known permission at position `i` of the catalogue.
pub fn known_permission(i: usize) -> (r: KnownPermission)
    requires
        i < 39,
    ensures
        r == known_row(i as int),
{
    match i {
        0 => KnownPermission { module: PermissionModuleKey::Organization, action: PermissionActionKey::Read, kind: PermissionKind::Business },
        1 => KnownPermission { module: PermissionModuleKey::Organization, action: PermissionActionKey::Create, kind: PermissionKind::Business },
        2 => KnownPermission { module: PermissionModuleKey::Organization, action: PermissionActionKey::Update, kind: PermissionKind::Business },
        3 => KnownPermission { module: PermissionModuleKey::Organization, action: PermissionActionKey::Delete, kind: PermissionKind::Business },
        4 => KnownPermission { module: PermissionModuleKey::Organization, action: PermissionActionKey::Select, kind: PermissionKind::Business },
        5 => KnownPermission { module: PermissionModuleKey::Product, action: PermissionActionKey::Read, kind: PermissionKind::Business },
        6 => KnownPermission { module: PermissionModuleKey::Product, action: PermissionActionKey::Create, kind: PermissionKind::Business },
        7 => KnownPermission { module: PermissionModuleKey::Product, action: PermissionActionKey::Update, kind: PermissionKind::Business },
        8 => KnownPermission { module: PermissionModuleKey::Product, action: PermissionActionKey::Delete, kind: PermissionKind::Business },
        9 => KnownPermission { module: PermissionModuleKey::Brand, action: PermissionActionKey::Read, kind: PermissionKind::Business },
        10 => KnownPermission { module: PermissionModuleKey::Brand, action: PermissionActionKey::Create, kind: PermissionKind::Business },
        11 => KnownPermission { module: PermissionModuleKey::Brand, action: PermissionActionKey::Update, kind: PermissionKind::Business },
        12 => KnownPermission { module: PermissionModuleKey::Brand, action: PermissionActionKey::Delete, kind: PermissionKind::Business },
        13 => KnownPermission { module: PermissionModuleKey::Category, action: PermissionActionKey::Read, kind: PermissionKind::Business },
        14 => KnownPermission { module: PermissionModuleKey::Category, action: PermissionActionKey::Create, kind: PermissionKind::Business },
        15 => KnownPermission { module: PermissionModuleKey::Category, action: PermissionActionKey::Update, kind: PermissionKind::Business },
        16 => KnownPermission { module: PermissionModuleKey::Category, action: PermissionActionKey::Delete, kind: PermissionKind::Business },
        17 => KnownPermission { module: PermissionModuleKey::Stock, action: PermissionActionKey::Read, kind: PermissionKind::Business },
        18 => KnownPermission { module: PermissionModuleKey::Stock, action: PermissionActionKey::Update, kind: PermissionKind::Business },
        19 => KnownPermission { module: PermissionModuleKey::User, action: PermissionActionKey::Read, kind: PermissionKind::Business },
        20 => KnownPermission { module: PermissionModuleKey::User, action: PermissionActionKey::Create, kind: PermissionKind::Business },
        21 => KnownPermission { module: PermissionModuleKey::User, action: PermissionActionKey::Update, kind: PermissionKind::Business },
        22 => KnownPermission { module: PermissionModuleKey::User, action: PermissionActionKey::Delete, kind: PermissionKind::Business },
        23 => KnownPermission { module: PermissionModuleKey::Role, action: PermissionActionKey::Read, kind: PermissionKind::Business },
        24 => KnownPermission { module: PermissionModuleKey::Role, action: PermissionActionKey::Create, kind: PermissionKind::Business },
        25 => KnownPermission { module: PermissionModuleKey::Role, action: PermissionActionKey::Update, kind: PermissionKind::Business },
        26 => KnownPermission { module: PermissionModuleKey::Role, action: PermissionActionKey::Delete, kind: PermissionKind::Business },
        27 => KnownPermission { module: PermissionModuleKey::Pos, action: PermissionActionKey::Read, kind: PermissionKind::Business },
        28 => KnownPermission { module: PermissionModuleKey::Pos, action: PermissionActionKey::Create, kind: PermissionKind::Business },
        29 => KnownPermission { module: PermissionModuleKey::Pos, action: PermissionActionKey::Update, kind: PermissionKind::Business },
        30 => KnownPermission { module: PermissionModuleKey::Bom, action: PermissionActionKey::Read, kind: PermissionKind::Business },
        31 => KnownPermission { module: PermissionModuleKey::Bom, action: PermissionActionKey::Create, kind: PermissionKind::Business },
        32 => KnownPermission { module: PermissionModuleKey::Bom, action: PermissionActionKey::Update, kind: PermissionKind::Business },
        33 => KnownPermission { module: PermissionModuleKey::Bom, action: PermissionActionKey::Delete, kind: PermissionKind::Business },
        34 => KnownPermission { module: PermissionModuleKey::Db, action: PermissionActionKey::Read, kind: PermissionKind::Technical },
        35 => KnownPermission { module: PermissionModuleKey::Db, action: PermissionActionKey::Write, kind: PermissionKind::Technical },
        36 => KnownPermission { module: PermissionModuleKey::Db, action: PermissionActionKey::Admin, kind: PermissionKind::Technical },
        37 => KnownPermission { module: PermissionModuleKey::Zenoh, action: PermissionActionKey::Publish, kind: PermissionKind::Technical },
        _ => KnownPermission { module: PermissionModuleKey::Zenoh, action: PermissionActionKey::Subscribe, kind: PermissionKind::Technical },
    }
}

/// Position in the catalogue of the `k`-th known permission in lexicographic order of its scope text.
pub open spec fn sorted_position(k: int) -> int {
    if k == 0 {
        31
    } else if k == 1 {
        33
    } else if k == 2 {
        30
    } else if k == 3 {
        32
    } else if k == 4 {
        10
    } else if k == 5 {
        12
    } else if k == 6 {
        9
    } else if k == 7 {
        11
    } else if k == 8 {
        14
    } else if k == 9 {
        16
    } else if k == 10 {
        13
    } else if k == 11 {
        15
    } else if k == 12 {
        36
    } else if k == 13 {
        34
    } else if k == 14 {
        35
    } else if k == 15 {
        1
    } else if k == 16 {
        3
    } else if k == 17 {
        0
    } else if k == 18 {
        4
    } else if k == 19 {
        2
    } else if k == 20 {
        28
    } else if k == 21 {
        27
    } else if k == 22 {
        29
    } else if k == 23 {
        6
    } else if k == 24 {
        8
    } else if k == 25 {
        5
    } else if k == 26 {
        7
    } else if k == 27 {
        24
    } else if k == 28 {
        26
    } else if k == 29 {
        23
    } else if k == 30 {
        25
    } else if k == 31 {
        17
    } else if k == 32 {
        18
    } else if k == 33 {
        20
    } else if k == 34 {
        22
    } else if k == 35 {
        19
    } else if k == 36 {
        21
    } else if k == 37 {
        37
    } else {
        38
    }
}

/// Executable counterpart of [`sorted_position`].
pub fn sorted_position_of(k: usize) -> (r: usize)
    requires
        k < 39,
    ensures
        r == sorted_position(k as int),
        r < 39,
{
    match k {
        0 => 31,
        1 => 33,
        2 => 30,
        3 => 32,
        4 => 10,
        5 => 12,
        6 => 9,
        7 => 11,
        8 => 14,
        9 => 16,
        10 => 13,
        11 => 15,
        12 => 36,
        13 => 34,
        14 => 35,
        15 => 1,
        16 => 3,
        17 => 0,
        18 => 4,
        19 => 2,
        20 => 28,
        21 => 27,
        22 => 29,
        23 => 6,
        24 => 8,
        25 => 5,
        26 => 7,
        27 => 24,
        28 => 26,
        29 => 23,
        30 => 25,
        31 => 17,
        32 => 18,
        33 => 20,
        34 => 22,
        35 => 19,
        36 => 21,
        37 => 37,
        _ => 38,
    }
}

/// Catalogue position of a module/action pair, or -1 when the pair is unknown.
pub open spec fn row_index(m: PermissionModuleKey, a: PermissionActionKey) -> int {
    match (m, a) {
        (PermissionModuleKey::Organization, PermissionActionKey::Read) => 0,
        (PermissionModuleKey::Organization, PermissionActionKey::Create) => 1,
        (PermissionModuleKey::Organization, PermissionActionKey::Update) => 2,
        (PermissionModuleKey::Organization, PermissionActionKey::Delete) => 3,
        (PermissionModuleKey::Organization, PermissionActionKey::Select) => 4,
        (PermissionModuleKey::Product, PermissionActionKey::Read) => 5,
        (PermissionModuleKey::Product, PermissionActionKey::Create) => 6,
        (PermissionModuleKey::Product, PermissionActionKey::Update) => 7,
        (PermissionModuleKey::Product, PermissionActionKey::Delete) => 8,
        (PermissionModuleKey::Brand, PermissionActionKey::Read) => 9,
        (PermissionModuleKey::Brand, PermissionActionKey::Create) => 10,
        (PermissionModuleKey::Brand, PermissionActionKey::Update) => 11,
        (PermissionModuleKey::Brand, PermissionActionKey::Delete) => 12,
        (PermissionModuleKey::Category, PermissionActionKey::Read) => 13,
        (PermissionModuleKey::Category, PermissionActionKey::Create) => 14,
        (PermissionModuleKey::Category, PermissionActionKey::Update) => 15,
        (PermissionModuleKey::Category, PermissionActionKey::Delete) => 16,
        (PermissionModuleKey::Stock, PermissionActionKey::Read) => 17,
        (PermissionModuleKey::Stock, PermissionActionKey::Update) => 18,
        (PermissionModuleKey::User, PermissionActionKey::Read) => 19,
        (PermissionModuleKey::User, PermissionActionKey::Create) => 20,
        (PermissionModuleKey::User, PermissionActionKey::Update) => 21,
        (PermissionModuleKey::User, PermissionActionKey::Delete) => 22,
        (PermissionModuleKey::Role, PermissionActionKey::Read) => 23,
        (PermissionModuleKey::Role, PermissionActionKey::Create) => 24,
        (PermissionModuleKey::Role, PermissionActionKey::Update) => 25,
        (PermissionModuleKey::Role, PermissionActionKey::Delete) => 26,
        (PermissionModuleKey::Pos, PermissionActionKey::Read) => 27,
        (PermissionModuleKey::Pos, PermissionActionKey::Create) => 28,
        (PermissionModuleKey::Pos, PermissionActionKey::Update) => 29,
        (PermissionModuleKey::Bom, PermissionActionKey::Read) => 30,
        (PermissionModuleKey::Bom, PermissionActionKey::Create) => 31,
        (PermissionModuleKey::Bom, PermissionActionKey::Update) => 32,
        (PermissionModuleKey::Bom, PermissionActionKey::Delete) => 33,
        (PermissionModuleKey::Db, PermissionActionKey::Read) => 34,
        (PermissionModuleKey::Db, PermissionActionKey::Write) => 35,
        (PermissionModuleKey::Db, PermissionActionKey::Admin) => 36,
        (PermissionModuleKey::Zenoh, PermissionActionKey::Publish) => 37,
        (PermissionModuleKey::Zenoh, PermissionActionKey::Subscribe) => 38,
        _ => -1,
    }
}

proof fn lemma_row_index(i: int)
    requires
        0 <= i < 39,
    ensures
        row_index(known_row(i).module, known_row(i).action) == i,
{
    if i == 0 {
        assert(row_index(known_row(0).module, known_row(0).action) == 0);
    }
    if i == 1 {
        assert(row_index(known_row(1).module, known_row(1).action) == 1);
    }
    if i == 2 {
        assert(row_index(known_row(2).module, known_row(2).action) == 2);
    }
    if i == 3 {
        assert(row_index(known_row(3).module, known_row(3).action) == 3);
    }
    if i == 4 {
        assert(row_index(known_row(4).module, known_row(4).action) == 4);
    }
    if i == 5 {
        assert(row_index(known_row(5).module, known_row(5).action) == 5);
    }
    if i == 6 {
        assert(row_index(known_row(6).module, known_row(6).action) == 6);
    }
    if i == 7 {
        assert(row_index(known_row(7).module, known_row(7).action) == 7);
    }
    if i == 8 {
        assert(row_index(known_row(8).module, known_row(8).action) == 8);
    }
    if i == 9 {
        assert(row_index(known_row(9).module, known_row(9).action) == 9);
    }
    if i == 10 {
        assert(row_index(known_row(10).module, known_row(10).action) == 10);
    }
    if i == 11 {
        assert(row_index(known_row(11).module, known_row(11).action) == 11);
    }
    if i == 12 {
        assert(row_index(known_row(12).module, known_row(12).action) == 12);
    }
    if i == 13 {
        assert(row_index(known_row(13).module, known_row(13).action) == 13);
    }
    if i == 14 {
        assert(row_index(known_row(14).module, known_row(14).action) == 14);
    }
    if i == 15 {
        assert(row_index(known_row(15).module, known_row(15).action) == 15);
    }
    if i == 16 {
        assert(row_index(known_row(16).module, known_row(16).action) == 16);
    }
    if i == 17 {
        assert(row_index(known_row(17).module, known_row(17).action) == 17);
    }
    if i == 18 {
        assert(row_index(known_row(18).module, known_row(18).action) == 18);
    }
    if i == 19 {
        assert(row_index(known_row(19).module, known_row(19).action) == 19);
    }
    if i == 20 {
        assert(row_index(known_row(20).module, known_row(20).action) == 20);
    }
    if i == 21 {
        assert(row_index(known_row(21).module, known_row(21).action) == 21);
    }
    if i == 22 {
        assert(row_index(known_row(22).module, known_row(22).action) == 22);
    }
    if i == 23 {
        assert(row_index(known_row(23).module, known_row(23).action) == 23);
    }
    if i == 24 {
        assert(row_index(known_row(24).module, known_row(24).action) == 24);
    }
    if i == 25 {
        assert(row_index(known_row(25).module, known_row(25).action) == 25);
    }
    if i == 26 {
        assert(row_index(known_row(26).module, known_row(26).action) == 26);
    }
    if i == 27 {
        assert(row_index(known_row(27).module, known_row(27).action) == 27);
    }
    if i == 28 {
        assert(row_index(known_row(28).module, known_row(28).action) == 28);
    }
    if i == 29 {
        assert(row_index(known_row(29).module, known_row(29).action) == 29);
    }
    if i == 30 {
        assert(row_index(known_row(30).module, known_row(30).action) == 30);
    }
    if i == 31 {
        assert(row_index(known_row(31).module, known_row(31).action) == 31);
    }
    if i == 32 {
        assert(row_index(known_row(32).module, known_row(32).action) == 32);
    }
    if i == 33 {
        assert(row_index(known_row(33).module, known_row(33).action) == 33);
    }
    if i == 34 {
        assert(row_index(known_row(34).module, known_row(34).action) == 34);
    }
    if i == 35 {
        assert(row_index(known_row(35).module, known_row(35).action) == 35);
    }
    if i == 36 {
        assert(row_index(known_row(36).module, known_row(36).action) == 36);
    }
    if i == 37 {
        assert(row_index(known_row(37).module, known_row(37).action) == 37);
    }
    if i == 38 {
        assert(row_index(known_row(38).module, known_row(38).action) == 38);
    }
}

/// The `k`-th module in lexicographic order of its key.
pub open spec fn sorted_module(k: int) -> PermissionModuleKey {
    if k == 0 {
        PermissionModuleKey::Bom
    } else if k == 1 {
        PermissionModuleKey::Brand
    } else if k == 2 {
        PermissionModuleKey::Category
    } else if k == 3 {
        PermissionModuleKey::Db
    } else if k == 4 {
        PermissionModuleKey::Organization
    } else if k == 5 {
        PermissionModuleKey::Pos
    } else if k == 6 {
        PermissionModuleKey::Product
    } else if k == 7 {
        PermissionModuleKey::Role
    } else if k == 8 {
        PermissionModuleKey::Stock
    } else if k == 9 {
        PermissionModuleKey::User
    } else {
        PermissionModuleKey::Zenoh
    }
}

/// Executable counterpart of [`sorted_module`].
pub fn sorted_module_at(k: usize) -> (r: PermissionModuleKey)
    requires
        k < 11,
    ensures
        r == sorted_module(k as int),
{
    match k {
        0 => PermissionModuleKey::Bom,
        1 => PermissionModuleKey::Brand,
        2 => PermissionModuleKey::Category,
        3 => PermissionModuleKey::Db,
        4 => PermissionModuleKey::Organization,
        5 => PermissionModuleKey::Pos,
        6 => PermissionModuleKey::Product,
        7 => PermissionModuleKey::Role,
        8 => PermissionModuleKey::Stock,
        9 => PermissionModuleKey::User,
        _ => PermissionModuleKey::Zenoh,
    }
}

/// Position of a module in [`sorted_module`] order.
pub open spec fn sorted_module_index(m: PermissionModuleKey) -> int {
    match m {
        PermissionModuleKey::Bom => 0,
        PermissionModuleKey::Brand => 1,
        PermissionModuleKey::Category => 2,
        PermissionModuleKey::Db => 3,
        PermissionModuleKey::Organization => 4,
        PermissionModuleKey::Pos => 5,
        PermissionModuleKey::Product => 6,
        PermissionModuleKey::Role => 7,
        PermissionModuleKey::Stock => 8,
        PermissionModuleKey::User => 9,
        PermissionModuleKey::Zenoh => 10,
    }
}

// ------------------------------------------------------------------------
// Stored permission objects
// ------------------------------------------------------------------------

/// An element of a module's action list: a string, or any other JSON value.
#[derive(Debug, Clone)]
pub enum PermissionAction {
    /// A string action key.
    Text(String),
    /// Any non-string value.
    Other,
}

/// The value stored under a module: an array of actions, or any other JSON value.
#[derive(Debug, Clone)]
pub enum PermissionActions {
    /// An array of actions.
    List(Vec<PermissionAction>),
    /// Any non-array value.
    Other,
}

/// One `module: actions` member of a permissions object.
#[derive(Debug, Clone)]
pub struct PermissionEntry {
    /// The module key.
    pub module: String,
    /// The value stored under the module.
    pub actions: PermissionActions,
}

/// A stored `role.permissions` value: an object of modules to action arrays, or
/// any other JSON value.
#[derive(Debug, Clone)]
pub enum PermissionsValue {
    /// A JSON object, its members in iteration order.
    Object(Vec<PermissionEntry>),
    /// Any non-object value (including `null`).
    Other,
}

/// An action list as plain values: `None` for a non-string element.
pub type ActionsView = Seq<Option<Seq<char>>>;

/// A module member as plain values: the key and, for an array, its elements.
pub type EntryView = (Seq<char>, Option<ActionsView>);

/// A permissions value as plain values: `None` for a non-object.
pub type PermissionsView = Option<Seq<EntryView>>;

impl View for PermissionAction {
    type V = Option<Seq<char>>;

    open spec fn view(&self) -> Option<Seq<char>> {
        match self {
            PermissionAction::Text(s) => Some(s@),
            PermissionAction::Other => None,
        }
    }
}

impl View for PermissionActions {
    type V = Option<ActionsView>;

    open spec fn view(&self) -> Option<ActionsView> {
        match self {
            PermissionActions::List(v) => Some(v@.map_values(|a: PermissionAction| a@)),
            PermissionActions::Other => None,
        }
    }
}

impl View for PermissionEntry {
    type V = EntryView;

    open spec fn view(&self) -> EntryView {
        (self.module@, self.actions@)
    }
}

impl View for PermissionsValue {
    type V = PermissionsView;

    open spec fn view(&self) -> PermissionsView {
        match self {
            PermissionsValue::Object(v) => Some(v@.map_values(|e: PermissionEntry| e@)),
            PermissionsValue::Other => None,
        }
    }
}

/// Whether a module member's value is an array holding the string `a`.
pub open spec fn entry_has_action(e: EntryView, a: Seq<char>) -> bool {
    e.1 matches Some(acts) && acts.contains(Some(a))
}

/// Whether a module member is `m` and its value an array holding the string `a`.
pub open spec fn entry_grants(e: EntryView, m: Seq<char>, a: Seq<char>) -> bool {
    e.0 == m && entry_has_action(e, a)
}

/// Whether some member of an object is `m` with an array holding the string `a`.
pub open spec fn member_grants(es: Seq<EntryView>, m: Seq<char>, a: Seq<char>) -> bool {
    exists|i: int| 0 <= i < es.len() && entry_grants(#[trigger] es[i], m, a)
}

/// Whether a permissions value grants action `a` on module `m`: it is an object
/// with a member `m` whose value is an array holding the string `a`.
pub open spec fn grants_action(p: PermissionsView, m: Seq<char>, a: Seq<char>) -> bool {
    match p {
        Some(es) => member_grants(es, m, a),
        None => false,
    }
}


/// Whether a permissions value grants action `a` on module `m`.
pub fn grants(p: &PermissionsValue, m: &str, a: &str) -> (r: bool)
    ensures
        r == grants_action(p@, m@, a@),
{
    match p {
        PermissionsValue::Other => false,
        PermissionsValue::Object(es) => {
            let ghost pv = es@.map_values(|e: PermissionEntry| e@);
            assert(p@ == Some(pv));
            let n = es.len();
            let mut i: usize = 0;
            while i < n
                invariant
                    n == es@.len(),
                    i <= n,
                    pv == es@.map_values(|e: PermissionEntry| e@),
                    p@ == Some(pv),
                    forall|k: int|
                        0 <= k < i ==> !entry_grants(#[trigger] pv[k], m@, a@),
                decreases n - i,
            {
                let e = &es[i];
                assert(pv[i as int] == e@);
                if str_equal(e.module.as_str(), m) {
                    match &e.actions {
                        PermissionActions::Other => {},
                        PermissionActions::List(acts) => {
                            let ghost av = acts@.map_values(|x: PermissionAction| x@);
                            assert(e.actions@ == Some(av));
                            let k = acts.len();
                            let mut j: usize = 0;
                            while j < k
                                invariant
                                    k == acts@.len(),
                                    j <= k,
                                    av == acts@.map_values(|x: PermissionAction| x@),
                                    i < n,
                                    n == es@.len(),
                                    pv == es@.map_values(|e: PermissionEntry| e@),
                                    p@ == Some(pv),
                                    pv.len() == n,
                                    pv[i as int] == e@,
                                    pv[i as int].0 == m@,
                                    e.actions@ == Some(av),
                                    forall|q: int| 0 <= q < j ==> av[q] != Some(a@),
                                decreases k - j,
                            {
                                match &acts[j] {
                                    PermissionAction::Text(s) => {
                                        if str_equal(s.as_str(), a) {
                                            assert(av[j as int] == Some(a@));
                                            assert(e.actions@ == Some(av));
                                            assert(av.contains(Some(a@)));
                                            assert(entry_has_action(pv[i as int], a@));
                                            assert(entry_grants(pv[i as int], m@, a@));
                                            assert(0 <= i < pv.len());
                                            assert(exists|q: int| 0 <= q < pv.len() && entry_grants(#[trigger] pv[q], m@, a@));
                                            assert(grants_action(Some(pv), m@, a@));
                                            assert(grants_action(p@, m@, a@));
                                            return true;
                                        }
                                    },
                                    PermissionAction::Other => {},
                                }
                                assert(av[j as int] != Some(a@));
                                j = j + 1;
                            }
                            assert(!av.contains(Some(a@)));
                            assert(e.actions@ == Some(av));
                        },
                    }
                }
                i = i + 1;
            }
            false
        },
    }
}

/// The canonical scopes that a permissions value grants among the first `n`
/// catalogue entries in lexicographic order of their scope text.
pub open spec fn selected_scopes(p: PermissionsView, n: int) -> Seq<Seq<char>>
    decreases n,
{
    if n <= 0 {
        seq![]
    } else {
        let row = known_row(sorted_position(n - 1));
        let rest = selected_scopes(p, n - 1);
        if grants_action(p, module_name(row.module), action_name(row.action)) {
            rest.push(scope_text(row))
        } else {
            rest
        }
    }
}

/// The canonical scopes that a permissions value grants, in lexicographic order,
/// each once. Unknown modules, unknown actions, non-array module values and
/// non-string actions grant nothing; a non-object grants nothing.
pub open spec fn normalized_scopes(p: PermissionsView) -> Seq<Seq<char>> {
    selected_scopes(p, 39)
}

/// Converts a `role.permissions` value into the sorted, deduplicated canonical
/// scope strings that a user JWT carries. Unknown pairs are ignored.
pub fn normalize_permissions(permissions: &PermissionsValue) -> (r: Vec<String>)
    ensures
        r@.map_values(|s: String| s@) == normalized_scopes(permissions@),
{
    let mut out: Vec<String> = Vec::new();
    let mut k: usize = 0;
    while k < 39
        invariant
            k <= 39,
            out@.map_values(|s: String| s@) == selected_scopes(permissions@, k as int),
        decreases 39 - k,
    {
        let i = sorted_position_of(k);
        let row = known_permission(i);
        let ghost before = out@;
        if grants(permissions, row.module.as_str(), row.action.as_str()) {
            let s = canonical_scope(&row);
            out.push(s);
            assert(out@.map_values(|s: String| s@) =~= before.map_values(|s: String| s@).push(
                scope_text(row),
            ));
        }
        k = k + 1;
    }
    out
}

/// Whether `kind` passes the optional kind filter.
pub open spec fn kind_matches(expected: Option<PermissionKind>, kind: PermissionKind) -> bool {
    expected matches Some(e) ==> e == kind
}

/// Whether the catalogue holds the pair `m:a` with a kind that passes the filter.
pub open spec fn pair_allowed(m: Seq<char>, a: Seq<char>, expected: Option<PermissionKind>) -> bool {
    exists|i: int|
        0 <= i < 39 && module_name((#[trigger] known_row(i)).module) == m && action_name(
            known_row(i).action,
        ) == a && kind_matches(expected, known_row(i).kind)
}

/// Whether the catalogue holds the pair `m:a` with a kind that passes the filter.
pub fn is_pair_allowed(m: &str, a: &str, expected: Option<PermissionKind>) -> (r: bool)
    ensures
        r == pair_allowed(m@, a@, expected),
{
    let mut i: usize = 0;
    while i < 39
        invariant
            i <= 39,
            forall|j: int|
                0 <= j < i ==> !(module_name((#[trigger] known_row(j)).module) == m@ && action_name(
                    known_row(j).action,
                ) == a@ && kind_matches(expected, known_row(j).kind)),
        decreases 39 - i,
    {
        let row = known_permission(i);
        let kind_ok = match expected {
            None => true,
            Some(e) => e == row.kind,
        };
        if kind_ok && str_equal(row.module.as_str(), m) && str_equal(row.action.as_str(), a) {
            return true;
        }
        i = i + 1;
    }
    false
}

/// The message for a non-object permissions value.
pub open spec fn not_object_message() -> Seq<char> {
    "permissions: expected an object of modules to action arrays"@
}

/// The message for a module whose value is not an array.
pub open spec fn not_array_message(m: Seq<char>) -> Seq<char> {
    "permissions[\""@ + m + "\"]: expected an array of action strings"@
}

/// The message for a non-string action.
pub open spec fn not_string_message(m: Seq<char>) -> Seq<char> {
    "permissions[\""@ + m + "\"]: action must be a string"@
}

/// The first rule broken among the first `n` actions of module `m`, as its message.
pub open spec fn actions_violation(
    m: Seq<char>,
    acts: ActionsView,
    expected: Option<PermissionKind>,
    n: int,
) -> Option<Seq<char>>
    decreases n,
{
    if n <= 0 {
        None
    } else {
        match actions_violation(m, acts, expected, n - 1) {
            Some(v) => Some(v),
            None => match acts[n - 1] {
                None => Some(not_string_message(m)),
                Some(a) => if pair_allowed(m, a, expected) {
                    None
                } else {
                    Some(m + ":"@ + a)
                },
            },
        }
    }
}

/// The first rule broken by a module member, as its message.
pub open spec fn entry_violation(e: EntryView, expected: Option<PermissionKind>) -> Option<
    Seq<char>,
> {
    match e.1 {
        None => Some(not_array_message(e.0)),
        Some(acts) => actions_violation(e.0, acts, expected, acts.len() as int),
    }
}

/// The first rule broken among the first `n` module members, as its message.
pub open spec fn entries_violation(
    es: Seq<EntryView>,
    expected: Option<PermissionKind>,
    n: int,
) -> Option<Seq<char>>
    decreases n,
{
    if n <= 0 {
        None
    } else {
        match entries_violation(es, expected, n - 1) {
            Some(v) => Some(v),
            None => entry_violation(es[n - 1], expected),
        }
    }
}

/// The first rule that a permissions value breaks, as the error message that
/// validation returns: not an object; a module value that is not an array; an
/// action that is not a string; or the first `module:action` pair that the
/// catalogue does not hold with an accepted kind.
pub open spec fn permissions_violation(
    p: PermissionsView,
    expected: Option<PermissionKind>,
) -> Option<Seq<char>> {
    match p {
        None => Some(not_object_message()),
        Some(es) => entries_violation(es, expected, es.len() as int),
    }
}

proof fn lemma_actions_violation_stable(
    m: Seq<char>,
    acts: ActionsView,
    expected: Option<PermissionKind>,
    n: int,
    k: int,
)
    requires
        0 <= n <= k,
        actions_violation(m, acts, expected, n) is Some,
    ensures
        actions_violation(m, acts, expected, k) == actions_violation(m, acts, expected, n),
    decreases k - n,
{
    if k > n {
        lemma_actions_violation_stable(m, acts, expected, n, k - 1);
    }
}

proof fn lemma_entries_violation_stable(
    es: Seq<EntryView>,
    expected: Option<PermissionKind>,
    n: int,
    k: int,
)
    requires
        0 <= n <= k,
        entries_violation(es, expected, n) is Some,
    ensures
        entries_violation(es, expected, k) == entries_violation(es, expected, n),
    decreases k - n,
{
    if k > n {
        lemma_entries_violation_stable(es, expected, n, k - 1);
    }
}

fn validate_actions(m: &str, acts: &Vec<PermissionAction>, expected: Option<PermissionKind>) -> (r:
    Result<(), String>)
    ensures
        match actions_violation(m@, acts@.map_values(|x: PermissionAction| x@), expected, acts@.len() as int) {
            None => r is Ok,
            Some(msg) => r matches Err(e) && e@ == msg,
        },
{
    let ghost av = acts@.map_values(|x: PermissionAction| x@);
    let n = acts.len();
    let mut j: usize = 0;
    while j < n
        invariant
            n == acts@.len(),
            j <= n,
            av == acts@.map_values(|x: PermissionAction| x@),
            actions_violation(m@, av, expected, j as int) is None,
        decreases n - j,
    {
        assert(av[j as int] == acts@[j as int]@);
        match &acts[j] {
            PermissionAction::Other => {
                proof {
                    lemma_actions_violation_stable(m@, av, expected, j + 1, n as int);
                }
                return Err(join3("permissions[\"", m, "\"]: action must be a string"));
            },
            PermissionAction::Text(a) => {
                if !is_pair_allowed(m, a.as_str(), expected) {
                    proof {
                        lemma_actions_violation_stable(m@, av, expected, j + 1, n as int);
                    }
                    return Err(join3(m, ":", a.as_str()));
                }
            },
        }
        j = j + 1;
    }
    Ok(())
}

/// Validates a permissions value against the catalogue, optionally requiring
/// every pair to be of one kind; the error is the message of the first rule broken.
pub fn validate_permissions_by_kind(
    permissions: &PermissionsValue,
    expected: Option<PermissionKind>,
) -> (r: Result<(), String>)
    ensures
        match permissions_violation(permissions@, expected) {
            None => r is Ok,
            Some(msg) => r matches Err(e) && e@ == msg,
        },
{
    match permissions {
        PermissionsValue::Other => Err(
            String::from_str("permissions: expected an object of modules to action arrays"),
        ),
        PermissionsValue::Object(es) => {
            let ghost pv = es@.map_values(|e: PermissionEntry| e@);
            assert(permissions@ == Some(pv));
            let n = es.len();
            let mut i: usize = 0;
            while i < n
                invariant
                    n == es@.len(),
                    i <= n,
                    pv == es@.map_values(|e: PermissionEntry| e@),
                    permissions@ == Some(pv),
                    entries_violation(pv, expected, i as int) is None,
                decreases n - i,
            {
                let e = &es[i];
                assert(pv[i as int] == e@);
                match &e.actions {
                    PermissionActions::Other => {
                        proof {
                            assert(pv[i as int].1 is None);
                            assert(entries_violation(pv, expected, i + 1) == Some(
                                not_array_message(e.module@),
                            ));
                            lemma_entries_violation_stable(pv, expected, i + 1, n as int);
                        }
                        return Err(
                            join3(
                                "permissions[\"",
                                e.module.as_str(),
                                "\"]: expected an array of action strings",
                            ),
                        );
                    },
                    PermissionActions::List(acts) => {
                        let res = validate_actions(e.module.as_str(), acts, expected);
                        assert(pv[i as int] == (e.module@, Some(acts@.map_values(|x: PermissionAction| x@))));
                        if res.is_err() {
                            proof {
                                lemma_entries_violation_stable(pv, expected, i + 1, n as int);
                            }
                            return res;
                        }
                    },
                }
                i = i + 1;
            }
            Ok(())
        },
    }
}

/// Validates that a permissions value only holds known business or technical pairs.
pub fn validate_permissions(permissions: &PermissionsValue) -> (r: Result<(), String>)
    ensures
        match permissions_violation(permissions@, None) {
            None => r is Ok,
            Some(msg) => r matches Err(e) && e@ == msg,
        },
{
    validate_permissions_by_kind(permissions, None)
}

/// Validates that a permissions value only holds known business pairs, as
/// user-managed roles must.
pub fn validate_business_permissions(permissions: &PermissionsValue) -> (r: Result<(), String>)
    ensures
        match permissions_violation(permissions@, Some(PermissionKind::Business)) {
            None => r is Ok,
            Some(msg) => r matches Err(e) && e@ == msg,
        },
{
    validate_permissions_by_kind(permissions, Some(PermissionKind::Business))
}

/// Validates a permissions value and returns its canonical scope strings.
pub fn validated_scopes(permissions: &PermissionsValue) -> (r: Result<Vec<String>, String>)
    ensures
        match permissions_violation(permissions@, None) {
            None => r matches Ok(v) && v@.map_values(|s: String| s@) == normalized_scopes(
                permissions@,
            ),
            Some(msg) => r matches Err(e) && e@ == msg,
        },
{
    match validate_permissions(permissions) {
        Err(e) => Err(e),
        Ok(()) => Ok(normalize_permissions(permissions)),
    }
}

/// Whether a text is one of the canonical scope strings of the catalogue.
pub open spec fn is_known_scope_text(s: Seq<char>) -> bool {
    exists|i: int| 0 <= i < 39 && scope_text(#[trigger] known_row(i)) == s
}

/// Returns `true` if the scope string is part of the canonical vocabulary.
pub fn is_known_scope(scope: &str) -> (r: bool)
    ensures
        r == is_known_scope_text(scope@),
{
    let mut i: usize = 0;
    while i < 39
        invariant
            i <= 39,
            forall|j: int| 0 <= j < i ==> scope_text(#[trigger] known_row(j)) != scope@,
        decreases 39 - i,
    {
        let row = known_permission(i);
        let s = canonical_scope(&row);
        if str_equal(s.as_str(), scope) {
            return true;
        }
        i = i + 1;
    }
    false
}


// ------------------------------------------------------------------------
// Whole-catalogue permission objects
// ------------------------------------------------------------------------

/// The actions, as strings, of the first `n` catalogue entries that belong to
/// module `m` and have a kind in `kinds`, in catalogue order.
pub open spec fn module_actions(m: PermissionModuleKey, kinds: PermissionKindSet, n: int) -> ActionsView
    decreases n,
{
    if n <= 0 {
        seq![]
    } else {
        let rest = module_actions(m, kinds, n - 1);
        let row = known_row(n - 1);
        if row.module == m && kind_set_has(kinds, row.kind) {
            rest.push(Some(action_name(row.action)))
        } else {
            rest
        }
    }
}

/// The members, in lexicographic module order, of the permissions object that
/// grants every catalogue entry whose kind is in `kinds`, for the first `n`
/// modules; a module without such entries has no member.
pub open spec fn kind_entries(kinds: PermissionKindSet, n: int) -> Seq<EntryView>
    decreases n,
{
    if n <= 0 {
        seq![]
    } else {
        let rest = kind_entries(kinds, n - 1);
        let m = sorted_module(n - 1);
        let acts = module_actions(m, kinds, 39);
        if acts.len() > 0 {
            rest.push((module_name(m), Some(acts)))
        } else {
            rest
        }
    }
}

/// The permissions object that grants every catalogue entry whose kind is in `kinds`.
pub open spec fn permissions_for_kinds(kinds: PermissionKindSet) -> PermissionsView {
    Some(kind_entries(kinds, 11))
}

fn actions_for_module(m: PermissionModuleKey, kinds: PermissionKindSet) -> (r: Vec<PermissionAction>)
    ensures
        r@.map_values(|x: PermissionAction| x@) == module_actions(m, kinds, 39),
{
    let mut acts: Vec<PermissionAction> = Vec::new();
    let mut i: usize = 0;
    while i < 39
        invariant
            i <= 39,
            acts@.map_values(|x: PermissionAction| x@) == module_actions(m, kinds, i as int),
        decreases 39 - i,
    {
        let row = known_permission(i);
        let ghost before = acts@;
        if row.module == m && kinds.contains(row.kind) {
            acts.push(PermissionAction::Text(String::from_str(row.action.as_str())));
            assert(acts@.map_values(|x: PermissionAction| x@) =~= before.map_values(
                |x: PermissionAction| x@,
            ).push(Some(action_name(row.action))));
        }
        i = i + 1;
    }
    acts
}

/// Builds the permissions object granting every catalogue entry of the given kinds.
pub fn permissions_value_for_kind(kinds: PermissionKindSet) -> (r: PermissionsValue)
    ensures
        r@ == permissions_for_kinds(kinds),
{
    let mut entries: Vec<PermissionEntry> = Vec::new();
    let mut k: usize = 0;
    while k < 11
        invariant
            k <= 11,
            entries@.map_values(|e: PermissionEntry| e@) == kind_entries(kinds, k as int),
        decreases 11 - k,
    {
        let m = sorted_module_at(k);
        let acts = actions_for_module(m, kinds);
        let ghost before = entries@;
        let ghost av = acts@.map_values(|x: PermissionAction| x@);
        if acts.len() > 0 {
            let e = PermissionEntry {
                module: String::from_str(m.as_str()),
                actions: PermissionActions::List(acts),
            };
            assert(e@ == (module_name(m), Some(av)));
            entries.push(e);
            assert(entries@.map_values(|e: PermissionEntry| e@) =~= before.map_values(
                |e: PermissionEntry| e@,
            ).push((module_name(m), Some(av))));
        }
        k = k + 1;
    }
    PermissionsValue::Object(entries)
}

/// The business permission set.
pub open spec fn business_kinds() -> PermissionKindSet {
    PermissionKindSet(1)
}

/// The set of both business and technical permissions.
pub open spec fn all_kinds() -> PermissionKindSet {
    PermissionKindSet(3)
}

/// A permissions object holding every business permission.
pub fn full_business_permissions() -> (r: PermissionsValue)
    ensures
        r@ == permissions_for_kinds(business_kinds()),
{
    let k = PermissionKindSet::business();
    permissions_value_for_kind(k)
}

/// A permissions object holding every known permission, technical ones included,
/// as reserved for system and bootstrap roles.
pub fn full_system_permissions() -> (r: PermissionsValue)
    ensures
        r@ == permissions_for_kinds(all_kinds()),
{
    let k = PermissionKind::Technical.bitor(PermissionKind::Business);
    assert((2u8 | 1u8) == 3u8) by (bit_vector);
    permissions_value_for_kind(k)
}



// ------------------------------------------------------------------------
// Laws of the permission catalogue
// ------------------------------------------------------------------------

proof fn lemma_sorted_position_range(k: int)
    requires
        0 <= k < 39,
    ensures
        0 <= sorted_position(k) < 39,
{
}

proof fn lemma_sorted_module_index(m: PermissionModuleKey)
    ensures
        0 <= sorted_module_index(m) < 11,
        sorted_module(sorted_module_index(m)) == m,
{
}

proof fn lemma_module_actions_sound(m: PermissionModuleKey, kinds: PermissionKindSet, n: int, j: int)
    requires
        0 <= n <= 39,
        0 <= j < module_actions(m, kinds, n).len(),
    ensures
        exists|i: int|
            0 <= i < n && (#[trigger] known_row(i)).module == m && kind_set_has(kinds, known_row(i).kind)
                && module_actions(m, kinds, n)[j] == Some(action_name(known_row(i).action)),
    decreases n,
{
    let rest = module_actions(m, kinds, n - 1);
    let row = known_row(n - 1);
    if j < rest.len() {
        lemma_module_actions_sound(m, kinds, n - 1, j);
        if row.module == m && kind_set_has(kinds, row.kind) {
            assert(module_actions(m, kinds, n)[j] == rest[j]);
        }
    } else {
        assert(row.module == m && kind_set_has(kinds, row.kind));
        assert(known_row(n - 1).module == m);
    }
}

proof fn lemma_module_actions_complete(m: PermissionModuleKey, kinds: PermissionKindSet, n: int, i: int)
    requires
        0 <= i < n <= 39,
        known_row(i).module == m,
        kind_set_has(kinds, known_row(i).kind),
    ensures
        module_actions(m, kinds, n).contains(Some(action_name(known_row(i).action))),
    decreases n,
{
    let rest = module_actions(m, kinds, n - 1);
    let row = known_row(n - 1);
    if i < n - 1 {
        lemma_module_actions_complete(m, kinds, n - 1, i);
        let j = choose|j: int| 0 <= j < rest.len() && rest[j] == Some(action_name(known_row(i).action));
        if row.module == m && kind_set_has(kinds, row.kind) {
            assert(module_actions(m, kinds, n)[j] == rest[j]);
        }
    } else {
        let acts = module_actions(m, kinds, n);
        assert(acts[acts.len() - 1] == Some(action_name(known_row(i).action)));
    }
}

proof fn lemma_kind_entries_sound(kinds: PermissionKindSet, n: int, k: int)
    requires
        0 <= n <= 11,
        0 <= k < kind_entries(kinds, n).len(),
    ensures
        exists|mm: PermissionModuleKey|
            #![trigger module_actions(mm, kinds, 39)]
            kind_entries(kinds, n)[k] == (module_name(mm), Some(module_actions(mm, kinds, 39))),
    decreases n,
{
    let rest = kind_entries(kinds, n - 1);
    let m = sorted_module(n - 1);
    if k < rest.len() {
        lemma_kind_entries_sound(kinds, n - 1, k);
        if module_actions(m, kinds, 39).len() > 0 {
            assert(kind_entries(kinds, n)[k] == rest[k]);
        }
    } else {
        assert(kind_entries(kinds, n)[k] == (module_name(m), Some(module_actions(m, kinds, 39))));
    }
}

proof fn lemma_kind_entries_complete(kinds: PermissionKindSet, n: int, mm: PermissionModuleKey)
    requires
        0 <= n <= 11,
        sorted_module_index(mm) < n,
        module_actions(mm, kinds, 39).len() > 0,
    ensures
        exists|k: int|
            0 <= k < kind_entries(kinds, n).len() && #[trigger] kind_entries(kinds, n)[k] == (
                module_name(mm),
                Some(module_actions(mm, kinds, 39)),
            ),
    decreases n,
{
    lemma_sorted_module_index(mm);
    let rest = kind_entries(kinds, n - 1);
    let m = sorted_module(n - 1);
    if sorted_module_index(mm) < n - 1 {
        lemma_kind_entries_complete(kinds, n - 1, mm);
        let k = choose|k: int|
            0 <= k < rest.len() && #[trigger] rest[k] == (
                module_name(mm),
                Some(module_actions(mm, kinds, 39)),
            );
        if module_actions(m, kinds, 39).len() > 0 {
            assert(kind_entries(kinds, n)[k] == rest[k]);
        } else {
            assert(kind_entries(kinds, n) == rest);
        }
        assert(kind_entries(kinds, n)[k] == (module_name(mm), Some(module_actions(mm, kinds, 39))));
    } else {
        assert(m == mm);
        let es = kind_entries(kinds, n);
        assert(es[es.len() - 1] == (module_name(mm), Some(module_actions(mm, kinds, 39))));
    }
}

/// A catalogue entry is granted by the whole-catalogue object of `kinds` exactly
/// when its kind is in `kinds`.
proof fn lemma_full_grants_row(kinds: PermissionKindSet, i: int)
    requires
        0 <= i < 39,
    ensures
        grants_action(
            permissions_for_kinds(kinds),
            module_name(known_row(i).module),
            action_name(known_row(i).action),
        ) <==> kind_set_has(kinds, known_row(i).kind),
{
    let row = known_row(i);
    let es = kind_entries(kinds, 11);
    let mn = module_name(row.module);
    let an = action_name(row.action);
    if kind_set_has(kinds, row.kind) {
        lemma_module_actions_complete(row.module, kinds, 39, i);
        lemma_sorted_module_index(row.module);
        lemma_kind_entries_complete(kinds, 11, row.module);
        let k = choose|k: int|
            0 <= k < es.len() && #[trigger] es[k] == (
                mn,
                Some(module_actions(row.module, kinds, 39)),
            );
        assert(entry_grants(es[k], mn, an));
        assert(member_grants(es, mn, an));
    }
    if grants_action(permissions_for_kinds(kinds), mn, an) {
        assert(member_grants(es, mn, an));
        let k = choose|k: int| 0 <= k < es.len() && entry_grants(#[trigger] es[k], mn, an);
        lemma_kind_entries_sound(kinds, 11, k);
        let mm = choose|mm: PermissionModuleKey|
            #![trigger module_actions(mm, kinds, 39)]
            es[k] == (module_name(mm), Some(module_actions(mm, kinds, 39)));
        lemma_module_name_injective(mm, row.module);
        let acts = module_actions(mm, kinds, 39);
        let j = choose|j: int| 0 <= j < acts.len() && acts[j] == Some(an);
        lemma_module_actions_sound(mm, kinds, 39, j);
        let i2 = choose|i2: int|
            0 <= i2 < 39 && (#[trigger] known_row(i2)).module == mm && kind_set_has(
                kinds,
                known_row(i2).kind,
            ) && acts[j] == Some(action_name(known_row(i2).action));
        lemma_action_name_injective(known_row(i2).action, row.action);
        lemma_row_index(i);
        lemma_row_index(i2);
    }
}

/// The canonical scopes, in lexicographic order, of the first `n` catalogue
/// entries (in that order) whose kind is in `kinds`.
pub open spec fn scopes_of_kinds(kinds: PermissionKindSet, n: int) -> Seq<Seq<char>>
    decreases n,
{
    if n <= 0 {
        seq![]
    } else {
        let row = known_row(sorted_position(n - 1));
        let rest = scopes_of_kinds(kinds, n - 1);
        if kind_set_has(kinds, row.kind) {
            rest.push(scope_text(row))
        } else {
            rest
        }
    }
}

proof fn lemma_selected_full(kinds: PermissionKindSet, n: int)
    requires
        0 <= n <= 39,
    ensures
        selected_scopes(permissions_for_kinds(kinds), n) == scopes_of_kinds(kinds, n),
    decreases n,
{
    if n > 0 {
        lemma_selected_full(kinds, n - 1);
        lemma_sorted_position_range(n - 1);
        lemma_full_grants_row(kinds, sorted_position(n - 1));
    }
}

/// Law: the permissions object built for a set of kinds converts to exactly the
/// canonical scopes of those kinds, in lexicographic order.
pub proof fn law_full_permissions_normalize_to_their_kinds(kinds: PermissionKindSet)
    ensures
        normalized_scopes(permissions_for_kinds(kinds)) == scopes_of_kinds(kinds, 39),
{
    lemma_selected_full(kinds, 39);
}

proof fn lemma_actions_all_allowed(
    m: PermissionModuleKey,
    kinds: PermissionKindSet,
    expected: Option<PermissionKind>,
    n: int,
)
    requires
        0 <= n <= module_actions(m, kinds, 39).len(),
        forall|k: PermissionKind| kind_set_has(kinds, k) ==> kind_matches(expected, k),
    ensures
        actions_violation(module_name(m), module_actions(m, kinds, 39), expected, n) is None,
    decreases n,
{
    if n > 0 {
        lemma_actions_all_allowed(m, kinds, expected, n - 1);
        lemma_module_actions_sound(m, kinds, 39, n - 1);
        let acts = module_actions(m, kinds, 39);
        let i = choose|i: int|
            0 <= i < 39 && (#[trigger] known_row(i)).module == m && kind_set_has(
                kinds,
                known_row(i).kind,
            ) && acts[n - 1] == Some(action_name(known_row(i).action));
        assert(pair_allowed(module_name(m), action_name(known_row(i).action), expected));
    }
}

proof fn lemma_entries_all_allowed(
    kinds: PermissionKindSet,
    expected: Option<PermissionKind>,
    n: int,
)
    requires
        0 <= n <= kind_entries(kinds, 11).len(),
        forall|k: PermissionKind| kind_set_has(kinds, k) ==> kind_matches(expected, k),
    ensures
        entries_violation(kind_entries(kinds, 11), expected, n) is None,
    decreases n,
{
    if n > 0 {
        lemma_entries_all_allowed(kinds, expected, n - 1);
        lemma_kind_entries_sound(kinds, 11, n - 1);
        let es = kind_entries(kinds, 11);
        let mm = choose|mm: PermissionModuleKey|
            #![trigger module_actions(mm, kinds, 39)]
            es[n - 1] == (module_name(mm), Some(module_actions(mm, kinds, 39)));
        lemma_actions_all_allowed(mm, kinds, expected, module_actions(mm, kinds, 39).len() as int);
    }
}

/// Law: the permissions object built for a set of kinds passes validation with
/// any kind filter that every kind in the set passes.
pub proof fn law_full_permissions_are_valid(
    kinds: PermissionKindSet,
    expected: Option<PermissionKind>,
)
    requires
        forall|k: PermissionKind| kind_set_has(kinds, k) ==> kind_matches(expected, k),
    ensures
        permissions_violation(permissions_for_kinds(kinds), expected) is None,
{
    lemma_entries_all_allowed(kinds, expected, kind_entries(kinds, 11).len() as int);
}

/// Law: the object of every business permission is accepted as business
/// permissions, and the object of every permission is accepted in general.
pub proof fn law_full_business_and_system_permissions_validate()
    ensures
        permissions_violation(
            permissions_for_kinds(business_kinds()),
            Some(PermissionKind::Business),
        ) is None,
        permissions_violation(permissions_for_kinds(all_kinds()), None) is None,
{
    assert forall|k: PermissionKind| kind_set_has(business_kinds(), k) implies kind_matches(
        Some(PermissionKind::Business),
        k,
    ) by {
        assert(1u8 & 2u8 == 0) by (bit_vector);
    }
    law_full_permissions_are_valid(business_kinds(), Some(PermissionKind::Business));
    law_full_permissions_are_valid(all_kinds(), None);
}

proof fn lemma_business_actions(m: Seq<char>, acts: ActionsView, n: int)
    requires
        0 <= n <= acts.len(),
        actions_violation(m, acts, Some(PermissionKind::Business), n) is None,
    ensures
        actions_violation(m, acts, None, n) is None,
    decreases n,
{
    if n > 0 {
        lemma_business_actions(m, acts, n - 1);
        if let Some(a) = acts[n - 1] {
            assert(pair_allowed(m, a, Some(PermissionKind::Business)));
            let i = choose|i: int|
                0 <= i < 39 && module_name((#[trigger] known_row(i)).module) == m && action_name(
                    known_row(i).action,
                ) == a && kind_matches(Some(PermissionKind::Business), known_row(i).kind);
            assert(pair_allowed(m, a, None));
        }
    }
}

proof fn lemma_business_entries(es: Seq<EntryView>, n: int)
    requires
        0 <= n <= es.len(),
        entries_violation(es, Some(PermissionKind::Business), n) is None,
    ensures
        entries_violation(es, None, n) is None,
    decreases n,
{
    if n > 0 {
        lemma_business_entries(es, n - 1);
        if let Some(acts) = es[n - 1].1 {
            lemma_business_actions(es[n - 1].0, acts, acts.len() as int);
        }
    }
}

/// Law: permissions accepted for a business role are accepted by the general
/// validation as well.
pub proof fn law_business_valid_implies_valid(p: PermissionsView)
    requires
        permissions_violation(p, Some(PermissionKind::Business)) is None,
    ensures
        permissions_violation(p, None) is None,
{
    if let Some(es) = p {
        lemma_business_entries(es, es.len() as int);
    }
}

proof fn lemma_selected_known(p: PermissionsView, n: int, j: int)
    requires
        0 <= n <= 39,
        0 <= j < selected_scopes(p, n).len(),
    ensures
        is_known_scope_text(selected_scopes(p, n)[j]),
    decreases n,
{
    let rest = selected_scopes(p, n - 1);
    let row = known_row(sorted_position(n - 1));
    lemma_sorted_position_range(n - 1);
    if j < rest.len() {
        lemma_selected_known(p, n - 1, j);
        if grants_action(p, module_name(row.module), action_name(row.action)) {
            assert(selected_scopes(p, n)[j] == rest[j]);
        }
    } else {
        assert(selected_scopes(p, n)[j] == scope_text(known_row(sorted_position(n - 1))));
    }
}

/// Law: every scope that normalization produces is a known scope.
pub proof fn law_normalized_scopes_are_known(p: PermissionsView)
    ensures
        forall|j: int|
            0 <= j < normalized_scopes(p).len() ==> is_known_scope_text(
                #[trigger] normalized_scopes(p)[j],
            ),
{
    assert forall|j: int| 0 <= j < normalized_scopes(p).len() implies is_known_scope_text(
        #[trigger] normalized_scopes(p)[j],
    ) by {
        lemma_selected_known(p, 39, j);
    }
}



/// Law: distinct catalogue entries have distinct scope texts, so a scope text
/// names exactly one module/action pair.
pub proof fn law_scope_texts_distinct(i: int, j: int)
    requires
        0 <= i < 39,
        0 <= j < 39,
        scope_text(known_row(i)) == scope_text(known_row(j)),
    ensures
        i == j,
{
    let a = known_row(i);
    let b = known_row(j);
    let ma = module_name(a.module);
    let mb = module_name(b.module);
    let ta = scope_text(a);
    let tb = scope_text(b);
    lemma_module_name_shape(a.module);
    lemma_module_name_shape(b.module);
    lemma_action_name_shape(a.action);
    lemma_action_name_shape(b.action);
    reveal_strlit(":");
    assert(ta[ma.len() as int] == ':');
    assert(tb[mb.len() as int] == ':');
    if ma.len() < mb.len() {
        assert(tb[ma.len() as int] == mb[ma.len() as int]);
    }
    if mb.len() < ma.len() {
        assert(ta[mb.len() as int] == ma[mb.len() as int]);
    }
    assert(ma.len() == mb.len());
    assert(ma =~= ta.subrange(0, ma.len() as int));
    assert(mb =~= tb.subrange(0, mb.len() as int));
    lemma_module_name_injective(a.module, b.module);
    assert(action_name(a.action) =~= ta.subrange(ma.len() as int + 1, ta.len() as int));
    assert(action_name(b.action) =~= tb.subrange(mb.len() as int + 1, tb.len() as int));
    lemma_action_name_injective(a.action, b.action);
    lemma_row_index(i);
    lemma_row_index(j);
}

/// Rank in lexicographic order of the scope text of the `i`-th catalogue entry
/// (the inverse of [`sorted_position`]).
pub open spec fn sorted_rank(i: int) -> int {
    if i == 0 {
        17
    } else if i == 1 {
        15
    } else if i == 2 {
        19
    } else if i == 3 {
        16
    } else if i == 4 {
        18
    } else if i == 5 {
        25
    } else if i == 6 {
        23
    } else if i == 7 {
        26
    } else if i == 8 {
        24
    } else if i == 9 {
        6
    } else if i == 10 {
        4
    } else if i == 11 {
        7
    } else if i == 12 {
        5
    } else if i == 13 {
        10
    } else if i == 14 {
        8
    } else if i == 15 {
        11
    } else if i == 16 {
        9
    } else if i == 17 {
        31
    } else if i == 18 {
        32
    } else if i == 19 {
        35
    } else if i == 20 {
        33
    } else if i == 21 {
        36
    } else if i == 22 {
        34
    } else if i == 23 {
        29
    } else if i == 24 {
        27
    } else if i == 25 {
        30
    } else if i == 26 {
        28
    } else if i == 27 {
        21
    } else if i == 28 {
        20
    } else if i == 29 {
        22
    } else if i == 30 {
        2
    } else if i == 31 {
        0
    } else if i == 32 {
        3
    } else if i == 33 {
        1
    } else if i == 34 {
        13
    } else if i == 35 {
        14
    } else if i == 36 {
        12
    } else if i == 37 {
        37
    } else {
        38
    }
}

proof fn lemma_sorted_rank(k: int)
    requires
        0 <= k < 39,
    ensures
        sorted_rank(sorted_position(k)) == k,
{
    if k == 0 {
        assert(sorted_rank(sorted_position(0)) == 0);
    } else if k == 1 {
        assert(sorted_rank(sorted_position(1)) == 1);
    } else if k == 2 {
        assert(sorted_rank(sorted_position(2)) == 2);
    } else if k == 3 {
        assert(sorted_rank(sorted_position(3)) == 3);
    } else if k == 4 {
        assert(sorted_rank(sorted_position(4)) == 4);
    } else if k == 5 {
        assert(sorted_rank(sorted_position(5)) == 5);
    } else if k == 6 {
        assert(sorted_rank(sorted_position(6)) == 6);
    } else if k == 7 {
        assert(sorted_rank(sorted_position(7)) == 7);
    } else if k == 8 {
        assert(sorted_rank(sorted_position(8)) == 8);
    } else if k == 9 {
        assert(sorted_rank(sorted_position(9)) == 9);
    } else if k == 10 {
        assert(sorted_rank(sorted_position(10)) == 10);
    } else if k == 11 {
        assert(sorted_rank(sorted_position(11)) == 11);
    } else if k == 12 {
        assert(sorted_rank(sorted_position(12)) == 12);
    } else if k == 13 {
        assert(sorted_rank(sorted_position(13)) == 13);
    } else if k == 14 {
        assert(sorted_rank(sorted_position(14)) == 14);
    } else if k == 15 {
        assert(sorted_rank(sorted_position(15)) == 15);
    } else if k == 16 {
        assert(sorted_rank(sorted_position(16)) == 16);
    } else if k == 17 {
        assert(sorted_rank(sorted_position(17)) == 17);
    } else if k == 18 {
        assert(sorted_rank(sorted_position(18)) == 18);
    } else if k == 19 {
        assert(sorted_rank(sorted_position(19)) == 19);
    } else if k == 20 {
        assert(sorted_rank(sorted_position(20)) == 20);
    } else if k == 21 {
        assert(sorted_rank(sorted_position(21)) == 21);
    } else if k == 22 {
        assert(sorted_rank(sorted_position(22)) == 22);
    } else if k == 23 {
        assert(sorted_rank(sorted_position(23)) == 23);
    } else if k == 24 {
        assert(sorted_rank(sorted_position(24)) == 24);
    } else if k == 25 {
        assert(sorted_rank(sorted_position(25)) == 25);
    } else if k == 26 {
        assert(sorted_rank(sorted_position(26)) == 26);
    } else if k == 27 {
        assert(sorted_rank(sorted_position(27)) == 27);
    } else if k == 28 {
        assert(sorted_rank(sorted_position(28)) == 28);
    } else if k == 29 {
        assert(sorted_rank(sorted_position(29)) == 29);
    } else if k == 30 {
        assert(sorted_rank(sorted_position(30)) == 30);
    } else if k == 31 {
        assert(sorted_rank(sorted_position(31)) == 31);
    } else if k == 32 {
        assert(sorted_rank(sorted_position(32)) == 32);
    } else if k == 33 {
        assert(sorted_rank(sorted_position(33)) == 33);
    } else if k == 34 {
        assert(sorted_rank(sorted_position(34)) == 34);
    } else if k == 35 {
        assert(sorted_rank(sorted_position(35)) == 35);
    } else if k == 36 {
        assert(sorted_rank(sorted_position(36)) == 36);
    } else if k == 37 {
        assert(sorted_rank(sorted_position(37)) == 37);
    } else if k == 38 {
        assert(sorted_rank(sorted_position(38)) == 38);
    }
}

/// The `j`-th normalized scope comes from the catalogue entry ranked `k`, for
/// some `k` below `n`.
proof fn lemma_selected_origin(p: PermissionsView, n: int, j: int) -> (k: int)
    requires
        0 <= n <= 39,
        0 <= j < selected_scopes(p, n).len(),
    ensures
        0 <= k < n,
        selected_scopes(p, n)[j] == scope_text(known_row(sorted_position(k))),
    decreases n,
{
    let rest = selected_scopes(p, n - 1);
    let row = known_row(sorted_position(n - 1));
    if j < rest.len() {
        let k = lemma_selected_origin(p, n - 1, j);
        if grants_action(p, module_name(row.module), action_name(row.action)) {
            assert(selected_scopes(p, n)[j] == rest[j]);
        }
        k
    } else {
        n - 1
    }
}

proof fn lemma_selected_distinct(p: PermissionsView, n: int)
    requires
        0 <= n <= 39,
    ensures
        selected_scopes(p, n).no_duplicates(),
    decreases n,
{
    if n > 0 {
        lemma_selected_distinct(p, n - 1);
        let rest = selected_scopes(p, n - 1);
        let row = known_row(sorted_position(n - 1));
        if grants_action(p, module_name(row.module), action_name(row.action)) {
            let s = selected_scopes(p, n);
            assert forall|a: int, b: int| 0 <= a < s.len() && 0 <= b < s.len() && a != b implies s[a]
                != s[b] by {
                if a < rest.len() && b < rest.len() {
                    assert(s[a] == rest[a] && s[b] == rest[b]);
                } else {
                    let other = if a < rest.len() { a } else { b };
                    let k = lemma_selected_origin(p, n - 1, other);
                    assert(s[other] == rest[other]);
                    lemma_sorted_position_range(k);
                    lemma_sorted_position_range(n - 1);
                    if scope_text(known_row(sorted_position(k))) == scope_text(row) {
                        law_scope_texts_distinct(sorted_position(k), sorted_position(n - 1));
                        lemma_sorted_rank(k);
                        lemma_sorted_rank(n - 1);
                    }
                }
            }
        }
    }
}

/// Law: normalization never yields a scope twice, however often the stored
/// permissions repeat a module or an action.
pub proof fn law_normalized_scopes_distinct(p: PermissionsView)
    ensures
        normalized_scopes(p).no_duplicates(),
{
    lemma_selected_distinct(p, 39);
}

proof fn lemma_position_of_rank(i: int)
    requires
        0 <= i < 39,
    ensures
        0 <= sorted_rank(i) < 39,
        sorted_position(sorted_rank(i)) == i,
{
    if i == 0 {
        assert(sorted_rank(0) == 17 && sorted_position(17) == 0);
    } else if i == 1 {
        assert(sorted_rank(1) == 15 && sorted_position(15) == 1);
    } else if i == 2 {
        assert(sorted_rank(2) == 19 && sorted_position(19) == 2);
    } else if i == 3 {
        assert(sorted_rank(3) == 16 && sorted_position(16) == 3);
    } else if i == 4 {
        assert(sorted_rank(4) == 18 && sorted_position(18) == 4);
    } else if i == 5 {
        assert(sorted_rank(5) == 25 && sorted_position(25) == 5);
    } else if i == 6 {
        assert(sorted_rank(6) == 23 && sorted_position(23) == 6);
    } else if i == 7 {
        assert(sorted_rank(7) == 26 && sorted_position(26) == 7);
    } else if i == 8 {
        assert(sorted_rank(8) == 24 && sorted_position(24) == 8);
    } else if i == 9 {
        assert(sorted_rank(9) == 6 && sorted_position(6) == 9);
    } else if i == 10 {
        assert(sorted_rank(10) == 4 && sorted_position(4) == 10);
    } else if i == 11 {
        assert(sorted_rank(11) == 7 && sorted_position(7) == 11);
    } else if i == 12 {
        assert(sorted_rank(12) == 5 && sorted_position(5) == 12);
    } else if i == 13 {
        assert(sorted_rank(13) == 10 && sorted_position(10) == 13);
    } else if i == 14 {
        assert(sorted_rank(14) == 8 && sorted_position(8) == 14);
    } else if i == 15 {
        assert(sorted_rank(15) == 11 && sorted_position(11) == 15);
    } else if i == 16 {
        assert(sorted_rank(16) == 9 && sorted_position(9) == 16);
    } else if i == 17 {
        assert(sorted_rank(17) == 31 && sorted_position(31) == 17);
    } else if i == 18 {
        assert(sorted_rank(18) == 32 && sorted_position(32) == 18);
    } else if i == 19 {
        assert(sorted_rank(19) == 35 && sorted_position(35) == 19);
    } else if i == 20 {
        assert(sorted_rank(20) == 33 && sorted_position(33) == 20);
    } else if i == 21 {
        assert(sorted_rank(21) == 36 && sorted_position(36) == 21);
    } else if i == 22 {
        assert(sorted_rank(22) == 34 && sorted_position(34) == 22);
    } else if i == 23 {
        assert(sorted_rank(23) == 29 && sorted_position(29) == 23);
    } else if i == 24 {
        assert(sorted_rank(24) == 27 && sorted_position(27) == 24);
    } else if i == 25 {
        assert(sorted_rank(25) == 30 && sorted_position(30) == 25);
    } else if i == 26 {
        assert(sorted_rank(26) == 28 && sorted_position(28) == 26);
    } else if i == 27 {
        assert(sorted_rank(27) == 21 && sorted_position(21) == 27);
    } else if i == 28 {
        assert(sorted_rank(28) == 20 && sorted_position(20) == 28);
    } else if i == 29 {
        assert(sorted_rank(29) == 22 && sorted_position(22) == 29);
    } else if i == 30 {
        assert(sorted_rank(30) == 2 && sorted_position(2) == 30);
    } else if i == 31 {
        assert(sorted_rank(31) == 0 && sorted_position(0) == 31);
    } else if i == 32 {
        assert(sorted_rank(32) == 3 && sorted_position(3) == 32);
    } else if i == 33 {
        assert(sorted_rank(33) == 1 && sorted_position(1) == 33);
    } else if i == 34 {
        assert(sorted_rank(34) == 13 && sorted_position(13) == 34);
    } else if i == 35 {
        assert(sorted_rank(35) == 14 && sorted_position(14) == 35);
    } else if i == 36 {
        assert(sorted_rank(36) == 12 && sorted_position(12) == 36);
    } else if i == 37 {
        assert(sorted_rank(37) == 37 && sorted_position(37) == 37);
    } else if i == 38 {
        assert(sorted_rank(38) == 38 && sorted_position(38) == 38);
    }
}

proof fn lemma_selected_contains(p: PermissionsView, n: int, i: int)
    requires
        0 <= n <= 39,
        0 <= i < 39,
    ensures
        selected_scopes(p, n).contains(scope_text(known_row(i))) <==> (sorted_rank(i) < n
            && grants_action(p, module_name(known_row(i).module), action_name(known_row(i).action))),
    decreases n,
{
    lemma_position_of_rank(i);
    let x = scope_text(known_row(i));
    if n > 0 {
        lemma_selected_contains(p, n - 1, i);
        let rest = selected_scopes(p, n - 1);
        let j = sorted_position(n - 1);
        lemma_sorted_position_range(n - 1);
        lemma_sorted_rank(n - 1);
        let row = known_row(j);
        let s = selected_scopes(p, n);
        if x == scope_text(row) {
            law_scope_texts_distinct(i, j);
        }
        if grants_action(p, module_name(row.module), action_name(row.action)) {
            assert(s == rest.push(scope_text(row)));
            if rest.contains(x) {
                let w = choose|w: int| 0 <= w < rest.len() && rest[w] == x;
                assert(s[w] == x);
            }
            if x == scope_text(row) {
                assert(s[rest.len() as int] == x);
            }
            if s.contains(x) {
                let w = choose|w: int| 0 <= w < s.len() && s[w] == x;
                if w < rest.len() {
                    assert(rest[w] == x);
                }
            }
        } else {
            assert(s == rest);
        }
    }
}

/// Law: normalization yields a catalogue entry's scope exactly when the stored
/// permissions grant its action on its module.
pub proof fn law_normalized_scope_iff_granted(p: PermissionsView, i: int)
    requires
        0 <= i < 39,
    ensures
        normalized_scopes(p).contains(scope_text(known_row(i))) <==> grants_action(
            p,
            module_name(known_row(i).module),
            action_name(known_row(i).action),
        ),
{
    lemma_selected_contains(p, 39, i);
    lemma_position_of_rank(i);
}

// ------------------------------------------------------------------------
// The business permission catalogue shown to user interfaces
// ------------------------------------------------------------------------

/// A single permission action exposed for a business module.
#[derive(Debug, Clone, PartialEq, Eq)]
pub struct PermissionActionCatalog {
    /// The action key stored under the module in `role.permissions`.
    pub key: &'static str,
    /// A human-readable label for user interfaces.
    pub label: &'static str,
}

/// A business permission module with its allowed actions.
#[derive(Debug, Clone, PartialEq, Eq)]
pub struct PermissionModuleCatalog {
    /// The module key stored in `role.permissions`.
    pub key: &'static str,
    /// A human-readable label for user interfaces.
    pub label: &'static str,
    /// A short description of the module.
    pub description: &'static str,
    /// The allowed actions for this business module.
    pub permissions: Vec<PermissionActionCatalog>,
}

/// The `i`-th module (0 to 8) of the business catalogue.
pub open spec fn catalog_module(i: int) -> PermissionModuleKey {
    if i == 0 {
        PermissionModuleKey::Organization
    } else if i == 1 {
        PermissionModuleKey::Product
    } else if i == 2 {
        PermissionModuleKey::Brand
    } else if i == 3 {
        PermissionModuleKey::Category
    } else if i == 4 {
        PermissionModuleKey::Stock
    } else if i == 5 {
        PermissionModuleKey::User
    } else if i == 6 {
        PermissionModuleKey::Role
    } else if i == 7 {
        PermissionModuleKey::Pos
    } else {
        PermissionModuleKey::Bom
    }
}

/// The actions that the business catalogue lists for a module (none for technical modules).
pub open spec fn catalog_actions(m: PermissionModuleKey) -> Seq<PermissionActionKey> {
    match m {
        PermissionModuleKey::Organization => seq![PermissionActionKey::Read, PermissionActionKey::Create, PermissionActionKey::Update, PermissionActionKey::Delete, PermissionActionKey::Select],
        PermissionModuleKey::Product => seq![PermissionActionKey::Read, PermissionActionKey::Create, PermissionActionKey::Update, PermissionActionKey::Delete],
        PermissionModuleKey::Brand => seq![PermissionActionKey::Read, PermissionActionKey::Create, PermissionActionKey::Update, PermissionActionKey::Delete],
        PermissionModuleKey::Category => seq![PermissionActionKey::Read, PermissionActionKey::Create, PermissionActionKey::Update, PermissionActionKey::Delete],
        PermissionModuleKey::Stock => seq![PermissionActionKey::Read, PermissionActionKey::Update],
        PermissionModuleKey::User => seq![PermissionActionKey::Read, PermissionActionKey::Create, PermissionActionKey::Update, PermissionActionKey::Delete],
        PermissionModuleKey::Role => seq![PermissionActionKey::Read, PermissionActionKey::Create, PermissionActionKey::Update, PermissionActionKey::Delete],
        PermissionModuleKey::Pos => seq![PermissionActionKey::Read, PermissionActionKey::Create, PermissionActionKey::Update],
        PermissionModuleKey::Bom => seq![PermissionActionKey::Read, PermissionActionKey::Create, PermissionActionKey::Update, PermissionActionKey::Delete],
        _ => seq![],
    }
}

/// The label of a catalogue module.
pub open spec fn module_label(m: PermissionModuleKey) -> Seq<char> {
    match m {
        PermissionModuleKey::Organization => "Organizations"@,
        PermissionModuleKey::Product => "Products"@,
        PermissionModuleKey::Brand => "Brands"@,
        PermissionModuleKey::Category => "Categories"@,
        PermissionModuleKey::Stock => "Stock"@,
        PermissionModuleKey::User => "Users"@,
        PermissionModuleKey::Role => "Roles"@,
        PermissionModuleKey::Pos => "POS"@,
        PermissionModuleKey::Bom => "Bill of Materials"@,
        _ => seq![],
    }
}

/// The description of a catalogue module.
pub open spec fn module_description(m: PermissionModuleKey) -> Seq<char> {
    match m {
        PermissionModuleKey::Organization => "Manage organizations and active organization context."@,
        PermissionModuleKey::Product => "Manage product catalog items."@,
        PermissionModuleKey::Brand => "Manage product brand records."@,
        PermissionModuleKey::Category => "Manage product category records."@,
        PermissionModuleKey::Stock => "View and adjust inventory and POS stock."@,
        PermissionModuleKey::User => "Manage users and their memberships."@,
        PermissionModuleKey::Role => "Manage role definitions and assigned permissions."@,
        PermissionModuleKey::Pos => "Operate POS menus and order workflows."@,
        PermissionModuleKey::Bom => "Manage BOM recipes and production runs."@,
        _ => seq![],
    }
}

/// The label of a catalogue action.
pub open spec fn action_label(a: PermissionActionKey) -> Seq<char> {
    match a {
        PermissionActionKey::Read => "Read"@,
        PermissionActionKey::Create => "Create"@,
        PermissionActionKey::Update => "Update"@,
        PermissionActionKey::Delete => "Delete"@,
        PermissionActionKey::Select => "Select"@,
        _ => seq![],
    }
}

fn catalog_action_entry(a: PermissionActionKey) -> (r: PermissionActionCatalog)
    requires
        a == PermissionActionKey::Read || a == PermissionActionKey::Create || a == PermissionActionKey::Update
            || a == PermissionActionKey::Delete || a == PermissionActionKey::Select,
    ensures
        r.key@ == action_name(a),
        r.label@ == action_label(a),
{
    let label = match a {
        PermissionActionKey::Read => "Read",
        PermissionActionKey::Create => "Create",
        PermissionActionKey::Update => "Update",
        PermissionActionKey::Delete => "Delete",
        PermissionActionKey::Select => "Select",
        _ => "",
    };
    PermissionActionCatalog { key: a.as_str(), label }
}

/// The catalogue entries of a business module's actions.
pub open spec fn catalog_entries_match(v: Seq<PermissionActionCatalog>, acts: Seq<PermissionActionKey>) -> bool {
    &&& v.len() == acts.len()
    &&& forall|j: int| 0 <= j < v.len() ==> (#[trigger] v[j]).key@ == action_name(acts[j]) && v[j].label@ == action_label(acts[j])
}

fn catalog_module_entry(m: PermissionModuleKey) -> (r: PermissionModuleCatalog)
    requires
        catalog_actions(m).len() > 0,
    ensures
        r.key@ == module_name(m),
        r.label@ == module_label(m),
        r.description@ == module_description(m),
        catalog_entries_match(r.permissions@, catalog_actions(m)),
{
    let (label, description) = match m {
        PermissionModuleKey::Organization => ("Organizations", "Manage organizations and active organization context."),
        PermissionModuleKey::Product => ("Products", "Manage product catalog items."),
        PermissionModuleKey::Brand => ("Brands", "Manage product brand records."),
        PermissionModuleKey::Category => ("Categories", "Manage product category records."),
        PermissionModuleKey::Stock => ("Stock", "View and adjust inventory and POS stock."),
        PermissionModuleKey::User => ("Users", "Manage users and their memberships."),
        PermissionModuleKey::Role => ("Roles", "Manage role definitions and assigned permissions."),
        PermissionModuleKey::Pos => ("POS", "Operate POS menus and order workflows."),
        PermissionModuleKey::Bom => ("Bill of Materials", "Manage BOM recipes and production runs."),
        _ => ("", ""),
    };
    let mut permissions: Vec<PermissionActionCatalog> = Vec::new();
    match m {
        PermissionModuleKey::Organization => {
            permissions.push(catalog_action_entry(PermissionActionKey::Read));
            permissions.push(catalog_action_entry(PermissionActionKey::Create));
            permissions.push(catalog_action_entry(PermissionActionKey::Update));
            permissions.push(catalog_action_entry(PermissionActionKey::Delete));
            permissions.push(catalog_action_entry(PermissionActionKey::Select));
        },
        PermissionModuleKey::Product => {
            permissions.push(catalog_action_entry(PermissionActionKey::Read));
            permissions.push(catalog_action_entry(PermissionActionKey::Create));
            permissions.push(catalog_action_entry(PermissionActionKey::Update));
            permissions.push(catalog_action_entry(PermissionActionKey::Delete));
        },
        PermissionModuleKey::Brand => {
            permissions.push(catalog_action_entry(PermissionActionKey::Read));
            permissions.push(catalog_action_entry(PermissionActionKey::Create));
            permissions.push(catalog_action_entry(PermissionActionKey::Update));
            permissions.push(catalog_action_entry(PermissionActionKey::Delete));
        },
        PermissionModuleKey::Category => {
            permissions.push(catalog_action_entry(PermissionActionKey::Read));
            permissions.push(catalog_action_entry(PermissionActionKey::Create));
            permissions.push(catalog_action_entry(PermissionActionKey::Update));
            permissions.push(catalog_action_entry(PermissionActionKey::Delete));
        },
        PermissionModuleKey::Stock => {
            permissions.push(catalog_action_entry(PermissionActionKey::Read));
            permissions.push(catalog_action_entry(PermissionActionKey::Update));
        },
        PermissionModuleKey::User => {
            permissions.push(catalog_action_entry(PermissionActionKey::Read));
            permissions.push(catalog_action_entry(PermissionActionKey::Create));
            permissions.push(catalog_action_entry(PermissionActionKey::Update));
            permissions.push(catalog_action_entry(PermissionActionKey::Delete));
        },
        PermissionModuleKey::Role => {
            permissions.push(catalog_action_entry(PermissionActionKey::Read));
            permissions.push(catalog_action_entry(PermissionActionKey::Create));
            permissions.push(catalog_action_entry(PermissionActionKey::Update));
            permissions.push(catalog_action_entry(PermissionActionKey::Delete));
        },
        PermissionModuleKey::Pos => {
            permissions.push(catalog_action_entry(PermissionActionKey::Read));
            permissions.push(catalog_action_entry(PermissionActionKey::Create));
            permissions.push(catalog_action_entry(PermissionActionKey::Update));
        },
        PermissionModuleKey::Bom => {
            permissions.push(catalog_action_entry(PermissionActionKey::Read));
            permissions.push(catalog_action_entry(PermissionActionKey::Create));
            permissions.push(catalog_action_entry(PermissionActionKey::Update));
            permissions.push(catalog_action_entry(PermissionActionKey::Delete));
        },
        _ => {},
    }
    PermissionModuleCatalog { key: m.as_str(), label, description, permissions }
}

/// The user-interface catalogue of business permissions: one entry per business
/// module, in catalogue order, with its label, description and allowed actions.
pub fn business_permission_catalog() -> (r: Vec<PermissionModuleCatalog>)
    ensures
        r@.len() == 9,
        forall|i: int|
            0 <= i < 9 ==> {
                let m = catalog_module(i);
                &&& (#[trigger] r@[i]).key@ == module_name(m)
                &&& r@[i].label@ == module_label(m)
                &&& r@[i].description@ == module_description(m)
                &&& catalog_entries_match(r@[i].permissions@, catalog_actions(m))
            },
{
    let mut r: Vec<PermissionModuleCatalog> = Vec::new();
    r.push(catalog_module_entry(PermissionModuleKey::Organization));
    r.push(catalog_module_entry(PermissionModuleKey::Product));
    r.push(catalog_module_entry(PermissionModuleKey::Brand));
    r.push(catalog_module_entry(PermissionModuleKey::Category));
    r.push(catalog_module_entry(PermissionModuleKey::Stock));
    r.push(catalog_module_entry(PermissionModuleKey::User));
    r.push(catalog_module_entry(PermissionModuleKey::Role));
    r.push(catalog_module_entry(PermissionModuleKey::Pos));
    r.push(catalog_module_entry(PermissionModuleKey::Bom));
    r
}

/// Law: the business catalogue lists exactly the business permissions: a catalogue
/// entry's kind is business exactly when the catalogue lists its action for its module.
pub proof fn law_catalog_lists_business_permissions(i: int)
    requires
        0 <= i < 39,
    ensures
        known_row(i).kind == PermissionKind::Business <==> catalog_actions(known_row(i).module).contains(
            known_row(i).action,
        ),
{
    if i == 0 {
        assert(catalog_actions(known_row(i).module)[0] == known_row(i).action);
    }
    if i == 1 {
        assert(catalog_actions(known_row(i).module)[1] == known_row(i).action);
    }
    if i == 2 {
        assert(catalog_actions(known_row(i).module)[2] == known_row(i).action);
    }
    if i == 3 {
        assert(catalog_actions(known_row(i).module)[3] == known_row(i).action);
    }
    if i == 4 {
        assert(catalog_actions(known_row(i).module)[4] == known_row(i).action);
    }
    if i == 5 {
        assert(catalog_actions(known_row(i).module)[0] == known_row(i).action);
    }
    if i == 6 {
        assert(catalog_actions(known_row(i).module)[1] == known_row(i).action);
    }
    if i == 7 {
        assert(catalog_actions(known_row(i).module)[2] == known_row(i).action);
    }
    if i == 8 {
        assert(catalog_actions(known_row(i).module)[3] == known_row(i).action);
    }
    if i == 9 {
        assert(catalog_actions(known_row(i).module)[0] == known_row(i).action);
    }
    if i == 10 {
        assert(catalog_actions(known_row(i).module)[1] == known_row(i).action);
    }
    if i == 11 {
        assert(catalog_actions(known_row(i).module)[2] == known_row(i).action);
    }
    if i == 12 {
        assert(catalog_actions(known_row(i).module)[3] == known_row(i).action);
    }
    if i == 13 {
        assert(catalog_actions(known_row(i).module)[0] == known_row(i).action);
    }
    if i == 14 {
        assert(catalog_actions(known_row(i).module)[1] == known_row(i).action);
    }
    if i == 15 {
        assert(catalog_actions(known_row(i).module)[2] == known_row(i).action);
    }
    if i == 16 {
        assert(catalog_actions(known_row(i).module)[3] == known_row(i).action);
    }
    if i == 17 {
        assert(catalog_actions(known_row(i).module)[0] == known_row(i).action);
    }
    if i == 18 {
        assert(catalog_actions(known_row(i).module)[1] == known_row(i).action);
    }
    if i == 19 {
        assert(catalog_actions(known_row(i).module)[0] == known_row(i).action);
    }
    if i == 20 {
        assert(catalog_actions(known_row(i).module)[1] == known_row(i).action);
    }
    if i == 21 {
        assert(catalog_actions(known_row(i).module)[2] == known_row(i).action);
    }
    if i == 22 {
        assert(catalog_actions(known_row(i).module)[3] == known_row(i).action);
    }
    if i == 23 {
        assert(catalog_actions(known_row(i).module)[0] == known_row(i).action);
    }
    if i == 24 {
        assert(catalog_actions(known_row(i).module)[1] == known_row(i).action);
    }
    if i == 25 {
        assert(catalog_actions(known_row(i).module)[2] == known_row(i).action);
    }
    if i == 26 {
        assert(catalog_actions(known_row(i).module)[3] == known_row(i).action);
    }
    if i == 27 {
        assert(catalog_actions(known_row(i).module)[0] == known_row(i).action);
    }
    if i == 28 {
        assert(catalog_actions(known_row(i).module)[1] == known_row(i).action);
    }
    if i == 29 {
        assert(catalog_actions(known_row(i).module)[2] == known_row(i).action);
    }
    if i == 30 {
        assert(catalog_actions(known_row(i).module)[0] == known_row(i).action);
    }
    if i == 31 {
        assert(catalog_actions(known_row(i).module)[1] == known_row(i).action);
    }
    if i == 32 {
        assert(catalog_actions(known_row(i).module)[2] == known_row(i).action);
    }
    if i == 33 {
        assert(catalog_actions(known_row(i).module)[3] == known_row(i).action);
    }
}

// ------------------------------------------------------------------------
// Business validation, full permission objects
// ------------------------------------------------------------------------

/// Every one of the first `n` actions is a string naming a pair the catalogue
/// holds with an accepted kind.
pub open spec fn actions_ok(m: Seq<char>, acts: ActionsView, e: Option<PermissionKind>, n: int) -> bool {
    forall|j: int| 0 <= j < n ==> match #[trigger] acts[j] {
        Some(a) => pair_allowed(m, a, e),
        None => false,
    }
}

/// Every one of the first `n` members maps to an array of accepted actions.
pub open spec fn entries_ok(es: Seq<EntryView>, e: Option<PermissionKind>, n: int) -> bool {
    forall|i: int| 0 <= i < n ==> match (#[trigger] es[i]).1 {
        Some(acts) => actions_ok(es[i].0, acts, e, acts.len() as int),
        None => false,
    }
}

proof fn lemma_actions_violation_none(m: Seq<char>, acts: ActionsView, e: Option<PermissionKind>, n: int)
    requires
        0 <= n <= acts.len(),
    ensures
        actions_violation(m, acts, e, n) is None <==> actions_ok(m, acts, e, n),
    decreases n,
{
    if n > 0 {
        lemma_actions_violation_none(m, acts, e, n - 1);
        if actions_ok(m, acts, e, n) {
            assert(actions_ok(m, acts, e, n - 1));
            let x = acts[n - 1];
        }
        if actions_violation(m, acts, e, n) is None {
            assert forall|j: int| 0 <= j < n implies match #[trigger] acts[j] {
                Some(a) => pair_allowed(m, a, e),
                None => false,
            } by {
                if j < n - 1 {
                    assert(actions_ok(m, acts, e, n - 1));
                }
            }
        }
    }
}

proof fn lemma_entries_violation_none(es: Seq<EntryView>, e: Option<PermissionKind>, n: int)
    requires
        0 <= n <= es.len(),
    ensures
        entries_violation(es, e, n) is None <==> entries_ok(es, e, n),
    decreases n,
{
    if n > 0 {
        lemma_entries_violation_none(es, e, n - 1);
        if let Some(acts) = es[n - 1].1 {
            lemma_actions_violation_none(es[n - 1].0, acts, e, acts.len() as int);
        }
        if entries_ok(es, e, n) {
            assert(entries_ok(es, e, n - 1));
            let x = es[n - 1];
        }
        if entries_violation(es, e, n) is None {
            assert forall|i: int| 0 <= i < n implies match (#[trigger] es[i]).1 {
                Some(acts) => actions_ok(es[i].0, acts, e, acts.len() as int),
                None => false,
            } by {
                if i < n - 1 {
                    assert(entries_ok(es, e, n - 1));
                }
            }
        }
    }
}

/// Every string action of a member names a business pair of the catalogue.
pub open spec fn entry_business_only(e: EntryView) -> bool {
    match e.1 {
        None => true,
        Some(acts) => forall|j: int| 0 <= j < acts.len() ==> match #[trigger] acts[j] {
            Some(a) => pair_allowed(e.0, a, Some(PermissionKind::Business)),
            None => true,
        },
    }
}

/// Every `module:action` pair of a permissions value is a business pair of the
/// catalogue.
pub open spec fn business_pairs_only(p: PermissionsView) -> bool {
    match p {
        None => true,
        Some(es) => forall|i: int| 0 <= i < es.len() ==> entry_business_only(#[trigger] es[i]),
    }
}

proof fn lemma_business_pair_is_known(m: Seq<char>, a: Seq<char>)
    requires
        pair_allowed(m, a, Some(PermissionKind::Business)),
    ensures
        pair_allowed(m, a, None),
{
    let i = choose|i: int|
        0 <= i < 39 && module_name((#[trigger] known_row(i)).module) == m && action_name(
            known_row(i).action,
        ) == a && kind_matches(Some(PermissionKind::Business), known_row(i).kind);
    assert(kind_matches(None, known_row(i).kind));
}

/// Law: a permissions value passes the business check exactly when it passes
/// the general check and every pair in it is a business pair of the
/// catalogue.
pub proof fn law_business_valid_iff_valid_and_business(p: PermissionsView)
    ensures
        permissions_violation(p, Some(PermissionKind::Business)) is None <==> (permissions_violation(p, None) is None
            && business_pairs_only(p)),
{
    if let Some(es) = p {
        let n = es.len() as int;
        lemma_entries_violation_none(es, Some(PermissionKind::Business), n);
        lemma_entries_violation_none(es, None, n);
        if entries_ok(es, Some(PermissionKind::Business), n) {
            assert forall|i: int| 0 <= i < n implies match (#[trigger] es[i]).1 {
                Some(acts) => actions_ok(es[i].0, acts, None, acts.len() as int),
                None => false,
            } by {
                if let Some(acts) = es[i].1 {
                    assert forall|j: int| 0 <= j < acts.len() implies match #[trigger] acts[j] {
                        Some(a) => pair_allowed(es[i].0, a, None),
                        None => false,
                    } by {
                        assert(actions_ok(es[i].0, acts, Some(PermissionKind::Business), acts.len() as int));
                        if let Some(a) = acts[j] {
                            lemma_business_pair_is_known(es[i].0, a);
                        }
                    }
                }
            }
            assert forall|i: int| 0 <= i < n implies entry_business_only(#[trigger] es[i]) by {
                if let Some(acts) = es[i].1 {
                    assert(actions_ok(es[i].0, acts, Some(PermissionKind::Business), acts.len() as int));
                }
            }
        }
        if entries_ok(es, None, n) && business_pairs_only(p) {
            assert forall|i: int| 0 <= i < n implies match (#[trigger] es[i]).1 {
                Some(acts) => actions_ok(es[i].0, acts, Some(PermissionKind::Business), acts.len() as int),
                None => false,
            } by {
                assert(entry_business_only(es[i]));
                if let Some(acts) = es[i].1 {
                    assert(actions_ok(es[i].0, acts, None, acts.len() as int));
                    assert forall|j: int| 0 <= j < acts.len() implies match #[trigger] acts[j] {
                        Some(a) => pair_allowed(es[i].0, a, Some(PermissionKind::Business)),
                        None => false,
                    } by {
                        let x = acts[j];
                    }
                }
            }
        }
    }
}

proof fn lemma_kind_entries_nonempty(kinds: PermissionKindSet, n: int, k: int)
    requires
        0 <= n <= 11,
        0 <= k < kind_entries(kinds, n).len(),
    ensures
        kind_entries(kinds, n)[k].1 matches Some(acts) && acts.len() > 0,
    decreases n,
{
    let rest = kind_entries(kinds, n - 1);
    if k < rest.len() {
        lemma_kind_entries_nonempty(kinds, n - 1, k);
        if module_actions(sorted_module(n - 1), kinds, 39).len() > 0 {
            assert(kind_entries(kinds, n)[k] == rest[k]);
        }
    }
}

proof fn lemma_kind_bits()
    ensures
        kind_set_has(business_kinds(), PermissionKind::Business),
        !kind_set_has(business_kinds(), PermissionKind::Technical),
        kind_set_has(all_kinds(), PermissionKind::Business),
        kind_set_has(all_kinds(), PermissionKind::Technical),
{
    assert(1u8 & 1u8 == 1u8) by (bit_vector);
    assert(1u8 & 2u8 == 0u8) by (bit_vector);
    assert(3u8 & 1u8 == 1u8) by (bit_vector);
    assert(3u8 & 2u8 == 2u8) by (bit_vector);
}

proof fn lemma_catalogue_counts()
    ensures
        scopes_of_kinds(business_kinds(), 39).len() == 34,
        scopes_of_kinds(all_kinds(), 39).len() == 39,
        module_actions(PermissionModuleKey::Db, business_kinds(), 39).len() == 0,
        module_actions(PermissionModuleKey::Zenoh, business_kinds(), 39).len() == 0,
        module_actions(PermissionModuleKey::Db, all_kinds(), 39).len() > 0,
{
    lemma_kind_bits();
    assert(scopes_of_kinds(business_kinds(), 0).len() == 0);
    assert(scopes_of_kinds(all_kinds(), 0).len() == 0);
    assert(module_actions(PermissionModuleKey::Db, business_kinds(), 0).len() == 0);
    assert(module_actions(PermissionModuleKey::Zenoh, business_kinds(), 0).len() == 0);
    assert(module_actions(PermissionModuleKey::Db, all_kinds(), 0).len() == 0);
    assert(scopes_of_kinds(business_kinds(), 1).len() == 1);
    assert(scopes_of_kinds(all_kinds(), 1).len() == 1);
    assert(scopes_of_kinds(business_kinds(), 2).len() == 2);
    assert(scopes_of_kinds(all_kinds(), 2).len() == 2);
    assert(scopes_of_kinds(business_kinds(), 3).len() == 3);
    assert(scopes_of_kinds(all_kinds(), 3).len() == 3);
    assert(scopes_of_kinds(business_kinds(), 4).len() == 4);
    assert(scopes_of_kinds(all_kinds(), 4).len() == 4);
    assert(scopes_of_kinds(business_kinds(), 5).len() == 5);
    assert(scopes_of_kinds(all_kinds(), 5).len() == 5);
    assert(scopes_of_kinds(business_kinds(), 6).len() == 6);
    assert(scopes_of_kinds(all_kinds(), 6).len() == 6);
    assert(scopes_of_kinds(business_kinds(), 7).len() == 7);
    assert(scopes_of_kinds(all_kinds(), 7).len() == 7);
    assert(scopes_of_kinds(business_kinds(), 8).len() == 8);
    assert(scopes_of_kinds(all_kinds(), 8).len() == 8);
    assert(scopes_of_kinds(business_kinds(), 9).len() == 9);
    assert(scopes_of_kinds(all_kinds(), 9).len() == 9);
    assert(scopes_of_kinds(business_kinds(), 10).len() == 10);
    assert(scopes_of_kinds(all_kinds(), 10).len() == 10);
    assert(scopes_of_kinds(business_kinds(), 11).len() == 11);
    assert(scopes_of_kinds(all_kinds(), 11).len() == 11);
    assert(scopes_of_kinds(business_kinds(), 12).len() == 12);
    assert(scopes_of_kinds(all_kinds(), 12).len() == 12);
    assert(scopes_of_kinds(business_kinds(), 13).len() == 12);
    assert(scopes_of_kinds(all_kinds(), 13).len() == 13);
    assert(scopes_of_kinds(business_kinds(), 14).len() == 12);
    assert(scopes_of_kinds(all_kinds(), 14).len() == 14);
    assert(scopes_of_kinds(business_kinds(), 15).len() == 12);
    assert(scopes_of_kinds(all_kinds(), 15).len() == 15);
    assert(scopes_of_kinds(business_kinds(), 16).len() == 13);
    assert(scopes_of_kinds(all_kinds(), 16).len() == 16);
    assert(scopes_of_kinds(business_kinds(), 17).len() == 14);
    assert(scopes_of_kinds(all_kinds(), 17).len() == 17);
    assert(scopes_of_kinds(business_kinds(), 18).len() == 15);
    assert(scopes_of_kinds(all_kinds(), 18).len() == 18);
    assert(scopes_of_kinds(business_kinds(), 19).len() == 16);
    assert(scopes_of_kinds(all_kinds(), 19).len() == 19);
    assert(scopes_of_kinds(business_kinds(), 20).len() == 17);
    assert(scopes_of_kinds(all_kinds(), 20).len() == 20);
    assert(scopes_of_kinds(business_kinds(), 21).len() == 18);
    assert(scopes_of_kinds(all_kinds(), 21).len() == 21);
    assert(scopes_of_kinds(business_kinds(), 22).len() == 19);
    assert(scopes_of_kinds(all_kinds(), 22).len() == 22);
    assert(scopes_of_kinds(business_kinds(), 23).len() == 20);
    assert(scopes_of_kinds(all_kinds(), 23).len() == 23);
    assert(scopes_of_kinds(business_kinds(), 24).len() == 21);
    assert(scopes_of_kinds(all_kinds(), 24).len() == 24);
    assert(scopes_of_kinds(business_kinds(), 25).len() == 22);
    assert(scopes_of_kinds(all_kinds(), 25).len() == 25);
    assert(scopes_of_kinds(business_kinds(), 26).len() == 23);
    assert(scopes_of_kinds(all_kinds(), 26).len() == 26);
    assert(scopes_of_kinds(business_kinds(), 27).len() == 24);
    assert(scopes_of_kinds(all_kinds(), 27).len() == 27);
    assert(scopes_of_kinds(business_kinds(), 28).len() == 25);
    assert(scopes_of_kinds(all_kinds(), 28).len() == 28);
    assert(scopes_of_kinds(business_kinds(), 29).len() == 26);
    assert(scopes_of_kinds(all_kinds(), 29).len() == 29);
    assert(scopes_of_kinds(business_kinds(), 30).len() == 27);
    assert(scopes_of_kinds(all_kinds(), 30).len() == 30);
    assert(scopes_of_kinds(business_kinds(), 31).len() == 28);
    assert(scopes_of_kinds(all_kinds(), 31).len() == 31);
    assert(scopes_of_kinds(business_kinds(), 32).len() == 29);
    assert(scopes_of_kinds(all_kinds(), 32).len() == 32);
    assert(scopes_of_kinds(business_kinds(), 33).len() == 30);
    assert(scopes_of_kinds(all_kinds(), 33).len() == 33);
    assert(scopes_of_kinds(business_kinds(), 34).len() == 31);
    assert(scopes_of_kinds(all_kinds(), 34).len() == 34);
    assert(scopes_of_kinds(business_kinds(), 35).len() == 32);
    assert(scopes_of_kinds(all_kinds(), 35).len() == 35);
    assert(scopes_of_kinds(business_kinds(), 36).len() == 33);
    assert(scopes_of_kinds(all_kinds(), 36).len() == 36);
    assert(scopes_of_kinds(business_kinds(), 37).len() == 34);
    assert(scopes_of_kinds(all_kinds(), 37).len() == 37);
    assert(scopes_of_kinds(business_kinds(), 38).len() == 34);
    assert(scopes_of_kinds(all_kinds(), 38).len() == 38);
    assert(scopes_of_kinds(business_kinds(), 39).len() == 34);
    assert(scopes_of_kinds(all_kinds(), 39).len() == 39);
    assert(module_actions(PermissionModuleKey::Db, business_kinds(), 1).len() == 0);
    assert(module_actions(PermissionModuleKey::Db, business_kinds(), 2).len() == 0);
    assert(module_actions(PermissionModuleKey::Db, business_kinds(), 3).len() == 0);
    assert(module_actions(PermissionModuleKey::Db, business_kinds(), 4).len() == 0);
    assert(module_actions(PermissionModuleKey::Db, business_kinds(), 5).len() == 0);
    assert(module_actions(PermissionModuleKey::Db, business_kinds(), 6).len() == 0);
    assert(module_actions(PermissionModuleKey::Db, business_kinds(), 7).len() == 0);
    assert(module_actions(PermissionModuleKey::Db, business_kinds(), 8).len() == 0);
    assert(module_actions(PermissionModuleKey::Db, business_kinds(), 9).len() == 0);
    assert(module_actions(PermissionModuleKey::Db, business_kinds(), 10).len() == 0);
    assert(module_actions(PermissionModuleKey::Db, business_kinds(), 11).len() == 0);
    assert(module_actions(PermissionModuleKey::Db, business_kinds(), 12).len() == 0);
    assert(module_actions(PermissionModuleKey::Db, business_kinds(), 13).len() == 0);
    assert(module_actions(PermissionModuleKey::Db, business_kinds(), 14).len() == 0);
    assert(module_actions(PermissionModuleKey::Db, business_kinds(), 15).len() == 0);
    assert(module_actions(PermissionModuleKey::Db, business_kinds(), 16).len() == 0);
    assert(module_actions(PermissionModuleKey::Db, business_kinds(), 17).len() == 0);
    assert(module_actions(PermissionModuleKey::Db, business_kinds(), 18).len() == 0);
    assert(module_actions(PermissionModuleKey::Db, business_kinds(), 19).len() == 0);
    assert(module_actions(PermissionModuleKey::Db, business_kinds(), 20).len() == 0);
    assert(module_actions(PermissionModuleKey::Db, business_kinds(), 21).len() == 0);
    assert(module_actions(PermissionModuleKey::Db, business_kinds(), 22).len() == 0);
    assert(module_actions(PermissionModuleKey::Db, business_kinds(), 23).len() == 0);
    assert(module_actions(PermissionModuleKey::Db, business_kinds(), 24).len() == 0);
    assert(module_actions(PermissionModuleKey::Db, business_kinds(), 25).len() == 0);
    assert(module_actions(PermissionModuleKey::Db, business_kinds(), 26).len() == 0);
    assert(module_actions(PermissionModuleKey::Db, business_kinds(), 27).len() == 0);
    assert(module_actions(PermissionModuleKey::Db, business_kinds(), 28).len() == 0);
    assert(module_actions(PermissionModuleKey::Db, business_kinds(), 29).len() == 0);
    assert(module_actions(PermissionModuleKey::Db, business_kinds(), 30).len() == 0);
    assert(module_actions(PermissionModuleKey::Db, business_kinds(), 31).len() == 0);
    assert(module_actions(PermissionModuleKey::Db, business_kinds(), 32).len() == 0);
    assert(module_actions(PermissionModuleKey::Db, business_kinds(), 33).len() == 0);
    assert(module_actions(PermissionModuleKey::Db, business_kinds(), 34).len() == 0);
    assert(module_actions(PermissionModuleKey::Db, business_kinds(), 35).len() == 0);
    assert(module_actions(PermissionModuleKey::Db, business_kinds(), 36).len() == 0);
    assert(module_actions(PermissionModuleKey::Db, business_kinds(), 37).len() == 0);
    assert(module_actions(PermissionModuleKey::Db, business_kinds(), 38).len() == 0);
    assert(module_actions(PermissionModuleKey::Db, business_kinds(), 39).len() == 0);
    assert(module_actions(PermissionModuleKey::Zenoh, business_kinds(), 1).len() == 0);
    assert(module_actions(PermissionModuleKey::Zenoh, business_kinds(), 2).len() == 0);
    assert(module_actions(PermissionModuleKey::Zenoh, business_kinds(), 3).len() == 0);
    assert(module_actions(PermissionModuleKey::Zenoh, business_kinds(), 4).len() == 0);
    assert(module_actions(PermissionModuleKey::Zenoh, business_kinds(), 5).len() == 0);
    assert(module_actions(PermissionModuleKey::Zenoh, business_kinds(), 6).len() == 0);
    assert(module_actions(PermissionModuleKey::Zenoh, business_kinds(), 7).len() == 0);
    assert(module_actions(PermissionModuleKey::Zenoh, business_kinds(), 8).len() == 0);
    assert(module_actions(PermissionModuleKey::Zenoh, business_kinds(), 9).len() == 0);
    assert(module_actions(PermissionModuleKey::Zenoh, business_kinds(), 10).len() == 0);
    assert(module_actions(PermissionModuleKey::Zenoh, business_kinds(), 11).len() == 0);
    assert(module_actions(PermissionModuleKey::Zenoh, business_kinds(), 12).len() == 0);
    assert(module_actions(PermissionModuleKey::Zenoh, business_kinds(), 13).len() == 0);
    assert(module_actions(PermissionModuleKey::Zenoh, business_kinds(), 14).len() == 0);
    assert(module_actions(PermissionModuleKey::Zenoh, business_kinds(), 15).len() == 0);
    assert(module_actions(PermissionModuleKey::Zenoh, business_kinds(), 16).len() == 0);
    assert(module_actions(PermissionModuleKey::Zenoh, business_kinds(), 17).len() == 0);
    assert(module_actions(PermissionModuleKey::Zenoh, business_kinds(), 18).len() == 0);
    assert(module_actions(PermissionModuleKey::Zenoh, business_kinds(), 19).len() == 0);
    assert(module_actions(PermissionModuleKey::Zenoh, business_kinds(), 20).len() == 0);
    assert(module_actions(PermissionModuleKey::Zenoh, business_kinds(), 21).len() == 0);
    assert(module_actions(PermissionModuleKey::Zenoh, business_kinds(), 22).len() == 0);
    assert(module_actions(PermissionModuleKey::Zenoh, business_kinds(), 23).len() == 0);
    assert(module_actions(PermissionModuleKey::Zenoh, business_kinds(), 24).len() == 0);
    assert(module_actions(PermissionModuleKey::Zenoh, business_kinds(), 25).len() == 0);
    assert(module_actions(PermissionModuleKey::Zenoh, business_kinds(), 26).len() == 0);
    assert(module_actions(PermissionModuleKey::Zenoh, business_kinds(), 27).len() == 0);
    assert(module_actions(PermissionModuleKey::Zenoh, business_kinds(), 28).len() == 0);
    assert(module_actions(PermissionModuleKey::Zenoh, business_kinds(), 29).len() == 0);
    assert(module_actions(PermissionModuleKey::Zenoh, business_kinds(), 30).len() == 0);
    assert(module_actions(PermissionModuleKey::Zenoh, business_kinds(), 31).len() == 0);
    assert(module_actions(PermissionModuleKey::Zenoh, business_kinds(), 32).len() == 0);
    assert(module_actions(PermissionModuleKey::Zenoh, business_kinds(), 33).len() == 0);
    assert(module_actions(PermissionModuleKey::Zenoh, business_kinds(), 34).len() == 0);
    assert(module_actions(PermissionModuleKey::Zenoh, business_kinds(), 35).len() == 0);
    assert(module_actions(PermissionModuleKey::Zenoh, business_kinds(), 36).len() == 0);
    assert(module_actions(PermissionModuleKey::Zenoh, business_kinds(), 37).len() == 0);
    assert(module_actions(PermissionModuleKey::Zenoh, business_kinds(), 38).len() == 0);
    assert(module_actions(PermissionModuleKey::Zenoh, business_kinds(), 39).len() == 0);
    assert(module_actions(PermissionModuleKey::Db, all_kinds(), 1).len() == 0);
    assert(module_actions(PermissionModuleKey::Db, all_kinds(), 2).len() == 0);
    assert(module_actions(PermissionModuleKey::Db, all_kinds(), 3).len() == 0);
    assert(module_actions(PermissionModuleKey::Db, all_kinds(), 4).len() == 0);
    assert(module_actions(PermissionModuleKey::Db, all_kinds(), 5).len() == 0);
    assert(module_actions(PermissionModuleKey::Db, all_kinds(), 6).len() == 0);
    assert(module_actions(PermissionModuleKey::Db, all_kinds(), 7).len() == 0);
    assert(module_actions(PermissionModuleKey::Db, all_kinds(), 8).len() == 0);
    assert(module_actions(PermissionModuleKey::Db, all_kinds(), 9).len() == 0);
    assert(module_actions(PermissionModuleKey::Db, all_kinds(), 10).len() == 0);
    assert(module_actions(PermissionModuleKey::Db, all_kinds(), 11).len() == 0);
    assert(module_actions(PermissionModuleKey::Db, all_kinds(), 12).len() == 0);
    assert(module_actions(PermissionModuleKey::Db, all_kinds(), 13).len() == 0);
    assert(module_actions(PermissionModuleKey::Db, all_kinds(), 14).len() == 0);
    assert(module_actions(PermissionModuleKey::Db, all_kinds(), 15).len() == 0);
    assert(module_actions(PermissionModuleKey::Db, all_kinds(), 16).len() == 0);
    assert(module_actions(PermissionModuleKey::Db, all_kinds(), 17).len() == 0);
    assert(module_actions(PermissionModuleKey::Db, all_kinds(), 18).len() == 0);
    assert(module_actions(PermissionModuleKey::Db, all_kinds(), 19).len() == 0);
    assert(module_actions(PermissionModuleKey::Db, all_kinds(), 20).len() == 0);
    assert(module_actions(PermissionModuleKey::Db, all_kinds(), 21).len() == 0);
    assert(module_actions(PermissionModuleKey::Db, all_kinds(), 22).len() == 0);
    assert(module_actions(PermissionModuleKey::Db, all_kinds(), 23).len() == 0);
    assert(module_actions(PermissionModuleKey::Db, all_kinds(), 24).len() == 0);
    assert(module_actions(PermissionModuleKey::Db, all_kinds(), 25).len() == 0);
    assert(module_actions(PermissionModuleKey::Db, all_kinds(), 26).len() == 0);
    assert(module_actions(PermissionModuleKey::Db, all_kinds(), 27).len() == 0);
    assert(module_actions(PermissionModuleKey::Db, all_kinds(), 28).len() == 0);
    assert(module_actions(PermissionModuleKey::Db, all_kinds(), 29).len() == 0);
    assert(module_actions(PermissionModuleKey::Db, all_kinds(), 30).len() == 0);
    assert(module_actions(PermissionModuleKey::Db, all_kinds(), 31).len() == 0);
    assert(module_actions(PermissionModuleKey::Db, all_kinds(), 32).len() == 0);
    assert(module_actions(PermissionModuleKey::Db, all_kinds(), 33).len() == 0);
    assert(module_actions(PermissionModuleKey::Db, all_kinds(), 34).len() == 0);
    assert(module_actions(PermissionModuleKey::Db, all_kinds(), 35).len() == 1);
    assert(module_actions(PermissionModuleKey::Db, all_kinds(), 36).len() == 2);
    assert(module_actions(PermissionModuleKey::Db, all_kinds(), 37).len() == 3);
    assert(module_actions(PermissionModuleKey::Db, all_kinds(), 38).len() == 3);
    assert(module_actions(PermissionModuleKey::Db, all_kinds(), 39).len() == 3);
}

proof fn lemma_db_rows_are_technical(i: int)
    requires
        0 <= i < 39,
        known_row(i).module == PermissionModuleKey::Db,
    ensures
        known_row(i).kind == PermissionKind::Technical,
{
}

/// Law: the full business permission object holds no `db` or `zenoh` member,
/// passes the business check, and normalizes to exactly the canonical scopes
/// of the business catalogue entries, in order: 34 scope texts.
pub proof fn law_full_business_permissions_are_the_business_scopes()
    ensures
        forall|k: int|
            0 <= k < kind_entries(business_kinds(), 11).len() ==> (#[trigger] kind_entries(business_kinds(), 11)[k]).0
                != module_name(PermissionModuleKey::Db) && kind_entries(business_kinds(), 11)[k].0
                != module_name(PermissionModuleKey::Zenoh),
        permissions_violation(permissions_for_kinds(business_kinds()), Some(PermissionKind::Business)) is None,
        normalized_scopes(permissions_for_kinds(business_kinds())) == scopes_of_kinds(business_kinds(), 39),
        normalized_scopes(permissions_for_kinds(business_kinds())).len() == 34,
{
    lemma_catalogue_counts();
    law_full_business_and_system_permissions_validate();
    law_full_permissions_normalize_to_their_kinds(business_kinds());
    assert forall|k: int| 0 <= k < kind_entries(business_kinds(), 11).len() implies (#[trigger] kind_entries(
        business_kinds(),
        11,
    )[k]).0 != module_name(PermissionModuleKey::Db) && kind_entries(business_kinds(), 11)[k].0
        != module_name(PermissionModuleKey::Zenoh) by {
        lemma_kind_entries_sound(business_kinds(), 11, k);
        lemma_kind_entries_nonempty(business_kinds(), 11, k);
        let mm = choose|mm: PermissionModuleKey|
            #![trigger module_actions(mm, business_kinds(), 39)]
            kind_entries(business_kinds(), 11)[k] == (module_name(mm), Some(module_actions(mm, business_kinds(), 39)));
        if module_name(mm) == module_name(PermissionModuleKey::Db) {
            lemma_module_name_injective(mm, PermissionModuleKey::Db);
        }
        if module_name(mm) == module_name(PermissionModuleKey::Zenoh) {
            lemma_module_name_injective(mm, PermissionModuleKey::Zenoh);
        }
    }
}

/// Law: the full system permission object passes the general check but is
/// refused by the business check, and normalizes to the canonical scopes of
/// every catalogue entry, in order: all 39 scope texts.
pub proof fn law_full_system_permissions_are_every_scope()
    ensures
        permissions_violation(permissions_for_kinds(all_kinds()), None) is None,
        permissions_violation(permissions_for_kinds(all_kinds()), Some(PermissionKind::Business)) is Some,
        normalized_scopes(permissions_for_kinds(all_kinds())) == scopes_of_kinds(all_kinds(), 39),
        normalized_scopes(permissions_for_kinds(all_kinds())).len() == 39,
{
    lemma_catalogue_counts();
    law_full_business_and_system_permissions_validate();
    law_full_permissions_normalize_to_their_kinds(all_kinds());
    law_business_valid_iff_valid_and_business(permissions_for_kinds(all_kinds()));
    let db = PermissionModuleKey::Db;
    let acts = module_actions(db, all_kinds(), 39);
    lemma_sorted_module_index(db);
    lemma_kind_entries_complete(all_kinds(), 11, db);
    let es = kind_entries(all_kinds(), 11);
    let k = choose|k: int| 0 <= k < es.len() && #[trigger] es[k] == (module_name(db), Some(acts));
    lemma_module_actions_sound(db, all_kinds(), 39, 0);
    let i = choose|i: int|
        0 <= i < 39 && (#[trigger] known_row(i)).module == db && kind_set_has(all_kinds(), known_row(i).kind)
            && acts[0] == Some(action_name(known_row(i).action));
    let a = action_name(known_row(i).action);
    if pair_allowed(module_name(db), a, Some(PermissionKind::Business)) {
        let i2 = choose|i2: int|
            0 <= i2 < 39 && module_name((#[trigger] known_row(i2)).module) == module_name(db) && action_name(
                known_row(i2).action,
            ) == a && kind_matches(Some(PermissionKind::Business), known_row(i2).kind);
        lemma_module_name_injective(known_row(i2).module, db);
        lemma_db_rows_are_technical(i2);
    }
    assert(!entry_business_only(es[k]));
}

} // verus!
