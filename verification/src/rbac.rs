//! Roles and the scopes they grant, with the canonical scope texts.
use vstd::prelude::*;
use vstd::string::*;
use crate::permission::{
    canonical_scope, known_permission, known_row, scope_text, KnownPermission, PermissionActionKey,
    PermissionKind, PermissionModuleKey, is_known_scope_text,
};

verus! {

/// All roles of the permission system.
#[derive(Debug, Clone, Copy, PartialEq, Eq, Hash, Structural)]
pub enum Role {
    /// Full access to all resources and admin operations.
    Admin,
    /// Can read and write entities but cannot delete or manage users.
    Editor,
    /// Read-only access to entities and search.
    Viewer,
    /// Internal service-to-service role (planets only).
    Service,
}

/// The lower-case name of a role.
pub open spec fn role_text(r: Role) -> Seq<char> {
    match r {
        Role::Admin => "admin"@,
        Role::Editor => "editor"@,
        Role::Viewer => "viewer"@,
        Role::Service => "service"@,
    }
}

impl Role {
    /// The role's lower-case name, as its text form prints it.
    pub fn to_string(&self) -> (r: String)
        ensures
            r@ == role_text(*self),
    {
        let s = match self {
            Role::Admin => "admin",
            Role::Editor => "editor",
            Role::Viewer => "viewer",
            Role::Service => "service",
        };
        String::from_str(s)
    }
}

/// All permission scopes, in catalogue order.
#[derive(Debug, Clone, Copy, PartialEq, Eq, Hash, Structural)]
pub enum Scope {
    /// Read organization records.
    OrganizationRead,
    /// Create organization records.
    OrganizationCreate,
    /// Update organization records.
    OrganizationUpdate,
    /// Delete organization records.
    OrganizationDelete,
    /// Select an active organization context.
    OrganizationSelect,
    /// Read product records.
    ProductRead,
    /// Create product records.
    ProductCreate,
    /// Update product records.
    ProductUpdate,
    /// Delete product records.
    ProductDelete,
    /// Read brand records.
    BrandRead,
    /// Create brand records.
    BrandCreate,
    /// Update brand records.
    BrandUpdate,
    /// Delete brand records.
    BrandDelete,
    /// Read category records.
    CategoryRead,
    /// Create category records.
    CategoryCreate,
    /// Update category records.
    CategoryUpdate,
    /// Delete category records.
    CategoryDelete,
    /// Read stock records.
    StockRead,
    /// Update stock records.
    StockUpdate,
    /// Read user accounts.
    UserRead,
    /// Create user accounts.
    UserCreate,
    /// Update user accounts.
    UserUpdate,
    /// Delete user accounts.
    UserDelete,
    /// Read role definitions.
    RoleRead,
    /// Create role definitions.
    RoleCreate,
    /// Update role definitions.
    RoleUpdate,
    /// Delete role definitions.
    RoleDelete,
    /// Read POS menus and orders.
    PosRead,
    /// Create POS orders.
    PosCreate,
    /// Update POS orders.
    PosUpdate,
    /// Read BOM records.
    BomRead,
    /// Create BOM records.
    BomCreate,
    /// Update BOM records.
    BomUpdate,
    /// Delete BOM records.
    BomDelete,
    /// Read from the database (service only).
    DbRead,
    /// Write to the database (service only).
    DbWrite,
    /// Database admin operations (admin only).
    DbAdmin,
    /// Publish messages to Zenoh topics.
    ZenohPublish,
    /// Subscribe to Zenoh topics.
    ZenohSubscribe,
}

/// The catalogue position of a scope.
pub open spec fn scope_index(s: Scope) -> int {
    match s {
        Scope::OrganizationRead => 0,
        Scope::OrganizationCreate => 1,
        Scope::OrganizationUpdate => 2,
        Scope::OrganizationDelete => 3,
        Scope::OrganizationSelect => 4,
        Scope::ProductRead => 5,
        Scope::ProductCreate => 6,
        Scope::ProductUpdate => 7,
        Scope::ProductDelete => 8,
        Scope::BrandRead => 9,
        Scope::BrandCreate => 10,
        Scope::BrandUpdate => 11,
        Scope::BrandDelete => 12,
        Scope::CategoryRead => 13,
        Scope::CategoryCreate => 14,
        Scope::CategoryUpdate => 15,
        Scope::CategoryDelete => 16,
        Scope::StockRead => 17,
        Scope::StockUpdate => 18,
        Scope::UserRead => 19,
        Scope::UserCreate => 20,
        Scope::UserUpdate => 21,
        Scope::UserDelete => 22,
        Scope::RoleRead => 23,
        Scope::RoleCreate => 24,
        Scope::RoleUpdate => 25,
        Scope::RoleDelete => 26,
        Scope::PosRead => 27,
        Scope::PosCreate => 28,
        Scope::PosUpdate => 29,
        Scope::BomRead => 30,
        Scope::BomCreate => 31,
        Scope::BomUpdate => 32,
        Scope::BomDelete => 33,
        Scope::DbRead => 34,
        Scope::DbWrite => 35,
        Scope::DbAdmin => 36,
        Scope::ZenohPublish => 37,
        Scope::ZenohSubscribe => 38,
    }
}

/// The scope at a catalogue position (0 to 38).
pub open spec fn scope_at(i: int) -> Scope {
    if i == 0 {
        Scope::OrganizationRead
    } else if i == 1 {
        Scope::OrganizationCreate
    } else if i == 2 {
        Scope::OrganizationUpdate
    } else if i == 3 {
        Scope::OrganizationDelete
    } else if i == 4 {
        Scope::OrganizationSelect
    } else if i == 5 {
        Scope::ProductRead
    } else if i == 6 {
        Scope::ProductCreate
    } else if i == 7 {
        Scope::ProductUpdate
    } else if i == 8 {
        Scope::ProductDelete
    } else if i == 9 {
        Scope::BrandRead
    } else if i == 10 {
        Scope::BrandCreate
    } else if i == 11 {
        Scope::BrandUpdate
    } else if i == 12 {
        Scope::BrandDelete
    } else if i == 13 {
        Scope::CategoryRead
    } else if i == 14 {
        Scope::CategoryCreate
    } else if i == 15 {
        Scope::CategoryUpdate
    } else if i == 16 {
        Scope::CategoryDelete
    } else if i == 17 {
        Scope::StockRead
    } else if i == 18 {
        Scope::StockUpdate
    } else if i == 19 {
        Scope::UserRead
    } else if i == 20 {
        Scope::UserCreate
    } else if i == 21 {
        Scope::UserUpdate
    } else if i == 22 {
        Scope::UserDelete
    } else if i == 23 {
        Scope::RoleRead
    } else if i == 24 {
        Scope::RoleCreate
    } else if i == 25 {
        Scope::RoleUpdate
    } else if i == 26 {
        Scope::RoleDelete
    } else if i == 27 {
        Scope::PosRead
    } else if i == 28 {
        Scope::PosCreate
    } else if i == 29 {
        Scope::PosUpdate
    } else if i == 30 {
        Scope::BomRead
    } else if i == 31 {
        Scope::BomCreate
    } else if i == 32 {
        Scope::BomUpdate
    } else if i == 33 {
        Scope::BomDelete
    } else if i == 34 {
        Scope::DbRead
    } else if i == 35 {
        Scope::DbWrite
    } else if i == 36 {
        Scope::DbAdmin
    } else if i == 37 {
        Scope::ZenohPublish
    } else {
        Scope::ZenohSubscribe
    }
}

/// The catalogue entry (module, action, kind) that a scope stands for.
pub open spec fn scope_permission(s: Scope) -> KnownPermission {
    known_row(scope_index(s))
}

/// The canonical `module:action` text of a scope.
pub open spec fn scope_str(s: Scope) -> Seq<char> {
    scope_text(scope_permission(s))
}

/// Every scope sits at its own catalogue position, and each position holds one scope.
pub proof fn lemma_scope_index(s: Scope)
    ensures
        0 <= scope_index(s) < 39,
        scope_at(scope_index(s)) == s,
{
}

impl Scope {
    /// The scope's catalogue position.
    pub fn index(&self) -> (r: usize)
        ensures
            r == scope_index(*self),
    {
        match self {
            Scope::OrganizationRead => 0,
            Scope::OrganizationCreate => 1,
            Scope::OrganizationUpdate => 2,
            Scope::OrganizationDelete => 3,
            Scope::OrganizationSelect => 4,
            Scope::ProductRead => 5,
            Scope::ProductCreate => 6,
            Scope::ProductUpdate => 7,
            Scope::ProductDelete => 8,
            Scope::BrandRead => 9,
            Scope::BrandCreate => 10,
            Scope::BrandUpdate => 11,
            Scope::BrandDelete => 12,
            Scope::CategoryRead => 13,
            Scope::CategoryCreate => 14,
            Scope::CategoryUpdate => 15,
            Scope::CategoryDelete => 16,
            Scope::StockRead => 17,
            Scope::StockUpdate => 18,
            Scope::UserRead => 19,
            Scope::UserCreate => 20,
            Scope::UserUpdate => 21,
            Scope::UserDelete => 22,
            Scope::RoleRead => 23,
            Scope::RoleCreate => 24,
            Scope::RoleUpdate => 25,
            Scope::RoleDelete => 26,
            Scope::PosRead => 27,
            Scope::PosCreate => 28,
            Scope::PosUpdate => 29,
            Scope::BomRead => 30,
            Scope::BomCreate => 31,
            Scope::BomUpdate => 32,
            Scope::BomDelete => 33,
            Scope::DbRead => 34,
            Scope::DbWrite => 35,
            Scope::DbAdmin => 36,
            Scope::ZenohPublish => 37,
            Scope::ZenohSubscribe => 38,
        }
    }

    /// The catalogue entry this scope stands for.
    pub fn permission(&self) -> (r: KnownPermission)
        ensures
            r == scope_permission(*self),
    {
        known_permission(self.index())
    }

    /// The canonical `module:action` text of the scope, as its text form prints it.
    pub fn to_string(&self) -> (r: String)
        ensures
            r@ == scope_str(*self),
    {
        canonical_scope(&self.permission())
    }
}

/// The scopes granted to a role, in the order the matrix lists them.
pub open spec fn role_scopes(role: Role) -> Seq<Scope> {
    match role {
        Role::Admin => Seq::new(39, |i: int| scope_at(i)),
        Role::Editor => seq![Scope::OrganizationRead, Scope::OrganizationSelect, Scope::ProductRead, Scope::ProductCreate, Scope::ProductUpdate, Scope::BrandRead, Scope::BrandCreate, Scope::BrandUpdate, Scope::CategoryRead, Scope::CategoryCreate, Scope::CategoryUpdate, Scope::StockRead, Scope::StockUpdate, Scope::PosRead, Scope::PosCreate, Scope::PosUpdate, Scope::BomRead, Scope::BomCreate, Scope::BomUpdate],
        Role::Viewer => seq![Scope::OrganizationRead, Scope::ProductRead, Scope::BrandRead, Scope::CategoryRead, Scope::StockRead, Scope::PosRead, Scope::BomRead],
        Role::Service => seq![Scope::DbRead, Scope::DbWrite, Scope::ZenohPublish, Scope::ZenohSubscribe],
    }
}

/// Returns the list of scopes allowed for a given role.
///
/// This matrix serves service-to-service tokens and internal defaults; user
/// tokens take their scopes from the stored role permissions instead.
pub fn allowed_scopes(role: &Role) -> (r: Vec<Scope>)
    ensures
        r@ == role_scopes(*role),
{
    match role {
        Role::Admin => {
            let mut v: Vec<Scope> = Vec::new();
            v.push(Scope::OrganizationRead);
            v.push(Scope::OrganizationCreate);
            v.push(Scope::OrganizationUpdate);
            v.push(Scope::OrganizationDelete);
            v.push(Scope::OrganizationSelect);
            v.push(Scope::ProductRead);
            v.push(Scope::ProductCreate);
            v.push(Scope::ProductUpdate);
            v.push(Scope::ProductDelete);
            v.push(Scope::BrandRead);
            v.push(Scope::BrandCreate);
            v.push(Scope::BrandUpdate);
            v.push(Scope::BrandDelete);
            v.push(Scope::CategoryRead);
            v.push(Scope::CategoryCreate);
            v.push(Scope::CategoryUpdate);
            v.push(Scope::CategoryDelete);
            v.push(Scope::StockRead);
            v.push(Scope::StockUpdate);
            v.push(Scope::UserRead);
            v.push(Scope::UserCreate);
            v.push(Scope::UserUpdate);
            v.push(Scope::UserDelete);
            v.push(Scope::RoleRead);
            v.push(Scope::RoleCreate);
            v.push(Scope::RoleUpdate);
            v.push(Scope::RoleDelete);
            v.push(Scope::PosRead);
            v.push(Scope::PosCreate);
            v.push(Scope::PosUpdate);
            v.push(Scope::BomRead);
            v.push(Scope::BomCreate);
            v.push(Scope::BomUpdate);
            v.push(Scope::BomDelete);
            v.push(Scope::DbRead);
            v.push(Scope::DbWrite);
            v.push(Scope::DbAdmin);
            v.push(Scope::ZenohPublish);
            v.push(Scope::ZenohSubscribe);
            assert(v@ =~= role_scopes(Role::Admin));
            v
        },
        Role::Editor => {
            let mut v: Vec<Scope> = Vec::new();
            v.push(Scope::OrganizationRead);
            v.push(Scope::OrganizationSelect);
            v.push(Scope::ProductRead);
            v.push(Scope::ProductCreate);
            v.push(Scope::ProductUpdate);
            v.push(Scope::BrandRead);
            v.push(Scope::BrandCreate);
            v.push(Scope::BrandUpdate);
            v.push(Scope::CategoryRead);
            v.push(Scope::CategoryCreate);
            v.push(Scope::CategoryUpdate);
            v.push(Scope::StockRead);
            v.push(Scope::StockUpdate);
            v.push(Scope::PosRead);
            v.push(Scope::PosCreate);
            v.push(Scope::PosUpdate);
            v.push(Scope::BomRead);
            v.push(Scope::BomCreate);
            v.push(Scope::BomUpdate);
            assert(v@ =~= role_scopes(Role::Editor));
            v
        },
        Role::Viewer => {
            let mut v: Vec<Scope> = Vec::new();
            v.push(Scope::OrganizationRead);
            v.push(Scope::ProductRead);
            v.push(Scope::BrandRead);
            v.push(Scope::CategoryRead);
            v.push(Scope::StockRead);
            v.push(Scope::PosRead);
            v.push(Scope::BomRead);
            assert(v@ =~= role_scopes(Role::Viewer));
            v
        },
        Role::Service => {
            let mut v: Vec<Scope> = Vec::new();
            v.push(Scope::DbRead);
            v.push(Scope::DbWrite);
            v.push(Scope::ZenohPublish);
            v.push(Scope::ZenohSubscribe);
            assert(v@ =~= role_scopes(Role::Service));
            v
        },
    }
}

/// Whether a role's matrix entry lists a scope.
pub open spec fn role_grants(role: Role, s: Scope) -> bool {
    role_scopes(role).contains(s)
}

proof fn lemma_admin_witness(s: Scope)
    ensures
        role_scopes(Role::Admin)[scope_index(s)] == s,
        0 <= scope_index(s) < role_scopes(Role::Admin).len(),
{
}

/// Law: the admin role holds every scope.
pub proof fn law_admin_holds_every_scope(s: Scope)
    ensures
        role_grants(Role::Admin, s),
{
    lemma_admin_witness(s);
}

proof fn lemma_editor_members(s: Scope)
    ensures
        role_grants(Role::Editor, s) <==> (
            s == Scope::OrganizationRead
            || s == Scope::OrganizationSelect
            || s == Scope::ProductRead
            || s == Scope::ProductCreate
            || s == Scope::ProductUpdate
            || s == Scope::BrandRead
            || s == Scope::BrandCreate
            || s == Scope::BrandUpdate
            || s == Scope::CategoryRead
            || s == Scope::CategoryCreate
            || s == Scope::CategoryUpdate
            || s == Scope::StockRead
            || s == Scope::StockUpdate
            || s == Scope::PosRead
            || s == Scope::PosCreate
            || s == Scope::PosUpdate
            || s == Scope::BomRead
            || s == Scope::BomCreate
            || s == Scope::BomUpdate),
{
    let q = role_scopes(Role::Editor);
    if role_grants(Role::Editor, s) {
        let k = choose|k: int| 0 <= k < q.len() && q[k] == s;
        assert(k == 0 || k == 1 || k == 2 || k == 3 || k == 4 || k == 5 || k == 6 || k == 7 || k == 8 || k == 9 || k == 10 || k == 11 || k == 12 || k == 13 || k == 14 || k == 15 || k == 16 || k == 17 || k == 18);
    }
    assert(q[0] == Scope::OrganizationRead);
    assert(q[1] == Scope::OrganizationSelect);
    assert(q[2] == Scope::ProductRead);
    assert(q[3] == Scope::ProductCreate);
    assert(q[4] == Scope::ProductUpdate);
    assert(q[5] == Scope::BrandRead);
    assert(q[6] == Scope::BrandCreate);
    assert(q[7] == Scope::BrandUpdate);
    assert(q[8] == Scope::CategoryRead);
    assert(q[9] == Scope::CategoryCreate);
    assert(q[10] == Scope::CategoryUpdate);
    assert(q[11] == Scope::StockRead);
    assert(q[12] == Scope::StockUpdate);
    assert(q[13] == Scope::PosRead);
    assert(q[14] == Scope::PosCreate);
    assert(q[15] == Scope::PosUpdate);
    assert(q[16] == Scope::BomRead);
    assert(q[17] == Scope::BomCreate);
    assert(q[18] == Scope::BomUpdate);
}

proof fn lemma_viewer_members(s: Scope)
    ensures
        role_grants(Role::Viewer, s) <==> (
            s == Scope::OrganizationRead
            || s == Scope::ProductRead
            || s == Scope::BrandRead
            || s == Scope::CategoryRead
            || s == Scope::StockRead
            || s == Scope::PosRead
            || s == Scope::BomRead),
{
    let q = role_scopes(Role::Viewer);
    if role_grants(Role::Viewer, s) {
        let k = choose|k: int| 0 <= k < q.len() && q[k] == s;
        assert(k == 0 || k == 1 || k == 2 || k == 3 || k == 4 || k == 5 || k == 6);
    }
    assert(q[0] == Scope::OrganizationRead);
    assert(q[1] == Scope::ProductRead);
    assert(q[2] == Scope::BrandRead);
    assert(q[3] == Scope::CategoryRead);
    assert(q[4] == Scope::StockRead);
    assert(q[5] == Scope::PosRead);
    assert(q[6] == Scope::BomRead);
}

proof fn lemma_service_members(s: Scope)
    ensures
        role_grants(Role::Service, s) <==> (
            s == Scope::DbRead
            || s == Scope::DbWrite
            || s == Scope::ZenohPublish
            || s == Scope::ZenohSubscribe),
{
    let q = role_scopes(Role::Service);
    if role_grants(Role::Service, s) {
        let k = choose|k: int| 0 <= k < q.len() && q[k] == s;
        assert(k == 0 || k == 1 || k == 2 || k == 3);
    }
    assert(q[0] == Scope::DbRead);
    assert(q[1] == Scope::DbWrite);
    assert(q[2] == Scope::ZenohPublish);
    assert(q[3] == Scope::ZenohSubscribe);
}

/// Law: the roles nest. Every scope of a viewer is an editor's, every scope of
/// an editor is an admin's, and every scope of the service role is an admin's.
pub proof fn law_roles_nest(s: Scope)
    ensures
        role_grants(Role::Viewer, s) ==> role_grants(Role::Editor, s),
        role_grants(Role::Editor, s) ==> role_grants(Role::Admin, s),
        role_grants(Role::Service, s) ==> role_grants(Role::Admin, s),
{
    lemma_viewer_members(s);
    lemma_editor_members(s);
    law_admin_holds_every_scope(s);
}

/// Law: the viewer role is read-only.
pub proof fn law_viewer_only_reads(s: Scope)
    requires
        role_grants(Role::Viewer, s),
    ensures
        scope_permission(s).action == PermissionActionKey::Read,
{
    lemma_viewer_members(s);
}

/// Law: the editor role reads and writes business entities but never deletes,
/// never manages users or roles, and holds no technical scope.
pub proof fn law_editor_limits(s: Scope)
    requires
        role_grants(Role::Editor, s),
    ensures
        scope_permission(s).action != PermissionActionKey::Delete,
        scope_permission(s).module != PermissionModuleKey::User,
        scope_permission(s).module != PermissionModuleKey::Role,
        scope_permission(s).kind == PermissionKind::Business,
{
    lemma_editor_members(s);
}

/// Law: the service role holds technical scopes only.
pub proof fn law_service_is_technical(s: Scope)
    requires
        role_grants(Role::Service, s),
    ensures
        scope_permission(s).kind == PermissionKind::Technical,
{
    lemma_service_members(s);
}

/// Law: every scope's text is one of the canonical scope strings.
pub proof fn law_scope_texts_are_known(s: Scope)
    ensures
        is_known_scope_text(scope_str(s)),
{
    lemma_scope_index(s);
}

/// Law: two scopes with the same text are the same scope.
pub proof fn law_scope_text_identifies_scope(a: Scope, b: Scope)
    requires
        scope_str(a) == scope_str(b),
    ensures
        a == b,
{
    lemma_scope_index(a);
    lemma_scope_index(b);
    crate::permission::law_scope_texts_distinct(scope_index(a), scope_index(b));
}

/// Law: no role lists a scope twice.
pub proof fn law_role_scopes_distinct(role: Role)
    ensures
        role_scopes(role).no_duplicates(),
{
    let q = role_scopes(role);
    assert forall|i: int, j: int| 0 <= i < q.len() && 0 <= j < q.len() && i != j implies q[i] != q[j] by {
        lemma_scope_index(q[i]);
        lemma_scope_index(q[j]);
        if role == Role::Admin {
            assert(scope_index(scope_at(i)) == i);
            assert(scope_index(scope_at(j)) == j);
        }
    }
}

} // verus!
