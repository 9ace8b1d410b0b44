//! Account records of the HTTP application: registering users and patching
//! organizations.
use vstd::prelude::*;
use vstd::string::*;
use crate::data::{replace_text, replaced};
use crate::ids::uuid_text;
use crate::ids::uuid_to_text;
use crate::sync::{opt_text, SyncTimestamp};
use crate::text::{to_lowercase, unicode_lowercase};

verus! {

/// Credentials of a login request.
#[derive(Debug, Clone)]
pub struct LoginParams {
    pub email: String,
    pub password: String,
}

/// A registration request.
#[derive(Debug, Clone)]
pub struct RegisterParams {
    pub email: String,
    pub password: String,
    pub name: String,
}

/// How a user signs in.
#[derive(Debug, Clone, Copy, PartialEq, Eq, Structural)]
pub enum AuthProvider {
    /// With an email and a password stored here.
    Local,
}

/// The username generated for a display name: lower-cased, with every space
/// replaced by `_`.
pub open spec fn username_of(name: Seq<char>) -> Seq<char> {
    replaced(unicode_lowercase(name), " "@, "_"@)
}

/// Generates the username of a newly registered user from their name.
pub fn username_for(name: &str) -> (r: String)
    ensures
        r@ == username_of(name@),
{
    proof {
        reveal_strlit(" ");
    }
    let lower = to_lowercase(name);
    replace_text(lower.as_str(), " ", "_")
}

/// The record stored for a newly registered user.
#[derive(Debug, Clone)]
pub struct NewUser {
    pub id: String,
    pub email: Option<String>,
    pub username: String,
    pub password: Option<String>,
    pub provider: AuthProvider,
    pub created_at: SyncTimestamp,
    pub updated_at: SyncTimestamp,
    pub is_active: bool,
    pub is_locked: bool,
}

/// The record of a user registered with a password: a fresh UUID as ID, the
/// email, the generated username, the password hash, the local provider, both
/// timestamps at `now`, active and not locked.
pub fn new_local_user(params: &RegisterParams, id: u128, password_hash: String, now: SyncTimestamp) -> (r:
    NewUser)
    ensures
        r.id@ == uuid_text(id),
        opt_text(r.email) == Some(params.email@),
        r.username@ == username_of(params.name@),
        opt_text(r.password) == Some(password_hash@),
        r.provider == AuthProvider::Local,
        r.created_at == now,
        r.updated_at == now,
        r.is_active,
        !r.is_locked,
{
    NewUser {
        id: uuid_to_text(id),
        email: Some(String::from_str(params.email.as_str())),
        username: username_for(params.name.as_str()),
        password: Some(password_hash),
        provider: AuthProvider::Local,
        created_at: now,
        updated_at: now,
        is_active: true,
        is_locked: false,
    }
}

/// The ID a user record gets when it is saved: on insert without an ID, the
/// given fresh UUID's text; otherwise the ID it has.
pub fn id_on_save(insert: bool, id: Option<String>, fresh: u128) -> (r: Option<String>)
    ensures
        insert && id is None ==> opt_text(r) == Some(uuid_text(fresh)),
        !(insert && id is None) ==> opt_text(r) == opt_text(id),
{
    if insert && id.is_none() {
        Some(uuid_to_text(fresh))
    } else {
        id
    }
}

/// The name and email a user record is validated with: the username, and the
/// email or an empty text.
pub fn validation_input(username: &str, email: &Option<String>) -> (r: (String, String))
    ensures
        r.0@ == username@,
        r.1@ == match email {
            Some(e) => e@,
            None => seq![],
        },
{
    proof {
        reveal_strlit("");
    }
    let e = match email {
        Some(e) => String::from_str(e.as_str()),
        None => String::from_str(""),
    };
    (String::from_str(username), e)
}

/// The fields of a stored organization that a patch may change.
#[derive(Debug, Clone)]
pub struct OrganizationFields<T> {
    pub name: String,
    pub code: Option<String>,
    pub org_type: T,
    pub address: Option<String>,
    pub phone: Option<String>,
    pub updated_at: SyncTimestamp,
}

/// A patch of an organization: each present field replaces the stored one.
#[derive(Debug, Clone)]
pub struct OrganizationParams<T> {
    pub name: Option<String>,
    pub code: Option<String>,
    pub org_type: Option<T>,
    pub address: Option<String>,
    pub phone: Option<String>,
}

impl<T: Copy> OrganizationParams<T> {
    /// Applies the patch: every present field overwrites the stored one, absent
    /// fields stay, and the update time becomes `now`.
    pub fn update(&self, item: &mut OrganizationFields<T>, now: SyncTimestamp)
        ensures
            final(item).name@ == match self.name {
                Some(n) => n@,
                None => old(item).name@,
            },
            opt_text(final(item).code) == match self.code {
                Some(c) => Some(c@),
                None => opt_text(old(item).code),
            },
            final(item).org_type == match self.org_type {
                Some(t) => t,
                None => old(item).org_type,
            },
            opt_text(final(item).address) == match self.address {
                Some(a) => Some(a@),
                None => opt_text(old(item).address),
            },
            opt_text(final(item).phone) == match self.phone {
                Some(p) => Some(p@),
                None => opt_text(old(item).phone),
            },
            final(item).updated_at == now,
    {
        if let Some(name) = &self.name {
            item.name = String::from_str(name.as_str());
        }
        if let Some(code) = &self.code {
            item.code = Some(String::from_str(code.as_str()));
        }
        if let Some(t) = self.org_type {
            item.org_type = t;
        }
        if let Some(address) = &self.address {
            item.address = Some(String::from_str(address.as_str()));
        }
        if let Some(phone) = &self.phone {
            item.phone = Some(String::from_str(phone.as_str()));
        }
        item.updated_at = now;
    }

    /// Whether a patch may create an organization: it must name one.
    pub fn names_organization(&self) -> (r: bool)
        ensures
            r == self.name is Some,
    {
        self.name.is_some()
    }
}

/// A new organization as it is first stored.
#[derive(Debug, Clone)]
pub struct NewOrganization<T> {
    pub id: String,
    pub fields: OrganizationFields<T>,
    pub created_at: SyncTimestamp,
    pub is_active: bool,
    pub timezone: String,
    pub currency: String,
}

/// The message of an organization request without a name.
pub open spec fn name_required_message() -> Seq<char> {
    "Name is required"@
}

/// A new organization from a creation request: a fresh UUID as ID, active, in
/// the UTC time zone with IDR as currency, of the default type unless the
/// request gives one, with the request's fields. A request without a name is
/// refused with `Name is required`.
pub fn new_organization<T: Copy>(params: &OrganizationParams<T>, id: u128, default_type: T, now: SyncTimestamp) -> (r:
    Result<NewOrganization<T>, String>)
    ensures
        params.name is None ==> (r matches Err(m) && m@ == name_required_message()),
        params.name matches Some(n) ==> (r matches Ok(o) && o.id@ == uuid_text(id) && o.fields.name@
            == n@ && opt_text(o.fields.code) == opt_text(params.code) && o.fields.org_type == match params.org_type {
            Some(t) => t,
            None => default_type,
        } && opt_text(o.fields.address) == opt_text(params.address) && opt_text(o.fields.phone)
            == opt_text(params.phone) && o.fields.updated_at == now && o.created_at == now
            && o.is_active && o.timezone@ == "UTC"@ && o.currency@ == "IDR"@),
{
    let mut fields = OrganizationFields {
        name: String::from_str(""),
        code: None,
        org_type: default_type,
        address: None,
        phone: None,
        updated_at: now,
    };
    params.update(&mut fields, now);
    if !params.names_organization() {
        return Err(String::from_str("Name is required"));
    }
    Ok(NewOrganization {
        id: uuid_to_text(id),
        fields,
        created_at: now,
        is_active: true,
        timezone: String::from_str("UTC"),
        currency: String::from_str("IDR"),
    })
}

} // verus!
