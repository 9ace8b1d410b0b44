//! Scoped Qdrant API keys: which access level each scope gets and how long a
//! scoped key lives. Application code never uses the master key itself.
use vstd::prelude::*;
use vstd::string::*;
use vstd::utf8::encode_utf8;
use crate::error::SecureError;
use crate::jwt::{hs256_token, sign_token};
use crate::text::{decimal_string, decimal_text};

verus! {

/// The scope of a Qdrant API key.
#[derive(Debug, Clone, Copy, PartialEq, Eq, Structural)]
pub enum QdrantScope {
    /// Full read and write access.
    ReadWrite,
    /// Write-only access, which must not be able to run search queries.
    /// Qdrant's access levels are `r` and `rw` only, and `rw` can search, so
    /// no key is issued for this scope.
    WriteOnly,
    /// Read-only access for internal consumers.
    ReadOnly,
}

/// Holds the Qdrant master key from which scoped keys are signed.
pub struct ApiKeyVault {
    master_key: String,
}

/// The Qdrant access claim of a scope: `rw` for read-write, `r` for
/// read-only, and none for write-only, since every Qdrant level that can write
/// can also search.
pub open spec fn qdrant_access(scope: QdrantScope) -> Option<Seq<char>> {
    match scope {
        QdrantScope::ReadWrite => Some("rw"@),
        QdrantScope::WriteOnly => None,
        QdrantScope::ReadOnly => Some("r"@),
    }
}

/// Lifetime of a scoped key: one hour.
pub const SCOPED_KEY_TTL_SECS: u64 = 3600;

/// The claims of a scoped Qdrant key.
#[derive(Debug, Clone)]
pub struct QdrantKeyClaims {
    /// Expiry (Unix seconds).
    pub exp: u64,
    /// Access level: `rw` or `r`.
    pub access: String,
}

impl ApiKeyVault {
    /// A vault holding the given master key.
    pub fn new(master_key: String) -> (r: ApiKeyVault)
        ensures
            r.master_key()@ == master_key@,
    {
        ApiKeyVault { master_key }
    }

    /// The master key, as the signing secret of scoped keys.
    pub closed spec fn master_key(&self) -> String {
        self.master_key
    }

    /// The master key, as the signing secret of scoped keys.
    pub fn signing_secret(&self) -> (r: &str)
        ensures
            r@ == self.master_key()@,
    {
        self.master_key.as_str()
    }

    /// The claims of a key for `scope` issued at time `now`: the scope's access
    /// level, expiring one hour later; `None` for write-only, which Qdrant
    /// cannot grant without also allowing searches.
    pub fn qdrant_key_claims(&self, scope: QdrantScope, now: u64) -> (r: Option<QdrantKeyClaims>)
        requires
            now + 3600 <= u64::MAX,
        ensures
            r is None <==> qdrant_access(scope) is None,
            r matches Some(c) ==> c.exp == now + 3600 && Some(c.access@) == qdrant_access(scope),
    {
        let access = match scope {
            QdrantScope::ReadWrite => "rw",
            QdrantScope::WriteOnly => {
                return None;
            },
            QdrantScope::ReadOnly => "r",
        };
        Some(QdrantKeyClaims { exp: now + SCOPED_KEY_TTL_SECS, access: String::from_str(access) })
    }
}

/// Law: a key never lets a consumer do more than its scope allows. A
/// write-only scope gets no key at all (so it can never search), only the
/// read-only scope gets the level that cannot write, and only the read-write
/// scope gets the level that can.
pub proof fn law_only_read_only_keys_cannot_write(scope: QdrantScope)
    ensures
        scope == QdrantScope::WriteOnly <==> qdrant_access(scope) is None,
        qdrant_access(scope) == Some("r"@) <==> scope == QdrantScope::ReadOnly,
        qdrant_access(scope) == Some("rw"@) <==> scope == QdrantScope::ReadWrite,
{
    reveal_strlit("r");
    reveal_strlit("rw");
    assert("rw"@.len() == 2);
    assert("r"@.len() == 1);
}

/// The JSON text of a key's claims, as `serde_json` writes the object
/// `{"exp": .., "access": ..}` (members in key order): `{"access":"<a>","exp":<n>}`.
pub open spec fn qdrant_claims_text(access: Seq<char>, exp: nat) -> Seq<char> {
    "{\"access\":\""@ + access + "\",\"exp\":"@ + decimal_text(exp) + "}"@
}

/// The JSON text of a key's claims.
pub fn qdrant_claims_json(c: &QdrantKeyClaims) -> (r: String)
    ensures
        r@ == qdrant_claims_text(c.access@, c.exp as nat),
{
    let r = String::from_str("{\"access\":\"").concat(c.access.as_str()).concat("\",\"exp\":");
    r.concat(decimal_string(c.exp).as_str()).concat("}")
}

/// The text of the error for the write-only scope.
pub open spec fn write_only_refusal() -> Seq<char> {
    "Qdrant cannot grant write access without search access"@
}

impl ApiKeyVault {
    /// A scoped Qdrant key issued at `now`: the scope's claims as JSON, signed
    /// with HS256 under the master key. The write-only scope is refused with
    /// `JwtEncode`, since every Qdrant access level that can write can also
    /// search; this departs from issuing it a read-write key. A signing
    /// failure is `JwtEncode` too.
    pub fn get_qdrant_key_at(&self, scope: QdrantScope, now: u64) -> (r: Result<String, SecureError>)
        requires
            now + 3600 <= u64::MAX,
        ensures
            scope == QdrantScope::WriteOnly ==> (r matches Err(SecureError::JwtEncode(m)) && m@
                == write_only_refusal()),
            r matches Ok(t) ==> qdrant_access(scope) matches Some(a) && t@ == hs256_token(
                encode_utf8(self.master_key()@),
                qdrant_claims_text(a, (now + 3600) as nat),
            ),
            r matches Err(e) ==> e is JwtEncode,
    {
        let claims = match self.qdrant_key_claims(scope, now) {
            Some(c) => c,
            None => {
                return Err(SecureError::JwtEncode(String::from_str("Qdrant cannot grant write access without search access")));
            },
        };
        let json = qdrant_claims_json(&claims);
        sign_token(self.master_key.as_str().as_bytes(), json.as_str())
    }
}

} // verus!
