//! Shared domain primitives: platform constants, identifiers, traits and the
//! bill-of-materials status vocabularies.
use vstd::prelude::*;
use vstd::string::*;
use crate::ids::{new_v4_uuid, uuid_text, uuid_to_text, is_v4_uuid};
use crate::text::{str_equal, to_lowercase, unicode_lowercase, ascii_lower_char};
use crate::error::join2;

verus! {

/// The name of the platform.
pub const PLATFORM_NAME: &'static str = "sakaloka-universe";

/// JWT issuer identifier used in all token `iss` claims.
pub const JWT_ISSUER: &'static str = "sakaloka:iam";

/// The audience claim value for Earth (the HTTP API).
pub const AUD_EARTH: &'static str = "sakaloka:earth";

/// The audience claim value for Jupiter (SurrealDB).
pub const AUD_JUPITER: &'static str = "sakaloka:jupiter";

/// The audience claim value for Saturn (Zenoh).
pub const AUD_SATURN: &'static str = "sakaloka:saturn";

/// The audience claim value for Uranus (Qdrant).
pub const AUD_URANUS: &'static str = "sakaloka:uranus";

/// The audience claim value for Neptune (local AI inference).
pub const AUD_NEPTUNE: &'static str = "sakaloka:neptune";

/// User JWT time-to-live in seconds (15 minutes).
pub const USER_TOKEN_TTL_SECS: u64 = 15 * 60;

/// Refresh token time-to-live in seconds (7 days).
pub const REFRESH_TOKEN_TTL_SECS: u64 = 7 * 24 * 60 * 60;

/// Service JWT time-to-live in seconds (5 minutes).
pub const SERVICE_TOKEN_TTL_SECS: u64 = 5 * 60;

/// Seconds before expiry at which service tokens are proactively refreshed.
pub const SERVICE_TOKEN_REFRESH_BUFFER_SECS: u64 = 60;

/// Zenoh topic namespace root.
pub const ZENOH_ROOT: &'static str = "sakaloka";

/// Implemented by domain entities that carry a unique identifier.
pub trait Identifiable {
    /// Returns the unique identifier of this entity.
    fn id(&self) -> &str;
}

/// Implemented by types that can validate their own internal state.
pub trait Validate: Sized {
    /// The error type returned when validation fails.
    type Error;

    /// Validates the value, returning `Ok(Self)` if valid.
    fn validate(self) -> Result<Self, Self::Error>;
}

/// A planet identifier used in JWT audiences and Zenoh topic routing.
#[derive(Debug, Clone, PartialEq, Eq, Hash)]
pub struct PlanetId(String);

impl View for PlanetId {
    type V = Seq<char>;

    closed spec fn view(&self) -> Seq<char> {
        self.0@
    }
}

impl PlanetId {
    /// Creates a planet identifier holding the given text.
    pub fn new(s: &str) -> (r: PlanetId)
        ensures
            r@ == s@,
    {
        PlanetId(String::from_str(s))
    }

    /// Returns the text of this planet identifier.
    pub fn as_str(&self) -> (r: &str)
        ensures
            r@ == self@,
    {
        self.0.as_str()
    }

    /// The identifier's text, as its text form prints it.
    pub fn to_string(&self) -> (r: String)
        ensures
            r@ == self@,
    {
        String::from_str(self.0.as_str())
    }
}

/// A correlation/request ID for distributed tracing: a random (version 4) UUID.
#[derive(Debug, Clone, Copy, PartialEq, Eq, Hash)]
pub struct RequestId(u128);

impl View for RequestId {
    type V = u128;

    closed spec fn view(&self) -> u128 {
        self.0
    }
}

impl RequestId {
    /// Generates a new random request ID.
    pub fn new() -> (r: RequestId)
        ensures
            is_v4_uuid(r@),
    {
        RequestId(new_v4_uuid())
    }

    /// The hyphenated lower-case UUID text of the ID.
    pub fn to_string(&self) -> (r: String)
        ensures
            r@ == uuid_text(self@),
    {
        uuid_to_text(self.0)
    }
}

impl Default for RequestId {
    /// A fresh random request ID.
    fn default() -> (r: RequestId)
        ensures
            is_v4_uuid(r@),
    {
        RequestId::new()
    }
}

/// Status of a bill of materials.
#[derive(Debug, Clone, Copy, PartialEq, Eq, Structural)]
pub enum BomStatus {
    /// Not yet active.
    Draft,
    /// Currently in use.
    Active,
    /// No longer used, kept for history.
    Archived,
}

/// The lower-case text of a BOM status.
pub open spec fn bom_status_text(s: BomStatus) -> Seq<char> {
    match s {
        BomStatus::Draft => "draft"@,
        BomStatus::Active => "active"@,
        BomStatus::Archived => "archived"@,
    }
}

/// The message of a rejected status text.
pub open spec fn invalid_status_message(raw: Seq<char>) -> Seq<char> {
    "invalid status: "@ + raw
}

/// Lower-casing leaves a lower-case ASCII word unchanged.
proof fn lemma_lower_word_fixed(s: Seq<char>)
    requires
        forall|i: int| 0 <= i < s.len() ==> ('a' <= #[trigger] s[i] <= 'z' || s[i] == '_'),
    ensures
        vstd::utf8::is_ascii_chars(s),
        s.map_values(|c: char| ascii_lower_char(c)) == s,
{
    assert(s.map_values(|c: char| ascii_lower_char(c)) =~= s);
}

impl BomStatus {
    /// The status's lower-case text, as its text form prints it.
    pub fn to_string(&self) -> (r: String)
        ensures
            r@ == bom_status_text(*self),
    {
        let s = match self {
            BomStatus::Draft => "draft",
            BomStatus::Active => "active",
            BomStatus::Archived => "archived",
        };
        String::from_str(s)
    }

    /// Parses a status text case-insensitively (Unicode lower-casing).
    ///
    /// Every status's own text parses back to it.
    pub fn from_str(s: &str) -> (r: Result<BomStatus, String>)
        ensures
            match r {
                Ok(x) => unicode_lowercase(s@) == bom_status_text(x),
                Err(e) => e@ == invalid_status_message(s@) && forall|x: BomStatus|
                    unicode_lowercase(s@) != #[trigger] bom_status_text(x),
            },
            forall|x: BomStatus| s@ == #[trigger] bom_status_text(x) ==> r == Ok::<BomStatus, String>(x),
    {
        proof {
            reveal_strlit("draft");
            reveal_strlit("active");
            reveal_strlit("archived");
            reveal_strlit("invalid status: ");
        }
        let lower = to_lowercase(s);
        proof {
            assert forall|x: BomStatus| s@ == #[trigger] bom_status_text(x) implies unicode_lowercase(s@)
                == s@ by {
                lemma_lower_word_fixed(s@);
            }
        }
        if str_equal(lower.as_str(), "draft") {
            Ok(BomStatus::Draft)
        } else if str_equal(lower.as_str(), "active") {
            Ok(BomStatus::Active)
        } else if str_equal(lower.as_str(), "archived") {
            Ok(BomStatus::Archived)
        } else {
            Err(join2("invalid status: ", s))
        }
    }
}

/// The status stored in a BOM row, read back: the status its text names, or
/// draft for a text that names none.
pub fn bom_status_or_draft(s: &str) -> (r: BomStatus)
    ensures
        (exists|x: BomStatus| unicode_lowercase(s@) == #[trigger] bom_status_text(x)) ==> unicode_lowercase(s@)
            == bom_status_text(r),
        (forall|x: BomStatus| unicode_lowercase(s@) != #[trigger] bom_status_text(x)) ==> r
            == BomStatus::Draft,
{
    match BomStatus::from_str(s) {
        Ok(x) => x,
        Err(_) => BomStatus::Draft,
    }
}

impl Default for BomStatus {
    /// Draft.
    fn default() -> (r: BomStatus)
        ensures
            r == BomStatus::Draft,
    {
        BomStatus::Draft
    }
}

/// Status of a production run.
#[derive(Debug, Clone, Copy, PartialEq, Eq, Structural)]
pub enum ProductionRunStatus {
    /// Scheduled, not started.
    Planned,
    /// Being produced.
    InProgress,
    /// Finished.
    Completed,
    /// Abandoned.
    Cancelled,
}

/// The lower-case text of a production run status.
pub open spec fn run_status_text(s: ProductionRunStatus) -> Seq<char> {
    match s {
        ProductionRunStatus::Planned => "planned"@,
        ProductionRunStatus::InProgress => "in_progress"@,
        ProductionRunStatus::Completed => "completed"@,
        ProductionRunStatus::Cancelled => "cancelled"@,
    }
}

impl ProductionRunStatus {
    /// The status's lower-case text, as its text form prints it.
    pub fn to_string(&self) -> (r: String)
        ensures
            r@ == run_status_text(*self),
    {
        let s = match self {
            ProductionRunStatus::Planned => "planned",
            ProductionRunStatus::InProgress => "in_progress",
            ProductionRunStatus::Completed => "completed",
            ProductionRunStatus::Cancelled => "cancelled",
        };
        String::from_str(s)
    }

    /// Parses a status text case-insensitively (Unicode lower-casing).
    ///
    /// Every status's own text parses back to it.
    pub fn from_str(s: &str) -> (r: Result<ProductionRunStatus, String>)
        ensures
            match r {
                Ok(x) => unicode_lowercase(s@) == run_status_text(x),
                Err(e) => e@ == invalid_status_message(s@) && forall|x: ProductionRunStatus|
                    unicode_lowercase(s@) != #[trigger] run_status_text(x),
            },
            forall|x: ProductionRunStatus| s@ == #[trigger] run_status_text(x) ==> r == Ok::<
                ProductionRunStatus,
                String,
            >(x),
    {
        proof {
            reveal_strlit("planned");
            reveal_strlit("in_progress");
            reveal_strlit("completed");
            reveal_strlit("cancelled");
            reveal_strlit("invalid status: ");
            assert("completed"@[1] != "cancelled"@[1]);
            assert("planned"@.len() != "completed"@.len());
            assert("in_progress"@.len() != "completed"@.len());
            assert("planned"@.len() != "in_progress"@.len());
        }
        let lower = to_lowercase(s);
        proof {
            assert forall|x: ProductionRunStatus| s@ == #[trigger] run_status_text(x) implies unicode_lowercase(
                s@,
            ) == s@ by {
                match x {
                    ProductionRunStatus::Planned => lemma_lower_word_fixed(s@),
                    ProductionRunStatus::InProgress => lemma_lower_word_fixed(s@),
                    ProductionRunStatus::Completed => lemma_lower_word_fixed(s@),
                    ProductionRunStatus::Cancelled => lemma_lower_word_fixed(s@),
                }
            }
        }
        if str_equal(lower.as_str(), "planned") {
            Ok(ProductionRunStatus::Planned)
        } else if str_equal(lower.as_str(), "in_progress") {
            Ok(ProductionRunStatus::InProgress)
        } else if str_equal(lower.as_str(), "completed") {
            Ok(ProductionRunStatus::Completed)
        } else if str_equal(lower.as_str(), "cancelled") {
            Ok(ProductionRunStatus::Cancelled)
        } else {
            Err(join2("invalid status: ", s))
        }
    }
}

/// The status stored in a production run row, read back: the status its text
/// names, or planned for a text that names none.
pub fn run_status_or_planned(s: &str) -> (r: ProductionRunStatus)
    ensures
        (exists|x: ProductionRunStatus| unicode_lowercase(s@) == #[trigger] run_status_text(x))
            ==> unicode_lowercase(s@) == run_status_text(r),
        (forall|x: ProductionRunStatus| unicode_lowercase(s@) != #[trigger] run_status_text(x))
            ==> r == ProductionRunStatus::Planned,
{
    match ProductionRunStatus::from_str(s) {
        Ok(x) => x,
        Err(_) => ProductionRunStatus::Planned,
    }
}

impl Default for ProductionRunStatus {
    /// Planned.
    fn default() -> (r: ProductionRunStatus)
        ensures
            r == ProductionRunStatus::Planned,
    {
        ProductionRunStatus::Planned
    }
}

} // verus!
