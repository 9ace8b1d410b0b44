//! Error types of the identity and access layer, with their message texts.
use vstd::prelude::*;
use vstd::string::*;

verus! {

/// All errors produced by the identity and access layer.
#[derive(Debug, Clone, PartialEq, Eq)]
pub enum SecureError {
    /// Password hashing failed.
    HashFailed(String),
    /// Password verification failed (wrong password or corrupted hash).
    VerifyFailed,
    /// A required environment variable is missing.
    MissingEnvVar(String),
    /// JWT encoding failed.
    JwtEncode(String),
    /// JWT decoding or validation failed.
    JwtDecode(String),
    /// The `aud` claim does not match the expected target planet.
    AudienceMismatch {
        /// The expected audience value.
        expected: String,
        /// The actual audience value found in the token.
        got: String,
    },
    /// The token has expired.
    TokenExpired,
    /// A refresh token was reused after rotation; the session is terminated.
    TokenReused,
    /// An email address string failed format validation.
    InvalidEmail(String),
    /// A username string failed validation rules.
    InvalidUsername(String),
    /// A password string failed complexity requirements.
    InvalidPassword(String),
    /// A lock inside the token store was poisoned.
    SyncPoisoned(String),
    /// A generic input value failed validation.
    InvalidInput(String),
}

/// `a` followed by `b` and `c`.
pub fn join3(a: &str, b: &str, c: &str) -> (r: String)
    ensures
        r@ == a@ + b@ + c@,
{
    let r = String::from_str(a);
    let r = r.concat(b);
    r.concat(c)
}

/// `a` followed by `b`.
pub fn join2(a: &str, b: &str) -> (r: String)
    ensures
        r@ == a@ + b@,
{
    String::from_str(a).concat(b)
}

/// The human-readable text of a [`SecureError`].
pub open spec fn secure_error_text(e: SecureError) -> Seq<char> {
    match e {
        SecureError::HashFailed(s) => "password hashing failed: "@ + s@,
        SecureError::VerifyFailed => "password verification failed"@,
        SecureError::MissingEnvVar(s) => "missing environment variable `"@ + s@ + "`"@,
        SecureError::JwtEncode(s) => "JWT encoding failed: "@ + s@,
        SecureError::JwtDecode(s) => "JWT validation failed: "@ + s@,
        SecureError::AudienceMismatch { expected, got } => "audience mismatch: expected `"@
            + expected@ + "`, got `"@ + got@ + "`"@,
        SecureError::TokenExpired => "token expired"@,
        SecureError::TokenReused => "token reused: session terminated"@,
        SecureError::InvalidEmail(s) => "invalid email address: `"@ + s@ + "`"@,
        SecureError::InvalidUsername(s) => "invalid username: `"@ + s@ + "`"@,
        SecureError::InvalidPassword(s) => "invalid password: "@ + s@,
        SecureError::SyncPoisoned(s) => "synchronization lock poisoned: "@ + s@,
        SecureError::InvalidInput(s) => "invalid input: "@ + s@,
    }
}

impl SecureError {
    /// The error's message, as its `Display` form would print it.
    pub fn to_string(&self) -> (r: String)
        ensures
            r@ == secure_error_text(*self),
    {
        match self {
            SecureError::HashFailed(s) => join2("password hashing failed: ", s.as_str()),
            SecureError::VerifyFailed => String::from_str("password verification failed"),
            SecureError::MissingEnvVar(s) => join3(
                "missing environment variable `",
                s.as_str(),
                "`",
            ),
            SecureError::JwtEncode(s) => join2("JWT encoding failed: ", s.as_str()),
            SecureError::JwtDecode(s) => join2("JWT validation failed: ", s.as_str()),
            SecureError::AudienceMismatch { expected, got } => {
                let a = join3("audience mismatch: expected `", expected.as_str(), "`, got `");
                a.concat(got.as_str()).concat("`")
            },
            SecureError::TokenExpired => String::from_str("token expired"),
            SecureError::TokenReused => String::from_str("token reused: session terminated"),
            SecureError::InvalidEmail(s) => join3("invalid email address: `", s.as_str(), "`"),
            SecureError::InvalidUsername(s) => join3("invalid username: `", s.as_str(), "`"),
            SecureError::InvalidPassword(s) => join2("invalid password: ", s.as_str()),
            SecureError::SyncPoisoned(s) => join2("synchronization lock poisoned: ", s.as_str()),
            SecureError::InvalidInput(s) => join2("invalid input: ", s.as_str()),
        }
    }
}

} // verus!
