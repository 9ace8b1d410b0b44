//! JWT claim sets for user and service tokens: how they are built when a token
//! is issued, how validation failures are reported, and the audience check that
//! follows the signature check of a service token.
use vstd::prelude::*;
use vstd::string::*;
use crate::error::{SecureError, join2};
use crate::ids::uuid_text;
use crate::newtypes::{Planet, SessionId, TokenId, UserId, audience_of};
use crate::text::str_equal;

verus! {

#[verifier::external_type_specification]
#[verifier::external_body]
pub struct ExSystemTime(std::time::SystemTime);

/// `std::time::SystemTime::now`: the current wall-clock time.
///
/// The clock is read from the machine, so nothing is stated of the value.
#[verifier::external_body]
fn system_time_now() -> (r: std::time::SystemTime) {
    std::time::SystemTime::now()
}

/// `SystemTime::duration_since(UNIX_EPOCH)`, in whole seconds, or the error's
/// text when the time lies before the epoch.
///
/// Which of the two comes back depends on the clock, so nothing is stated of it.
#[verifier::external_body]
fn seconds_since_epoch(t: std::time::SystemTime) -> (r: Result<u64, String>) {
    match t.duration_since(std::time::UNIX_EPOCH) {
        Ok(d) => Ok(d.as_secs()),
        Err(e) => Err(e.to_string()),
    }
}

/// The current UNIX time in seconds, or the text of the clock error when the
/// clock reads a time before the epoch.
pub fn unix_time_now() -> (r: Result<u64, String>) {
    seconds_since_epoch(system_time_now())
}

/// The seconds of a clock reading; 0 when the clock read a time before the
/// epoch.
pub fn secs_or_zero(reading: &Result<u64, String>) -> (r: u64)
    ensures
        r == match *reading {
            Ok(secs) => secs,
            Err(_) => 0,
        },
{
    match reading {
        Ok(secs) => *secs,
        Err(_) => 0,
    }
}

/// The current UNIX timestamp in seconds; 0 when the clock reads a time before
/// the epoch (see [`secs_or_zero`]).
pub fn current_unix_secs() -> (r: u64) {
    let reading = unix_time_now();
    secs_or_zero(&reading)
}

/// The payload of a user JWT, issued after a successful login.
#[derive(Debug, Clone)]
pub struct UserClaims {
    /// Subject: the user's record ID (e.g. `user:01Jxxx`).
    pub sub: String,
    /// Issuer: always `sakaloka:iam`.
    pub iss: String,
    /// Audience: always `["sakaloka:earth"]`.
    pub aud: Vec<String>,
    /// Expiry timestamp (Unix seconds).
    pub exp: u64,
    /// Issued-at timestamp (Unix seconds).
    pub iat: u64,
    /// Unique token ID (for the JTI blocklist).
    pub jti: String,
    /// The user's role name.
    pub role: String,
    /// The scopes granted to this user.
    pub scopes: Vec<String>,
    /// The associated session ID.
    pub session_id: String,
    /// The organization selected for this session, if any.
    pub org_id: Option<String>,
}

/// The payload of a service JWT (planet to planet).
#[derive(Debug, Clone)]
pub struct ServiceClaims {
    /// Subject: the calling planet's service identity (e.g. `service:earth`).
    pub sub: String,
    /// Issuer: always `sakaloka:iam`.
    pub iss: String,
    /// Audience: the target planet (e.g. `["sakaloka:jupiter"]`).
    pub aud: Vec<String>,
    /// Expiry timestamp (Unix seconds).
    pub exp: u64,
    /// Issued-at timestamp (Unix seconds).
    pub iat: u64,
    /// Unique token ID (for the JTI blocklist).
    pub jti: String,
    /// The scopes granted to this service token.
    pub service_scopes: Vec<String>,
    /// The issuing planet name.
    pub planet: String,
}

/// The texts held by a list of strings.
pub open spec fn texts(v: Seq<String>) -> Seq<Seq<char>> {
    v.map_values(|s: String| s@)
}

/// The texts held by a list of string slices.
pub open spec fn str_texts(v: Seq<&str>) -> Seq<Seq<char>> {
    v.map_values(|s: &str| s@)
}

/// Copies a list of string slices into owned strings.
fn owned_strings(items: &[&str]) -> (r: Vec<String>)
    ensures
        texts(r@) == str_texts(items@),
{
    let mut r: Vec<String> = Vec::new();
    let mut i: usize = 0;
    while i < items.len()
        invariant
            i <= items@.len(),
            texts(r@) =~= str_texts(items@.subrange(0, i as int)),
        decreases items@.len() - i,
    {
        r.push(String::from_str(items[i]));
        proof {
            assert(str_texts(items@.subrange(0, i + 1)) =~= str_texts(items@.subrange(0, i as int)).push(
                items@[i as int]@,
            ));
        }
        i = i + 1;
    }
    proof {
        assert(items@.subrange(0, items@.len() as int) =~= items@);
    }
    r
}

/// The claims of a user token issued at time `now` with token ID `jti`.
///
/// The audience is Earth, the issuer `sakaloka:iam`, and the token lives
/// fifteen minutes.
pub fn user_claims_at(
    user_id: &UserId,
    role: &str,
    scopes: &[&str],
    session_id: &SessionId,
    org_id: Option<&str>,
    now: u64,
    jti: &TokenId,
) -> (r: UserClaims)
    requires
        now + 900 <= u64::MAX,
    ensures
        r.sub@ == user_id@,
        r.iss@ == "sakaloka:iam"@,
        texts(r.aud@) == seq!["sakaloka:earth"@],
        r.exp == now + 900,
        r.iat == now,
        r.jti@ == uuid_text(jti@),
        r.role@ == role@,
        texts(r.scopes@) == str_texts(scopes@),
        r.session_id@ == uuid_text(session_id@),
        r.org_id is Some <==> org_id is Some,
        r.org_id matches Some(o) ==> o@ == org_id->0@,
{
    let mut aud: Vec<String> = Vec::new();
    aud.push(String::from_str("sakaloka:earth"));
    proof {
        assert(texts(aud@) =~= seq!["sakaloka:earth"@]);
    }
    let org = match org_id {
        Some(o) => Some(String::from_str(o)),
        None => None,
    };
    UserClaims {
        sub: user_id.to_string(),
        iss: String::from_str("sakaloka:iam"),
        aud,
        exp: now + 900,
        iat: now,
        jti: jti.to_string(),
        role: String::from_str(role),
        scopes: owned_strings(scopes),
        session_id: session_id.to_string(),
        org_id: org,
    }
}

/// The claims of a service token that `issuing` sends to `target`, issued at
/// time `now` with token ID `jti`.
///
/// The subject is `service:<issuing>`, the audience the target's audience
/// value, and the token lives five minutes.
pub fn service_claims_at(
    issuing: &Planet,
    target: &Planet,
    service_scopes: &[&str],
    now: u64,
    jti: &TokenId,
) -> (r: ServiceClaims)
    requires
        now + 300 <= u64::MAX,
    ensures
        r.sub@ == "service:"@ + issuing@,
        r.iss@ == "sakaloka:iam"@,
        texts(r.aud@) == seq![audience_of(target@)],
        r.exp == now + 300,
        r.iat == now,
        r.jti@ == uuid_text(jti@),
        texts(r.service_scopes@) == str_texts(service_scopes@),
        r.planet@ == issuing@,
{
    let mut aud: Vec<String> = Vec::new();
    aud.push(target.audience());
    proof {
        assert(texts(aud@) =~= seq![audience_of(target@)]);
    }
    ServiceClaims {
        sub: join2("service:", issuing.as_str()),
        iss: String::from_str("sakaloka:iam"),
        aud,
        exp: now + 300,
        iat: now,
        jti: jti.to_string(),
        service_scopes: owned_strings(service_scopes),
        planet: issuing.to_string(),
    }
}

/// Why the signature or claim validation of a token failed.
#[derive(Debug, Clone, PartialEq, Eq)]
pub enum TokenRejection {
    /// The `exp` claim lies in the past.
    Expired,
    /// The `aud` claim does not hold the expected audience.
    WrongAudience,
    /// Any other failure, with the validator's message.
    Other(String),
}

/// Maps a failed user-token validation to the library's error: an expired
/// token is `TokenExpired`, anything else `JwtDecode` with the validator's text.
pub fn user_token_error(why: TokenRejection, message: &str) -> (r: SecureError)
    ensures
        why == TokenRejection::Expired ==> r == SecureError::TokenExpired,
        why != TokenRejection::Expired ==> (r matches SecureError::JwtDecode(m) && m@ == message@),
{
    match why {
        TokenRejection::Expired => SecureError::TokenExpired,
        _ => SecureError::JwtDecode(String::from_str(message)),
    }
}

/// Maps a failed service-token validation to the library's error: an expired
/// token is `TokenExpired`, a wrong audience `AudienceMismatch` with the
/// expected audience and `unknown`, anything else `JwtDecode` with the text.
pub fn service_token_error(why: TokenRejection, message: &str, expected: &Planet) -> (r:
    SecureError)
    ensures
        why == TokenRejection::Expired ==> r == SecureError::TokenExpired,
        why == TokenRejection::WrongAudience ==> (r matches SecureError::AudienceMismatch {
            expected: e,
            got: g,
        } && e@ == audience_of(expected@) && g@ == "unknown"@),
        why is Other ==> (r matches SecureError::JwtDecode(m) && m@ == message@),
{
    match why {
        TokenRejection::Expired => SecureError::TokenExpired,
        TokenRejection::WrongAudience => SecureError::AudienceMismatch {
            expected: expected.audience(),
            got: String::from_str("unknown"),
        },
        TokenRejection::Other(_) => SecureError::JwtDecode(String::from_str(message)),
    }
}

/// The texts of a list joined with `sep` between neighbours.
pub open spec fn joined(parts: Seq<Seq<char>>, sep: Seq<char>) -> Seq<char>
    decreases parts.len(),
{
    if parts.len() == 0 {
        seq![]
    } else if parts.len() == 1 {
        parts[0]
    } else {
        joined(parts.drop_last(), sep) + sep + parts.last()
    }
}

/// Joins a list of strings with a separator (what `[String]::join` returns).
pub fn join_strings(parts: &Vec<String>, sep: &str) -> (r: String)
    ensures
        r@ == joined(texts(parts@), sep@),
{
    proof {
        reveal_strlit("");
    }
    let mut r = String::from_str("");
    let mut i: usize = 0;
    while i < parts.len()
        invariant
            i <= parts@.len(),
            r@ == joined(texts(parts@.subrange(0, i as int)), sep@),
        decreases parts@.len() - i,
    {
        let ghost before = r@;
        if i > 0 {
            r = r.concat(sep);
        }
        r = r.concat(parts[i].as_str());
        proof {
            let t = texts(parts@.subrange(0, i + 1));
            assert(t.drop_last() =~= texts(parts@.subrange(0, i as int)));
            assert(t.last() == parts@[i as int]@);
            if i == 0 {
                assert(before =~= seq![]);
                assert(r@ =~= t[0]);
            }
        }
        i = i + 1;
    }
    proof {
        assert(parts@.subrange(0, parts@.len() as int) =~= parts@);
    }
    r
}

/// Whether an audience list holds the expected audience.
pub open spec fn audience_accepts(aud: Seq<Seq<char>>, expected: Seq<char>) -> bool {
    aud.contains(expected)
}

/// The audience check that follows the signature check of a service token:
/// the claims pass when their audience list holds the expected planet's
/// audience; otherwise the error names the expected audience and the audience
/// list joined with `, `.
pub fn check_service_audience(claims: ServiceClaims, expected_aud: &Planet) -> (r: Result<
    ServiceClaims,
    SecureError,
>)
    ensures
        audience_accepts(texts(claims.aud@), audience_of(expected_aud@)) ==> r == Ok::<
            ServiceClaims,
            SecureError,
        >(claims),
        !audience_accepts(texts(claims.aud@), audience_of(expected_aud@)) ==> (r matches Err(
            SecureError::AudienceMismatch { expected: e, got: g },
        ) && e@ == audience_of(expected_aud@) && g@ == joined(texts(claims.aud@), ", "@)),
{
    let expected = expected_aud.audience();
    let mut i: usize = 0;
    while i < claims.aud.len()
        invariant
            i <= claims.aud@.len(),
            expected@ == audience_of(expected_aud@),
            forall|j: int| 0 <= j < i ==> claims.aud@[j]@ != expected@,
        decreases claims.aud@.len() - i,
    {
        if str_equal(claims.aud[i].as_str(), expected.as_str()) {
            proof {
                assert(texts(claims.aud@)[i as int] == expected@);
            }
            return Ok(claims);
        }
        i = i + 1;
    }
    proof {
        assert forall|j: int| 0 <= j < texts(claims.aud@).len() implies texts(claims.aud@)[j]
            != expected@ by {
            assert(texts(claims.aud@)[j] == claims.aud@[j]@);
        }
    }
    let got = join_strings(&claims.aud, ", ");
    Err(SecureError::AudienceMismatch { expected, got })
}

/// Law: a service token issued for a planet carries that planet's audience,
/// so it passes the audience check of that planet.
pub proof fn law_issued_audience_passes(target: Seq<char>)
    ensures
        audience_accepts(seq![audience_of(target)], audience_of(target)),
{
    assert(seq![audience_of(target)][0] == audience_of(target));
}

/// Law: a service token issued for one planet fails the audience check of any
/// other planet.
pub proof fn law_audience_is_exclusive(target: Seq<char>, other: Seq<char>)
    requires
        target != other,
    ensures
        !audience_accepts(seq![audience_of(target)], audience_of(other)),
{
    if audience_accepts(seq![audience_of(target)], audience_of(other)) {
        assert(audience_of(target) == audience_of(other));
        let p = "sakaloka:"@;
        assert(target =~= audience_of(target).subrange(p.len() as int, audience_of(target).len() as int));
        assert(other =~= audience_of(other).subrange(p.len() as int, audience_of(other).len() as int));
    }
}

// ------------------------------------------------------------------------
// Signing and checking tokens (HS256)
// ------------------------------------------------------------------------

/// What `jsonwebtoken::encode` gives for the header `{"typ":"JWT","alg":"HS256"}`,
/// the secret, and the claims JSON text taken verbatim as the payload.
pub uninterp spec fn hs256_token(secret: Seq<u8>, claims: Seq<char>) -> Seq<char>;

/// The token text of a signing result, when it succeeded.
pub open spec fn signed_text(r: Result<String, String>) -> Option<Seq<char>> {
    match r {
        Ok(t) => Some(t@),
        Err(_) => None,
    }
}

/// `jsonwebtoken::encode` with an HS256 header and `EncodingKey::from_secret`,
/// over the claims JSON text kept verbatim (`serde_json::value::RawValue`).
///
/// The contract names the token. It states nothing of when signing fails (the
/// text must be JSON; the source otherwise only fails on serialization or key
/// errors that HMAC does not raise).
#[verifier::external_body]
fn sign_hs256(secret: &[u8], claims_json: &str) -> (r: Result<String, String>)
    ensures
        signed_text(r) is Some ==> signed_text(r) == Some(hs256_token(secret@, claims_json@)),
{
    let claims = match serde_json::value::RawValue::from_string(claims_json.to_string()) {
        Ok(v) => v,
        Err(e) => return Err(e.to_string()),
    };
    let key = jsonwebtoken::EncodingKey::from_secret(secret);
    match jsonwebtoken::encode(&jsonwebtoken::Header::new(jsonwebtoken::Algorithm::HS256), &claims, &key) {
        Ok(t) => Ok(t),
        Err(e) => Err(e.to_string()),
    }
}

/// What `jsonwebtoken::decode` gives for a token and a secret when only the
/// header, the HS256 algorithm and the signature are checked (no claim is
/// validated): the payload's JSON text, or the error's text.
pub uninterp spec fn hs256_decode(secret: Seq<u8>, token: Seq<char>) -> Result<Seq<char>, Seq<char>>;

/// The plain value of a decoding result.
pub open spec fn decode_outcome(r: Result<String, String>) -> Result<Seq<char>, Seq<char>> {
    match r {
        Ok(p) => Ok(p@),
        Err(e) => Err(e@),
    }
}

/// `jsonwebtoken::decode` with `DecodingKey::from_secret` and a `Validation`
/// for HS256 with the expiry, audience and required-claim checks turned off,
/// so that only the token's form, algorithm and signature are checked; the
/// payload comes back as its JSON text.
///
/// The contract names the outcome; the claim checks are the library's own
/// ([`check_user_claims`], [`check_service_claims`]).
#[verifier::external_body]
fn hs256_payload(secret: &[u8], token: &str) -> (r: Result<String, String>)
    ensures
        decode_outcome(r) == hs256_decode(secret@, token@),
{
    let mut validation = jsonwebtoken::Validation::new(jsonwebtoken::Algorithm::HS256);
    validation.validate_exp = false;
    validation.validate_aud = false;
    validation.required_spec_claims.clear();
    let key = jsonwebtoken::DecodingKey::from_secret(secret);
    match jsonwebtoken::decode::<Box<serde_json::value::RawValue>>(token, &key, &validation) {
        Ok(data) => Ok(data.claims.get().to_string()),
        Err(e) => Err(e.to_string()),
    }
}

/// Signs a claims JSON text with HS256 under a secret. A failure is
/// `JwtEncode(<reason>)`.
pub fn sign_token(secret: &[u8], claims_json: &str) -> (r: Result<String, SecureError>)
    ensures
        r matches Ok(t) ==> t@ == hs256_token(secret@, claims_json@),
        r matches Err(e) ==> e is JwtEncode,
{
    match sign_hs256(secret, claims_json) {
        Ok(t) => Ok(t),
        Err(e) => Err(SecureError::JwtEncode(e)),
    }
}

/// The payload of a token whose form, algorithm (HS256) and signature check
/// under a secret; otherwise `JwtDecode(<reason>)`.
pub fn token_payload(secret: &[u8], token: &str) -> (r: Result<String, SecureError>)
    ensures
        match hs256_decode(secret@, token@) {
            Ok(p) => r matches Ok(s) && s@ == p,
            Err(m) => r matches Err(SecureError::JwtDecode(x)) && x@ == m,
        },
{
    match hs256_payload(secret, token) {
        Ok(p) => Ok(p),
        Err(e) => Err(SecureError::JwtDecode(e)),
    }
}

/// Whether a token with expiry `exp` counts as expired at `now`, with the
/// validator's 60 seconds of leeway.
pub open spec fn claims_expired(exp: u64, now: u64) -> bool {
    (exp as int) < (now as int) - 60
}

/// Whether a token with expiry `exp` counts as expired at `now`.
fn is_expired(exp: u64, now: u64) -> (r: bool)
    ensures
        r == claims_expired(exp, now),
{
    now >= 60 && exp < now - 60
}

/// Whether an audience list holds a text.
fn audience_holds(aud: &Vec<String>, expected: &str) -> (r: bool)
    ensures
        r == audience_accepts(texts(aud@), expected@),
{
    let mut i: usize = 0;
    while i < aud.len()
        invariant
            i <= aud@.len(),
            forall|j: int| 0 <= j < i ==> aud@[j]@ != expected@,
        decreases aud@.len() - i,
    {
        if str_equal(aud[i].as_str(), expected) {
            proof {
                assert(texts(aud@)[i as int] == expected@);
            }
            return true;
        }
        i = i + 1;
    }
    proof {
        assert forall|j: int| 0 <= j < texts(aud@).len() implies texts(aud@)[j] != expected@ by {
            assert(texts(aud@)[j] == aud@[j]@);
        }
    }
    false
}

/// The claim checks of a user token at time `now`, after its signature
/// checked: an expired token (past `exp` by more than 60 seconds) is
/// `TokenExpired`; an issuer other than `sakaloka:iam` is
/// `JwtDecode("InvalidIssuer")`; an audience list without `sakaloka:earth` is
/// `JwtDecode("InvalidAudience")`; other claims pass unchanged.
pub fn check_user_claims(claims: UserClaims, now: u64) -> (r: Result<UserClaims, SecureError>)
    ensures
        claims_expired(claims.exp, now) ==> r == Err::<UserClaims, SecureError>(SecureError::TokenExpired),
        !claims_expired(claims.exp, now) && claims.iss@ != "sakaloka:iam"@ ==> (r matches Err(
            SecureError::JwtDecode(m),
        ) && m@ == "InvalidIssuer"@),
        !claims_expired(claims.exp, now) && claims.iss@ == "sakaloka:iam"@ && !audience_accepts(
            texts(claims.aud@),
            "sakaloka:earth"@,
        ) ==> (r matches Err(SecureError::JwtDecode(m)) && m@ == "InvalidAudience"@),
        !claims_expired(claims.exp, now) && claims.iss@ == "sakaloka:iam"@ && audience_accepts(
            texts(claims.aud@),
            "sakaloka:earth"@,
        ) ==> r == Ok::<UserClaims, SecureError>(claims),
{
    if is_expired(claims.exp, now) {
        return Err(user_token_error(TokenRejection::Expired, "ExpiredSignature"));
    }
    if !str_equal(claims.iss.as_str(), "sakaloka:iam") {
        return Err(user_token_error(TokenRejection::Other(String::from_str("InvalidIssuer")), "InvalidIssuer"));
    }
    if !audience_holds(&claims.aud, "sakaloka:earth") {
        return Err(user_token_error(TokenRejection::WrongAudience, "InvalidAudience"));
    }
    Ok(claims)
}

/// The claim checks of a service token meant for `expected` at time `now`,
/// after its signature checked: an expired token is `TokenExpired`; an issuer
/// other than `sakaloka:iam` is `JwtDecode("InvalidIssuer")`; an audience list
/// without the planet's audience is `AudienceMismatch` naming the expected
/// audience and `unknown`; other claims pass unchanged.
pub fn check_service_claims(claims: ServiceClaims, expected: &Planet, now: u64) -> (r: Result<
    ServiceClaims,
    SecureError,
>)
    ensures
        claims_expired(claims.exp, now) ==> r == Err::<ServiceClaims, SecureError>(SecureError::TokenExpired),
        !claims_expired(claims.exp, now) && claims.iss@ != "sakaloka:iam"@ ==> (r matches Err(
            SecureError::JwtDecode(m),
        ) && m@ == "InvalidIssuer"@),
        !claims_expired(claims.exp, now) && claims.iss@ == "sakaloka:iam"@ && !audience_accepts(
            texts(claims.aud@),
            audience_of(expected@),
        ) ==> (r matches Err(SecureError::AudienceMismatch { expected: e, got: g }) && e@
            == audience_of(expected@) && g@ == "unknown"@),
        !claims_expired(claims.exp, now) && claims.iss@ == "sakaloka:iam"@ && audience_accepts(
            texts(claims.aud@),
            audience_of(expected@),
        ) ==> r == Ok::<ServiceClaims, SecureError>(claims),
{
    if is_expired(claims.exp, now) {
        return Err(service_token_error(TokenRejection::Expired, "ExpiredSignature", expected));
    }
    if !str_equal(claims.iss.as_str(), "sakaloka:iam") {
        return Err(
            service_token_error(TokenRejection::Other(String::from_str("InvalidIssuer")), "InvalidIssuer", expected),
        );
    }
    let audience = expected.audience();
    if !audience_holds(&claims.aud, audience.as_str()) {
        return Err(service_token_error(TokenRejection::WrongAudience, "InvalidAudience", expected));
    }
    check_service_audience(claims, expected)
}

/// Law: a token made for any planet other than Earth is refused by the user
/// check: the audience list of a service token for `target` does not hold
/// `sakaloka:earth` (so `check_user_claims` answers `InvalidAudience` or an
/// earlier error), and it is refused by every other planet's service check.
pub proof fn law_service_tokens_are_not_user_tokens(target: Seq<char>, other: Seq<char>)
    requires
        target != "earth"@,
        target != other,
    ensures
        !audience_accepts(seq![audience_of(target)], "sakaloka:earth"@),
        !audience_accepts(seq![audience_of(target)], audience_of(other)),
{
    reveal_strlit("sakaloka:earth");
    reveal_strlit("sakaloka:");
    reveal_strlit("earth");
    assert(audience_of("earth"@) =~= "sakaloka:earth"@);
    law_audience_is_exclusive(target, "earth"@);
    law_audience_is_exclusive(target, other);
}

} // verus!
