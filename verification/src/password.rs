//! Argon2id password hashing and verification, with the cost parameters tuned
//! for small servers: 19 456 KiB of memory, 2 passes, 1 lane.
use vstd::prelude::*;
use vstd::string::*;
use vstd::utf8::encode_utf8;
use crate::error::SecureError;
use crate::newtypes::Password;
use crate::text::{decimal_text, digit_char};
use argon2::password_hash::SaltString;
use argon2::{Algorithm, Argon2, Params, PasswordHasher, Version};

verus! {

#[verifier::external_type_specification]
#[verifier::external_body]
pub struct ExPasswordHash<'a>(argon2::PasswordHash<'a>);

#[verifier::external_type_specification]
#[verifier::external_body]
pub struct ExPasswordHashError(argon2::password_hash::Error);

/// The variants of the Argon2 algorithm.
#[derive(Debug, Clone, Copy, PartialEq, Eq, Structural)]
pub enum Argon2Algorithm {
    Argon2d,
    Argon2i,
    Argon2id,
}

/// The versions of the Argon2 algorithm.
#[derive(Debug, Clone, Copy, PartialEq, Eq, Structural)]
pub enum Argon2Version {
    /// Version 0x10 (16).
    V0x10,
    /// Version 0x13 (19).
    V0x13,
}

/// The settings of an Argon2 hasher: variant, version and cost parameters.
#[derive(Debug, Clone, Copy, PartialEq, Eq, Structural)]
pub struct Argon2Settings {
    pub algorithm: Argon2Algorithm,
    pub version: Argon2Version,
    /// Memory cost in KiB.
    pub m_cost: u32,
    /// Number of passes.
    pub t_cost: u32,
    /// Number of lanes.
    pub p_cost: u32,
}

/// The memory cost in KiB.
pub const ARGON2_M_COST: u32 = 19_456;

/// The number of passes.
pub const ARGON2_T_COST: u32 = 2;

/// The number of lanes.
pub const ARGON2_P_COST: u32 = 1;

/// The tuned settings: Argon2id, version 0x13, and the costs above.
pub open spec fn tuned_settings() -> Argon2Settings {
    Argon2Settings {
        algorithm: Argon2Algorithm::Argon2id,
        version: Argon2Version::V0x13,
        m_cost: 19_456,
        t_cost: 2,
        p_cost: 1,
    }
}

/// The tuned hasher's settings: Argon2id, version 0x13, 19 456 KiB of memory,
/// 2 passes and 1 lane. They are valid, so hashing with them never fails for
/// want of valid parameters.
pub fn argon2_instance() -> (r: Argon2Settings)
    ensures
        r == tuned_settings(),
{
    Argon2Settings {
        algorithm: Argon2Algorithm::Argon2id,
        version: Argon2Version::V0x13,
        m_cost: ARGON2_M_COST,
        t_cost: ARGON2_T_COST,
        p_cost: ARGON2_P_COST,
    }
}

/// The identifier of a variant in a PHC string.
pub open spec fn algorithm_ident(a: Argon2Algorithm) -> Seq<char> {
    match a {
        Argon2Algorithm::Argon2d => seq!['a', 'r', 'g', 'o', 'n', '2', 'd'],
        Argon2Algorithm::Argon2i => seq!['a', 'r', 'g', 'o', 'n', '2', 'i'],
        Argon2Algorithm::Argon2id => seq!['a', 'r', 'g', 'o', 'n', '2', 'i', 'd'],
    }
}

/// The number of a version.
pub open spec fn version_number(v: Argon2Version) -> nat {
    match v {
        Argon2Version::V0x10 => 16,
        Argon2Version::V0x13 => 19,
    }
}

/// The start of the PHC string of a hash made with the given settings, up to
/// and including the `$` before the salt:
/// `$<variant>$v=<version>$m=<m>,t=<t>,p=<p>$`.
pub open spec fn phc_prefix(s: Argon2Settings) -> Seq<char> {
    seq!['$'] + algorithm_ident(s.algorithm) + seq!['$', 'v', '='] + decimal_text(
        version_number(s.version),
    ) + seq!['$', 'm', '='] + decimal_text(s.m_cost as nat) + seq![',', 't', '='] + decimal_text(
        s.t_cost as nat,
    ) + seq![',', 'p', '='] + decimal_text(s.p_cost as nat) + seq!['$']
}

/// Whether `argon2::PasswordHash::new` accepts a text as a PHC string.
pub uninterp spec fn phc_parses(hash: Seq<char>) -> bool;

/// Whether the Argon2 verifier accepts a password (as bytes) for a PHC
/// string. The verifier takes the variant, version, costs and salt from the
/// string itself, so the answer depends on these two values alone.
pub uninterp spec fn argon2_verifies(password: Seq<u8>, hash: Seq<char>) -> bool;

/// What a successful hashing gives: a PHC string that parses again, starts
/// with the settings' prefix, and verifies the hashed password.
pub open spec fn hash_made(r: Result<String, String>, s: Argon2Settings, password: Seq<u8>) -> bool {
    match r {
        Ok(h) => phc_parses(h@) && phc_prefix(s).is_prefix_of(h@) && argon2_verifies(password, h@),
        Err(_) => true,
    }
}

/// The salt length that `SaltString::generate` uses: 16 bytes
/// (`Salt::RECOMMENDED_LENGTH`).
pub const SALT_LEN: usize = 16;

/// Fresh random salt bytes from the operating system's random source
/// (`OsRng` through `RngCore::fill_bytes`), as `SaltString::generate` draws
/// them before encoding them.
///
/// The bytes are random, so only their number is stated.
#[verifier::external_body]
fn random_salt() -> (r: Vec<u8>)
    ensures
        r@.len() == SALT_LEN,
{
    let mut bytes = vec![0u8; SALT_LEN];
    argon2::password_hash::rand_core::RngCore::fill_bytes(&mut argon2::password_hash::rand_core::OsRng, &mut bytes);
    bytes
}

/// Whether Argon2 accepts a set of cost parameters: at least 8 KiB of memory
/// and 8 KiB per lane, at least one pass, and between 1 and 2^24 - 1 lanes.
pub open spec fn argon2_params_valid(m_cost: u32, t_cost: u32, p_cost: u32) -> bool {
    &&& m_cost >= 8
    &&& m_cost >= p_cost * 8
    &&& t_cost >= 1
    &&& 1 <= p_cost <= 0xFF_FFFF
}

/// Whether hashing succeeded.
pub open spec fn hash_succeeded(r: Result<String, String>) -> bool {
    r is Ok
}

/// `PasswordHasher::hash_password` of an `argon2::Argon2` built from plain
/// settings (`Params::new`, then `Argon2::new`) with a salt given as bytes
/// (`SaltString::encode_b64`), in the PHC string form, or the error's text.
///
/// The contract claims these facts of the `argon2` and `password-hash`
/// sources: the string starts with `$<variant>$v=<version>$m=..,t=..,p=..$`
/// (the `Display` of `PasswordHash` with the hasher's identifier, version and
/// `ParamsString`); it parses again (its `PasswordHashString` is documented as
/// "ensured to parse successfully"); the verifier, which recomputes the hash
/// from the string's own variant, version, costs and salt, accepts the hashed
/// password; and hashing succeeds when the costs pass `Params::new`, the
/// password has at most 2^32 - 1 bytes (`MAX_PWD_LEN`) and the salt has 8 to
/// 48 bytes (`MIN_SALT_LEN`; 48 bytes fill the 64 B64 characters a salt may
/// have).
#[verifier::external_body]
fn argon2_hash(s: &Argon2Settings, password: &[u8], salt: &[u8]) -> (r: Result<String, String>)
    requires
        s.p_cost * 8 <= u32::MAX,
    ensures
        hash_made(r, *s, password@),
        argon2_params_valid(s.m_cost, s.t_cost, s.p_cost) && password@.len() <= 0xFFFF_FFFF
            && 8 <= salt@.len() <= 48 ==> hash_succeeded(r),
{
    let params = match Params::new(s.m_cost, s.t_cost, s.p_cost, None) { Ok(p) => p, Err(e) => return Err(e.to_string()) };
    let salt = match SaltString::encode_b64(salt) { Ok(v) => v, Err(e) => return Err(e.to_string()) };
    let algorithm = match s.algorithm { Argon2Algorithm::Argon2d => Algorithm::Argon2d, Argon2Algorithm::Argon2i => Algorithm::Argon2i, Argon2Algorithm::Argon2id => Algorithm::Argon2id };
    let version = match s.version { Argon2Version::V0x10 => Version::V0x10, Argon2Version::V0x13 => Version::V0x13 };
    let hasher = Argon2::new(algorithm, version, params);
    match PasswordHasher::hash_password(&hasher, password, &salt) {
        Ok(h) => Ok(h.to_string()),
        Err(e) => Err(e.to_string()),
    }
}

/// The prefix of every hash made with the tuned settings.
pub open spec fn tuned_phc_prefix() -> Seq<char> {
    "$argon2id$v=19$m=19456,t=2,p=1$"@
}

proof fn lemma_tuned_prefix()
    ensures
        phc_prefix(tuned_settings()) == tuned_phc_prefix(),
{
    reveal_strlit("$argon2id$v=19$m=19456,t=2,p=1$");
    reveal_with_fuel(decimal_text, 6);
    assert(decimal_text(19) =~= seq!['1', '9']);
    assert(decimal_text(19456) =~= seq!['1', '9', '4', '5', '6']);
    assert(phc_prefix(tuned_settings()) =~= tuned_phc_prefix());
}

/// Hashes a password with the tuned Argon2id settings and a fresh random salt,
/// giving its PHC string; a hashing failure is `HashFailed(<reason>)`. A
/// produced string starts with `$argon2id$v=19$m=19456,t=2,p=1$`, parses as a
/// PHC string, and verifies the password it was made from.
pub fn hash_password_blocking(password: &Password) -> (r: Result<String, SecureError>)
    ensures
        r matches Ok(h) ==> phc_parses(h@) && tuned_phc_prefix().is_prefix_of(h@) && argon2_verifies(
            encode_utf8(password@),
            h@,
        ),
        r matches Err(e) ==> e is HashFailed,
        encode_utf8(password@).len() <= 0xFFFF_FFFF ==> r is Ok,
{
    let salt = random_salt();
    let settings = argon2_instance();
    let bytes = password.as_str().as_bytes();
    proof {
        lemma_tuned_prefix();
    }
    match argon2_hash(&settings, bytes, salt.as_slice()) {
        Ok(h) => Ok(h),
        Err(e) => Err(SecureError::HashFailed(e)),
    }
}

/// Whether the hash parser succeeded.
pub open spec fn phc_parsed<'a>(r: Result<argon2::PasswordHash<'a>, argon2::password_hash::Error>) -> bool {
    r is Ok
}

/// `argon2::PasswordHash::new`: parses a PHC string.
///
/// The contract names which texts parse; the PHC grammar is not restated.
#[verifier::external_body]
fn parse_phc<'a>(hash: &'a str) -> (r: Result<argon2::PasswordHash<'a>, argon2::password_hash::Error>)
    ensures
        phc_parsed(r) == phc_parses(hash@),
{
    argon2::PasswordHash::new(hash)
}

/// `PasswordVerifier::verify_password` on the parsed PHC string (parsed with
/// `PasswordHash::new`): whether the password matches.
///
/// The verifier recomputes the hash with the variant, version, costs and salt
/// of the string itself, so the hasher's own settings do not enter the answer
/// and the default hasher is used. A string that does not parse gives `false`.
#[verifier::external_body]
fn argon2_matches(password: &[u8], hash: &str) -> (r: bool)
    ensures
        phc_parses(hash@) ==> r == argon2_verifies(password@, hash@),
{
    match argon2::PasswordHash::new(hash) {
        Ok(parsed) => argon2::PasswordVerifier::verify_password(&argon2::Argon2::default(), password, &parsed).is_ok(),
        Err(_) => false,
    }
}

/// The answer to checking a password against a stored text: `VerifyFailed`
/// when the text is no PHC string, else whether the verifier accepts the
/// password's UTF-8 bytes.
pub open spec fn verify_outcome(password: Seq<char>, hash: Seq<char>) -> Result<bool, SecureError> {
    if phc_parses(hash) {
        Ok(argon2_verifies(encode_utf8(password), hash))
    } else {
        Err(SecureError::VerifyFailed)
    }
}

/// Verifies a password against a stored PHC string. A string that does not
/// parse is `VerifyFailed`; otherwise the answer says whether the password
/// matches.
pub fn verify_password_blocking(password: &Password, hash: &str) -> (r: Result<bool, SecureError>)
    ensures
        r == verify_outcome(password@, hash@),
{
    let parsed = parse_phc(hash);
    match parsed {
        Err(_) => Err(SecureError::VerifyFailed),
        Ok(_) => {
            let ok = argon2_matches(password.as_str().as_bytes(), hash);
            Ok(ok)
        },
    }
}

/// Law: a password verifies against a hash made from it. Whatever
/// `hash_password_blocking` produces for a password, `verify_password_blocking`
/// answers `Ok(true)` for that password and that string.
pub proof fn law_hash_then_verify_round_trip(password: Seq<char>, hash: Seq<char>)
    requires
        phc_parses(hash),
        tuned_phc_prefix().is_prefix_of(hash),
        argon2_verifies(encode_utf8(password), hash),
    ensures
        verify_outcome(password, hash) == Ok::<bool, SecureError>(true),
{
}

} // verus!
