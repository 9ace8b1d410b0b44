//! Refresh-token rotation with reuse detection, the JTI blocklist verdict, and
//! the cache of service tokens per target planet.
use vstd::prelude::*;
use vstd::string::*;
use crate::error::SecureError;
use crate::newtypes::{SessionId, TokenId};
use crate::ids::uuid_text;
use crate::text::{hex_lower, to_hex_lower, str_equal};

verus! {

/// What SHA-256 yields for a byte string.
pub uninterp spec fn sha256_digest(data: Seq<u8>) -> Seq<u8>;

/// `sha2::Sha256::digest`, the SHA-256 digest of a byte string.
///
/// The contract names the digest and states its documented size (32 bytes); the
/// compression function is not restated.
#[verifier::external_body]
fn sha256(data: &[u8]) -> (r: Vec<u8>)
    ensures
        r@ == sha256_digest(data@),
        r@.len() == 32,
{
    <sha2::Sha256 as sha2::Digest>::digest(data).to_vec()
}

/// The stored form of a refresh token: the lower-case hex SHA-256 digest of
/// its UTF-8 bytes, 64 characters long.
pub fn hash_refresh_token(token: &str) -> (r: String)
    ensures
        r@ == hex_lower(sha256_digest(vstd::utf8::encode_utf8(token@))),
        r@.len() == 64,
{
    let digest = sha256(token.as_bytes());
    to_hex_lower(digest.as_slice())
}

/// The verdict on a token ID given whether the blocklist holds it: a
/// blocklisted ID is a reused token.
pub fn jti_verdict(blocked: bool) -> (r: Result<(), SecureError>)
    ensures
        blocked ==> r == Err::<(), SecureError>(SecureError::TokenReused),
        !blocked ==> r is Ok,
{
    if blocked {
        Err(SecureError::TokenReused)
    } else {
        Ok(())
    }
}

/// Metadata of a stored refresh token.
#[derive(Debug, Clone)]
pub struct RefreshTokenRecord {
    /// Associated session ID.
    pub session_id: SessionId,
    /// Unix timestamp when this token expires.
    pub expires_at: u64,
    /// Unix timestamp when this token was rotated, if it was.
    pub rotated_at: Option<u64>,
}

/// The lifetime of a refresh token issued by a rotation: seven days.
pub const REFRESH_ROTATION_TTL_SECS: u64 = 604_800;

/// What a rotation does once the stored record of the presented token has been
/// looked up.
#[derive(Debug, Clone)]
pub enum RotationStep {
    /// Refuse the rotation with this error.
    Refuse(SecureError),
    /// The token was already rotated: terminate this session, then refuse with
    /// `TokenReused`.
    TerminateSession(SessionId),
    /// Store the rotation: mark the old hash rotated and store the new hash
    /// for the session with this expiry; then answer with the new token.
    Rotate {
        /// The session the tokens belong to.
        session_id: SessionId,
        /// Expiry of the new token.
        expires_at: u64,
    },
}

/// The rotation decision for a looked-up record and the clock reading.
///
/// An unknown token is refused as `JwtDecode("Invalid refresh token")`; a token
/// rotated before ends its session; a clock error is refused as
/// `SyncPoisoned(<clock error>)`; a token whose expiry lies before now is
/// refused as `TokenExpired`; any other token is rotated, the new one living
/// seven days from now.
pub fn rotation_step(record: &Option<RefreshTokenRecord>, now: &Result<u64, String>) -> (r:
    RotationStep)
    requires
        now matches Ok(t) ==> t + 604_800 <= u64::MAX,
    ensures
        record is None ==> (r matches RotationStep::Refuse(SecureError::JwtDecode(m)) && m@
            == "Invalid refresh token"@),
        record matches Some(rec) ==> (rec.rotated_at is Some ==> r
            == RotationStep::TerminateSession(rec.session_id)),
        record matches Some(rec) ==> (rec.rotated_at is None ==> match *now {
            Err(e) => r matches RotationStep::Refuse(SecureError::SyncPoisoned(m)) && m@ == e@,
            Ok(t) => if rec.expires_at < t {
                r matches RotationStep::Refuse(SecureError::TokenExpired)
            } else {
                r == RotationStep::Rotate { session_id: rec.session_id, expires_at: (t + 604_800) as u64 }
            },
        }),
{
    match record {
        None => RotationStep::Refuse(SecureError::JwtDecode(String::from_str("Invalid refresh token"))),
        Some(rec) => {
            if rec.rotated_at.is_some() {
                return RotationStep::TerminateSession(rec.session_id);
            }
            match now {
                Err(e) => RotationStep::Refuse(SecureError::SyncPoisoned(String::from_str(e.as_str()))),
                Ok(t) => {
                    if rec.expires_at < *t {
                        RotationStep::Refuse(SecureError::TokenExpired)
                    } else {
                        RotationStep::Rotate { session_id: rec.session_id, expires_at: *t + REFRESH_ROTATION_TTL_SECS }
                    }
                },
            }
        },
    }
}

/// A newly issued refresh token and the hash under which it is stored.
#[derive(Debug, Clone)]
pub struct NewRefreshToken {
    /// The token handed to the client: the text of a fresh token ID.
    pub token: String,
    /// The hash stored in place of the token.
    pub hash: String,
}

/// The refresh token that a rotation hands out for a token ID, with its hash.
pub fn new_refresh_token(id: &TokenId) -> (r: NewRefreshToken)
    ensures
        r.token@ == uuid_text(id@),
        r.hash@ == hex_lower(sha256_digest(vstd::utf8::encode_utf8(r.token@))),
{
    let token = id.to_string();
    let hash = hash_refresh_token(token.as_str());
    NewRefreshToken { token, hash }
}

/// Cached service token entry.
#[derive(Debug, Clone)]
pub struct CachedToken {
    /// The signed JWT string.
    pub token: String,
    /// Unix timestamp when this token expires.
    pub expires_at: u64,
}

/// Seconds before expiry at which a cached service token is no longer handed out.
pub const REFRESH_BUFFER_SECS: u64 = 60;

/// Lifetime of a newly issued service token.
pub const SERVICE_TTL_SECS: u64 = 300;

/// Service tokens cached per target planet.
pub struct TokenCache {
    entries: Vec<(String, CachedToken)>,
}

/// The cache's contents: for each planet name, its token and expiry.
pub open spec fn entries_map(entries: Seq<(String, CachedToken)>) -> Map<Seq<char>, (Seq<char>, u64)>
    decreases entries.len(),
{
    if entries.len() == 0 {
        Map::empty()
    } else {
        let last = entries.last();
        entries_map(entries.drop_last()).insert(last.0@, (last.1.token@, last.1.expires_at))
    }
}

/// No planet name occurs twice.
pub open spec fn distinct_keys(entries: Seq<(String, CachedToken)>) -> bool {
    forall|i: int, j: int| 0 <= i < j < entries.len() ==> (#[trigger] entries[i]).0@ != (#[trigger] entries[j]).0@
}

proof fn lemma_entries_map_at(entries: Seq<(String, CachedToken)>, k: int)
    requires
        distinct_keys(entries),
        0 <= k < entries.len(),
    ensures
        entries_map(entries).contains_key(entries[k].0@),
        entries_map(entries)[entries[k].0@] == (entries[k].1.token@, entries[k].1.expires_at),
    decreases entries.len(),
{
    let last = entries.last();
    if k < entries.len() - 1 {
        lemma_entries_map_at(entries.drop_last(), k);
        assert(entries.drop_last()[k] == entries[k]);
        assert(entries[k].0@ != last.0@);
    }
}

proof fn lemma_entries_map_absent(entries: Seq<(String, CachedToken)>, key: Seq<char>)
    requires
        forall|i: int| 0 <= i < entries.len() ==> (#[trigger] entries[i]).0@ != key,
    ensures
        !entries_map(entries).contains_key(key),
    decreases entries.len(),
{
    if entries.len() > 0 {
        let d = entries.drop_last();
        assert forall|i: int| 0 <= i < d.len() implies (#[trigger] d[i]).0@ != key by {
            assert(d[i] == entries[i]);
        }
        lemma_entries_map_absent(d, key);
    }
}

proof fn lemma_entries_map_update(entries: Seq<(String, CachedToken)>, k: int, e: (String, CachedToken))
    requires
        distinct_keys(entries),
        0 <= k < entries.len(),
        e.0@ == entries[k].0@,
    ensures
        distinct_keys(entries.update(k, e)),
        entries_map(entries.update(k, e)) == entries_map(entries).insert(e.0@, (e.1.token@, e.1.expires_at)),
    decreases entries.len(),
{
    let u = entries.update(k, e);
    if k == entries.len() - 1 {
        assert(u.drop_last() =~= entries.drop_last());
        assert(entries_map(u) =~= entries_map(entries).insert(e.0@, (e.1.token@, e.1.expires_at)));
    } else {
        lemma_entries_map_update(entries.drop_last(), k, e);
        assert(u.drop_last() =~= entries.drop_last().update(k, e));
        assert(entries.last().0@ != e.0@);
        assert(entries_map(u) =~= entries_map(entries).insert(e.0@, (e.1.token@, e.1.expires_at)));
    }
}

/// The token a cache hands out for a planet at time `now`: the cached one while
/// its expiry lies more than 60 seconds ahead.
pub open spec fn fresh_lookup(m: Map<Seq<char>, (Seq<char>, u64)>, planet: Seq<char>, now: u64) -> Option<
    Seq<char>,
> {
    if m.contains_key(planet) && m[planet].1 > now + 60 {
        Some(m[planet].0)
    } else {
        None
    }
}

impl View for TokenCache {
    type V = Map<Seq<char>, (Seq<char>, u64)>;

    closed spec fn view(&self) -> Map<Seq<char>, (Seq<char>, u64)> {
        entries_map(self.entries@)
    }
}

impl TokenCache {
    /// The cache's invariant: one entry per planet.
    pub closed spec fn well_formed(&self) -> bool {
        distinct_keys(self.entries@)
    }

    /// An empty cache.
    pub fn new() -> (r: TokenCache)
        ensures
            r.well_formed(),
            r@ == Map::<Seq<char>, (Seq<char>, u64)>::empty(),
    {
        TokenCache { entries: Vec::new() }
    }

    fn position(&self, planet: &str) -> (r: Option<usize>)
        requires
            self.well_formed(),
        ensures
            match r {
                Some(k) => k < self.entries@.len() && self.entries@[k as int].0@ == planet@,
                None => forall|i: int| 0 <= i < self.entries@.len() ==> (#[trigger] self.entries@[i]).0@ != planet@,
            },
    {
        let mut i: usize = 0;
        while i < self.entries.len()
            invariant
                i <= self.entries@.len(),
                forall|j: int| 0 <= j < i ==> (#[trigger] self.entries@[j]).0@ != planet@,
            decreases self.entries@.len() - i,
        {
            if str_equal(self.entries[i].0.as_str(), planet) {
                return Some(i);
            }
            i = i + 1;
        }
        None
    }

    /// The cached token for a planet if it stays valid for more than 60 more
    /// seconds at time `now`.
    pub fn fresh_token(&self, planet: &str, now: u64) -> (r: Option<String>)
        requires
            self.well_formed(),
            now + 60 <= u64::MAX,
        ensures
            match r {
                Some(t) => fresh_lookup(self@, planet@, now) == Some(t@),
                None => fresh_lookup(self@, planet@, now) is None,
            },
    {
        match self.position(planet) {
            Some(k) => {
                proof {
                    lemma_entries_map_at(self.entries@, k as int);
                }
                let entry = &self.entries[k];
                if entry.1.expires_at > now + REFRESH_BUFFER_SECS {
                    Some(String::from_str(entry.1.token.as_str()))
                } else {
                    None
                }
            },
            None => {
                proof {
                    lemma_entries_map_absent(self.entries@, planet@);
                }
                None
            },
        }
    }

    /// Stores a token for a planet, replacing any earlier one.
    pub fn insert(&mut self, planet: &str, token: String, expires_at: u64)
        requires
            old(self).well_formed(),
        ensures
            final(self).well_formed(),
            final(self)@ == old(self)@.insert(planet@, (token@, expires_at)),
    {
        let e = (String::from_str(planet), CachedToken { token, expires_at });
        match self.position(planet) {
            Some(k) => {
                proof {
                    lemma_entries_map_update(self.entries@, k as int, e);
                }
                self.entries.set(k, e);
            },
            None => {
                let ghost before = self.entries@;
                self.entries.push(e);
                proof {
                    assert(self.entries@.drop_last() =~= before);
                    assert forall|i: int, j: int| 0 <= i < j < self.entries@.len() implies (
                    #[trigger] self.entries@[i]).0@ != (#[trigger] self.entries@[j]).0@ by {
                        if j == before.len() {
                            assert(self.entries@[i] == before[i]);
                        } else {
                            assert(self.entries@[i] == before[i]);
                            assert(self.entries@[j] == before[j]);
                        }
                    }
                }
            },
        }
    }

    /// Stores a token issued at time `now` for a planet; it expires five
    /// minutes later.
    pub fn store_issued(&mut self, planet: &str, token: String, now: u64)
        requires
            old(self).well_formed(),
            now + 300 <= u64::MAX,
        ensures
            final(self).well_formed(),
            final(self)@ == old(self)@.insert(planet@, (token@, (now + 300) as u64)),
    {
        self.insert(planet, token, now + SERVICE_TTL_SECS);
    }
}

/// Law: a token stored at time `now` is handed out for that planet at any time
/// up to 240 seconds later, and storing it changes no other planet's answer.
pub proof fn law_cache_read_after_write(
    m: Map<Seq<char>, (Seq<char>, u64)>,
    planet: Seq<char>,
    token: Seq<char>,
    now: u64,
    later: u64,
    other: Seq<char>,
)
    requires
        now + 300 <= u64::MAX,
        later + 60 < now + 300,
        other != planet,
    ensures
        fresh_lookup(m.insert(planet, (token, (now + 300) as u64)), planet, later) == Some(token),
        fresh_lookup(m.insert(planet, (token, (now + 300) as u64)), other, later) == fresh_lookup(
            m,
            other,
            later,
        ),
{
}

/// Law: a cached token is never handed out within 60 seconds of its expiry.
pub proof fn law_cache_never_hands_out_expiring_tokens(
    m: Map<Seq<char>, (Seq<char>, u64)>,
    planet: Seq<char>,
    now: u64,
)
    requires
        fresh_lookup(m, planet, now) is Some,
    ensures
        m.contains_key(planet),
        m[planet].1 > now + 60,
{
}

} // verus!
