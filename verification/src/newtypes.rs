//! Validated wrappers for identifiers and user input.
//!
//! Every external input is wrapped at the boundary; construction returns a
//! `Result` whose error says which rule the input broke.
use vstd::prelude::*;
use vstd::string::*;
use crate::error::{SecureError, join2};
use crate::ids::{
    new_v4_uuid, is_v4_uuid, uuid_text, uuid_to_text, parse_uuid_text, uuid_parse_result,
    lemma_uuid_text_starts_with_hex_digit,
};
use crate::text::{
    trim, trimmed, to_lowercase, unicode_lowercase, char_is_alphanumeric, unicode_alphanumeric,
    find_char, ascii_lower_char,
};

verus! {

/// A validated user identifier (record ID such as `user:<ulid>`).
#[derive(Debug, Clone, PartialEq, Eq, Hash)]
pub struct UserId(String);

impl View for UserId {
    type V = Seq<char>;

    closed spec fn view(&self) -> Seq<char> {
        self.0@
    }
}

impl UserId {
    /// Creates a [`UserId`] from a raw string; the string must not be empty.
    pub fn new(raw: &str) -> (r: Result<UserId, SecureError>)
        ensures
            raw@.len() > 0 <==> r is Ok,
            r matches Ok(id) ==> id@ == raw@,
            r matches Err(e) ==> e matches SecureError::InvalidUsername(m) && m@
                == "user ID cannot be empty"@,
    {
        if raw.is_empty() {
            return Err(SecureError::InvalidUsername(String::from_str("user ID cannot be empty")));
        }
        Ok(UserId(String::from_str(raw)))
    }

    /// The inner string.
    pub fn as_str(&self) -> (r: &str)
        ensures
            r@ == self@,
    {
        self.0.as_str()
    }

    /// The text that `Display` prints: the identifier itself.
    pub fn to_string(&self) -> (r: String)
        ensures
            r@ == self@,
    {
        String::from_str(self.0.as_str())
    }
}

/// A unique token identifier (the JWT `jti` claim): a random UUID.
#[derive(Debug, Clone, Copy, PartialEq, Eq, Hash)]
pub struct TokenId(u128);

impl View for TokenId {
    type V = u128;

    closed spec fn view(&self) -> u128 {
        self.0
    }
}

impl TokenId {
    /// Generates a new random [`TokenId`] (a version 4 UUID).
    pub fn new() -> (r: TokenId)
        ensures
            is_v4_uuid(r@),
    {
        TokenId(new_v4_uuid())
    }

    /// The UUID value.
    pub fn as_u128(&self) -> (r: u128)
        ensures
            r == self@,
    {
        self.0
    }

    /// The hyphenated lower-case UUID text that `Display` prints.
    pub fn to_string(&self) -> (r: String)
        ensures
            r@ == uuid_text(self@),
    {
        uuid_to_text(self.0)
    }
}

impl Default for TokenId {
    /// A fresh random identifier.
    fn default() -> (r: TokenId)
        ensures
            is_v4_uuid(r@),
    {
        TokenId::new()
    }
}

/// The characters left after removing every leading repetition of `prefix`
/// (what `str::trim_start_matches` keeps for a non-empty literal prefix).
pub open spec fn strip_all_prefix(s: Seq<char>, prefix: Seq<char>) -> Seq<char>
    decreases s.len(),
{
    if prefix.len() > 0 && prefix.len() <= s.len() && s.subrange(0, prefix.len() as int) == prefix {
        strip_all_prefix(s.subrange(prefix.len() as int, s.len() as int), prefix)
    } else {
        s
    }
}

/// Whether `s` starts with `prefix`.
pub fn starts_with(s: &str, prefix: &str) -> (r: bool)
    ensures
        r == (prefix@.len() <= s@.len() && s@.subrange(0, prefix@.len() as int) == prefix@),
{
    let n = s.unicode_len();
    let m = prefix.unicode_len();
    if m > n {
        return false;
    }
    let mut i: usize = 0;
    while i < m
        invariant
            n == s@.len(),
            m == prefix@.len(),
            m <= n,
            i <= m,
            forall|j: int| 0 <= j < i ==> s@[j] == prefix@[j],
        decreases m - i,
    {
        if s.get_char(i) != prefix.get_char(i) {
            assert(s@.subrange(0, m as int)[i as int] != prefix@[i as int]);
            return false;
        }
        i = i + 1;
    }
    assert(s@.subrange(0, m as int) =~= prefix@);
    true
}

/// `str::trim_start_matches` with a string prefix: removes the prefix as many times
/// as it repeats at the start.
pub fn trim_start_matches<'a>(s: &'a str, prefix: &str) -> (r: &'a str)
    ensures
        r@ == strip_all_prefix(s@, prefix@),
{
    let m = prefix.unicode_len();
    if m == 0 {
        return s;
    }
    let mut rest = s;
    while starts_with(rest, prefix)
        invariant
            m == prefix@.len(),
            m > 0,
            strip_all_prefix(rest@, prefix@) == strip_all_prefix(s@, prefix@),
        decreases rest@.len(),
    {
        let n = rest.unicode_len();
        rest = rest.substring_char(m, n);
    }
    rest
}

/// Removing every leading `session:` from a session's record ID leaves the
/// UUID's text.
proof fn lemma_session_record_text(u: u128)
    ensures
        strip_all_prefix("session:"@ + uuid_text(u), "session:"@) == uuid_text(u),
{
    reveal_strlit("session:");
    let p = "session:"@;
    let t = uuid_text(u);
    let s = p + t;
    assert(s.subrange(0, p.len() as int) =~= p);
    assert(s.subrange(p.len() as int, s.len() as int) =~= t);
    lemma_uuid_text_starts_with_hex_digit(u);
    assert(p[0] == 's');
    if p.len() <= t.len() {
        assert(t.subrange(0, p.len() as int)[0] == t[0]);
        assert(t.subrange(0, p.len() as int) != p);
    }
    assert(strip_all_prefix(t, p) == t);
    assert(strip_all_prefix(s, p) == strip_all_prefix(t, p));
}

/// A unique session identifier: a UUID.
#[derive(Debug, Clone, Copy, PartialEq, Eq, Hash)]
pub struct SessionId(u128);

impl View for SessionId {
    type V = u128;

    closed spec fn view(&self) -> u128 {
        self.0
    }
}

impl SessionId {
    /// Generates a new random [`SessionId`] (a version 4 UUID).
    pub fn new() -> (r: SessionId)
        ensures
            is_v4_uuid(r@),
    {
        SessionId(new_v4_uuid())
    }

    /// A session identifier with the given UUID value.
    pub fn from_u128(value: u128) -> (r: SessionId)
        ensures
            r@ == value,
    {
        SessionId(value)
    }

    /// Parses a raw session ID, with or without the `session:` record prefix.
    ///
    /// Every leading `session:` is removed and the rest must parse as a UUID;
    /// otherwise the error is `InvalidInput("Invalid session ID: <raw>")`.
    pub fn new_with_raw(raw: &str) -> (r: Result<SessionId, SecureError>)
        ensures
            uuid_parse_result(strip_all_prefix(raw@, "session:"@)) matches Ok(u) ==> (r
                matches Ok(id) && id@ == u),
            uuid_parse_result(strip_all_prefix(raw@, "session:"@)) is Err ==> (r matches Err(e)
                && e matches SecureError::InvalidInput(m) && m@ == "Invalid session ID: "@ + raw@),
            forall|u: u128| raw@ == "session:"@ + uuid_text(u) ==> (r matches Ok(id) && id@ == u),
    {
        proof {
            assert forall|u: u128| raw@ == "session:"@ + uuid_text(u) implies strip_all_prefix(
                raw@,
                "session:"@,
            ) == uuid_text(u) by {
                lemma_session_record_text(u);
            }
        }
        let rest = trim_start_matches(raw, "session:");
        match parse_uuid_text(rest) {
            Ok(u) => Ok(SessionId(u)),
            Err(_) => Err(SecureError::InvalidInput(join2("Invalid session ID: ", raw))),
        }
    }

    /// The UUID value.
    pub fn as_u128(&self) -> (r: u128)
        ensures
            r == self@,
    {
        self.0
    }

    /// The record ID form: `session:` followed by the hyphenated UUID.
    pub fn to_record_id_string(&self) -> (r: String)
        ensures
            r@ == "session:"@ + uuid_text(self@),
    {
        let t = uuid_to_text(self.0);
        String::from_str("session:").concat(t.as_str())
    }

    /// The hyphenated lower-case UUID text that `Display` prints.
    pub fn to_string(&self) -> (r: String)
        ensures
            r@ == uuid_text(self@),
    {
        uuid_to_text(self.0)
    }
}

impl Default for SessionId {
    /// A fresh random identifier.
    fn default() -> (r: SessionId)
        ensures
            is_v4_uuid(r@),
    {
        SessionId::new()
    }
}

/// A validated planet name (e.g. `earth`, `jupiter`), stored in lower case.
#[derive(Debug, Clone, PartialEq, Eq, Hash)]
pub struct Planet(String);

impl View for Planet {
    type V = Seq<char>;

    closed spec fn view(&self) -> Seq<char> {
        self.0@
    }
}

/// The JWT audience value for a planet name.
pub open spec fn audience_of(name: Seq<char>) -> Seq<char> {
    "sakaloka:"@ + name
}

impl Planet {
    /// Creates a [`Planet`]; the name must not be empty and is lower-cased.
    pub fn new(name: &str) -> (r: Result<Planet, SecureError>)
        ensures
            name@.len() > 0 <==> r is Ok,
            r matches Ok(p) ==> p@ == unicode_lowercase(name@),
            r is Ok && vstd::utf8::is_ascii_chars(name@) ==> unicode_lowercase(name@)
                == name@.map_values(|c: char| ascii_lower_char(c)),
            r matches Err(e) ==> e matches SecureError::InvalidUsername(m) && m@
                == "planet name cannot be empty"@,
    {
        if name.is_empty() {
            return Err(
                SecureError::InvalidUsername(String::from_str("planet name cannot be empty")),
            );
        }
        Ok(Planet(to_lowercase(name)))
    }

    /// The JWT audience string for this planet: `sakaloka:<name>`.
    pub fn audience(&self) -> (r: String)
        ensures
            r@ == audience_of(self@),
    {
        String::from_str("sakaloka:").concat(self.0.as_str())
    }

    /// The planet name.
    pub fn as_str(&self) -> (r: &str)
        ensures
            r@ == self@,
    {
        self.0.as_str()
    }

    /// The text that `Display` prints.
    pub fn to_string(&self) -> (r: String)
        ensures
            r@ == self@,
    {
        String::from_str(self.0.as_str())
    }
}

/// A validated, non-empty service name.
#[derive(Debug, Clone, PartialEq, Eq, Hash)]
pub struct ServiceName(String);

impl View for ServiceName {
    type V = Seq<char>;

    closed spec fn view(&self) -> Seq<char> {
        self.0@
    }
}

impl ServiceName {
    /// Creates a [`ServiceName`]; the name must not be empty.
    pub fn new(name: &str) -> (r: Result<ServiceName, SecureError>)
        ensures
            name@.len() > 0 <==> r is Ok,
            r matches Ok(n) ==> n@ == name@,
            r matches Err(e) ==> e matches SecureError::InvalidUsername(m) && m@
                == "service name cannot be empty"@,
    {
        if name.is_empty() {
            return Err(
                SecureError::InvalidUsername(String::from_str("service name cannot be empty")),
            );
        }
        Ok(ServiceName(String::from_str(name)))
    }

    /// The service name.
    pub fn as_str(&self) -> (r: &str)
        ensures
            r@ == self@,
    {
        self.0.as_str()
    }

    /// The text that `Display` prints.
    pub fn to_string(&self) -> (r: String)
        ensures
            r@ == self@,
    {
        String::from_str(self.0.as_str())
    }
}

/// `s` has exactly one `@`, at index `k`.
pub open spec fn only_at_sign_at(s: Seq<char>, k: int) -> bool {
    &&& 0 <= k < s.len()
    &&& s[k] == '@'
    &&& forall|i: int| 0 <= i < s.len() && i != k ==> s[i] != '@'
}

/// The accepted email shape: exactly one `@`, a non-empty local part, and a
/// non-empty domain part that contains a `.`.
pub open spec fn is_email_shape(s: Seq<char>) -> bool {
    exists|k: int|
        #![trigger s[k]]
        only_at_sign_at(s, k) && 0 < k && k + 1 < s.len() && s.subrange(k + 1, s.len() as int).contains(
            '.',
        )
}

/// The normalized form of an email input: trimmed, then lower-cased.
pub open spec fn normalized_email(raw: Seq<char>) -> Seq<char> {
    unicode_lowercase(trimmed(raw))
}

/// Checks the email shape of a text.
pub fn check_email_shape(s: &str) -> (r: bool)
    ensures
        r == is_email_shape(s@),
{
    let n = s.unicode_len();
    match find_char(s, 0, '@') {
        None => {
            return false;
        },
        Some(k) => {
            match find_char(s, k + 1, '@') {
                Some(k2) => {
                    assert(!only_at_sign_at(s@, k as int));
                    assert forall|j: int| #![trigger s@[j]] !(only_at_sign_at(s@, j)) by {
                        if only_at_sign_at(s@, j) {
                            assert(j == k as int);
                        }
                    }
                    return false;
                },
                None => {
                    assert(only_at_sign_at(s@, k as int));
                    if k == 0 || k + 1 >= n {
                        assert forall|j: int| #![trigger s@[j]] only_at_sign_at(s@, j) implies j
                            == k by {
                            if j != k as int {
                                assert(s@[k as int] == '@');
                            }
                        }
                        return false;
                    }
                    let dom = s.substring_char(k + 1, n);
                    match find_char(dom, 0, '.') {
                        Some(d) => {
                            assert(dom@[d as int] == '.');
                            assert(s@.subrange(k + 1, s@.len() as int).contains('.'));
                            assert(s@[k as int] == '@');
                            return true;
                        },
                        None => {
                            assert forall|j: int| #![trigger s@[j]] only_at_sign_at(s@, j) implies j
                                == k by {
                                if j != k as int {
                                    assert(s@[k as int] == '@');
                                }
                            }
                            assert(!s@.subrange(k + 1, s@.len() as int).contains('.'));
                            return false;
                        },
                    }
                },
            }
        },
    }
}

/// A validated email address, stored in normalized (lower-case) form.
#[derive(Debug, Clone, PartialEq, Eq, Hash)]
pub struct EmailAddress(String);

impl View for EmailAddress {
    type V = Seq<char>;

    closed spec fn view(&self) -> Seq<char> {
        self.0@
    }
}

impl EmailAddress {
    /// Parses and validates an email address.
    ///
    /// The input is trimmed and lower-cased; the result must contain exactly one
    /// `@` with a non-empty local part and a non-empty domain containing a `.`.
    /// Otherwise the error is `InvalidEmail(raw)`.
    pub fn new(raw: &str) -> (r: Result<EmailAddress, SecureError>)
        ensures
            is_email_shape(normalized_email(raw@)) <==> r is Ok,
            r matches Ok(e) ==> e@ == normalized_email(raw@),
            vstd::utf8::is_ascii_chars(trimmed(raw@)) ==> normalized_email(raw@) == trimmed(
                raw@,
            ).map_values(|c: char| ascii_lower_char(c)),
            r matches Err(e) ==> e matches SecureError::InvalidEmail(m) && m@ == raw@,
    {
        let lower = to_lowercase(trim(raw));
        if !check_email_shape(lower.as_str()) {
            return Err(SecureError::InvalidEmail(String::from_str(raw)));
        }
        Ok(EmailAddress(lower))
    }

    /// The normalized email text.
    pub fn as_str(&self) -> (r: &str)
        ensures
            r@ == self@,
    {
        self.0.as_str()
    }

    /// The text that `Display` prints.
    pub fn to_string(&self) -> (r: String)
        ensures
            r@ == self@,
    {
        String::from_str(self.0.as_str())
    }
}

/// Characters a username may hold: letters, digits, `_` and `-`.
pub open spec fn is_username_char(c: char) -> bool {
    unicode_alphanumeric(c) || c == '_' || c == '-'
}

/// Which rule a username input breaks, if any.
pub enum UsernameRule {
    /// Shorter than 3 characters after trimming.
    TooShort,
    /// Longer than 64 characters after trimming.
    TooLong,
    /// Holds a character other than a letter, digit, `_` or `-`.
    BadCharacter,
}

/// The rule that a username input breaks: the trimmed text must be between 3
/// and 64 characters long and every character a letter, digit, `_` or `-`.
pub open spec fn username_violation(raw: Seq<char>) -> Option<UsernameRule> {
    let t = trimmed(raw);
    if t.len() < 3 {
        Some(UsernameRule::TooShort)
    } else if t.len() > 64 {
        Some(UsernameRule::TooLong)
    } else if exists|i: int| 0 <= i < t.len() && !is_username_char(#[trigger] t[i]) {
        Some(UsernameRule::BadCharacter)
    } else {
        None
    }
}

/// A validated username (3 to 64 characters, each a letter, digit, `_` or `-`).
#[derive(Debug, Clone, PartialEq, Eq, Hash)]
pub struct Username(String);

impl View for Username {
    type V = Seq<char>;

    closed spec fn view(&self) -> Seq<char> {
        self.0@
    }
}

impl Username {
    /// Creates a validated [`Username`] from the trimmed input.
    pub fn new(raw: &str) -> (r: Result<Username, SecureError>)
        ensures
            username_violation(raw@) is None <==> r is Ok,
            r matches Ok(u) ==> u@ == trimmed(raw@),
            username_violation(raw@) matches Some(UsernameRule::TooShort) ==> (r matches Err(e)
                && e matches SecureError::InvalidUsername(m) && m@
                == "username must be at least 3 characters"@),
            username_violation(raw@) matches Some(UsernameRule::TooLong) ==> (r matches Err(e)
                && e matches SecureError::InvalidUsername(m) && m@
                == "username must be at most 64 characters"@),
            username_violation(raw@) matches Some(UsernameRule::BadCharacter) ==> (r matches Err(e)
                && e matches SecureError::InvalidUsername(m) && m@
                == "username may only contain letters, digits, _ and -"@),
    {
        let t = trim(raw);
        let n = t.unicode_len();
        if n < 3 {
            return Err(
                SecureError::InvalidUsername(
                    String::from_str("username must be at least 3 characters"),
                ),
            );
        }
        if n > 64 {
            return Err(
                SecureError::InvalidUsername(
                    String::from_str("username must be at most 64 characters"),
                ),
            );
        }
        let mut i: usize = 0;
        while i < n
            invariant
                n == t@.len(),
                i <= n,
                t@ == trimmed(raw@),
                3 <= t@.len() <= 64,
                forall|j: int| 0 <= j < i ==> is_username_char(#[trigger] t@[j]),
            decreases n - i,
        {
            let c = t.get_char(i);
            if !(char_is_alphanumeric(c) || c == '_' || c == '-') {
                assert(!is_username_char(t@[i as int]));
                return Err(
                    SecureError::InvalidUsername(
                        String::from_str("username may only contain letters, digits, _ and -"),
                    ),
                );
            }
            i = i + 1;
        }
        Ok(Username(String::from_str(t)))
    }

    /// The validated username.
    pub fn as_str(&self) -> (r: &str)
        ensures
            r@ == self@,
    {
        self.0.as_str()
    }

    /// The text that `Display` prints.
    pub fn to_string(&self) -> (r: String)
        ensures
            r@ == self@,
    {
        String::from_str(self.0.as_str())
    }
}

/// A raw, unverified password of at least 12 characters.
#[derive(Debug)]
pub struct Password(String);

impl View for Password {
    type V = Seq<char>;

    closed spec fn view(&self) -> Seq<char> {
        self.0@
    }
}

impl Password {
    /// Creates a [`Password`]; it must be at least 12 characters long.
    pub fn new(raw: &str) -> (r: Result<Password, SecureError>)
        ensures
            raw@.len() >= 12 <==> r is Ok,
            r matches Ok(p) ==> p@ == raw@,
            r matches Err(e) ==> e matches SecureError::InvalidPassword(m) && m@
                == "password must be at least 12 characters"@,
    {
        if raw.unicode_len() < 12 {
            return Err(
                SecureError::InvalidPassword(
                    String::from_str("password must be at least 12 characters"),
                ),
            );
        }
        Ok(Password(String::from_str(raw)))
    }

    /// The raw password, for hashing only.
    pub fn as_str(&self) -> (r: &str)
        ensures
            r@ == self@,
    {
        self.0.as_str()
    }
}

/// Law: an accepted username holds only letters, digits, `_` and `-`, and is
/// 3 to 64 characters long after trimming; any such text is accepted. A text
/// with any other character (such as `.` or a space inside) is refused.
pub proof fn law_usernames_are_letters_digits_underscores_hyphens(raw: Seq<char>)
    ensures
        username_violation(raw) is None <==> (3 <= trimmed(raw).len() <= 64 && forall|i: int|
            0 <= i < trimmed(raw).len() ==> unicode_alphanumeric(#[trigger] trimmed(raw)[i])
                || trimmed(raw)[i] == '_' || trimmed(raw)[i] == '-'),
        (exists|i: int| 0 <= i < trimmed(raw).len() && !unicode_alphanumeric(#[trigger] trimmed(raw)[i])
            && trimmed(raw)[i] != '_' && trimmed(raw)[i] != '-') ==> username_violation(raw) is Some,
{
}

} // verus!
