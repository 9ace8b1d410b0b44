//! UUID values as plain 128-bit integers: generation, parsing and text form.
use vstd::prelude::*;
use vstd::string::*;
use crate::text::{hex_char, hex_digit_str};

verus! {

/// The `i`-th hex digit (0 = most significant) of a UUID's 128-bit value.
pub open spec fn uuid_nibble(u: u128, i: int) -> int {
    ((u >> ((124 - 4 * i) as u32)) & 0xf) as int
}

/// The 32 lower-case hex digits of a UUID, most significant first.
pub open spec fn uuid_hex(u: u128) -> Seq<char> {
    Seq::new(32, |i: int| hex_char(uuid_nibble(u, i)))
}

/// The first `i` digits of `hex` with a hyphen before digits 8, 12, 16 and 20.
pub open spec fn hyphenated_prefix(hex: Seq<char>, i: int) -> Seq<char>
    decreases i,
{
    if i <= 0 {
        seq![]
    } else {
        let sep: Seq<char> = if i - 1 == 8 || i - 1 == 12 || i - 1 == 16 || i - 1 == 20 {
            seq!['-']
        } else {
            seq![]
        };
        hyphenated_prefix(hex, i - 1) + sep + seq![hex[i - 1]]
    }
}

/// The hyphenated lower-case text of a UUID (`8-4-4-4-12` hex digits), which is
/// what the `uuid` crate's `Display` prints.
pub open spec fn uuid_text(u: u128) -> Seq<char> {
    hyphenated_prefix(uuid_hex(u), 32)
}

/// The version and variant bits that a random (version 4) UUID carries.
pub open spec fn is_v4_uuid(u: u128) -> bool {
    u & 0xF000_C000_0000_0000_0000u128 == 0x4000_8000_0000_0000_0000u128
}

proof fn lemma_hyphenated_first(hex: Seq<char>, i: int)
    requires
        1 <= i,
    ensures
        hyphenated_prefix(hex, i).len() >= 1,
        hyphenated_prefix(hex, i)[0] == hex[0],
    decreases i,
{
    let sep: Seq<char> = if i - 1 == 8 || i - 1 == 12 || i - 1 == 16 || i - 1 == 20 {
        seq!['-']
    } else {
        seq![]
    };
    let prev = hyphenated_prefix(hex, i - 1);
    assert(hyphenated_prefix(hex, i) == prev + sep + seq![hex[i - 1]]);
    if i > 1 {
        lemma_hyphenated_first(hex, i - 1);
        assert((prev + sep + seq![hex[i - 1]])[0] == prev[0]);
    } else {
        assert(prev =~= seq![]);
        assert(prev + sep + seq![hex[i - 1]] =~= seq![hex[0]]);
    }
}

/// The text of a UUID starts with a lower-case hex digit.
pub proof fn lemma_uuid_text_starts_with_hex_digit(u: u128)
    ensures
        uuid_text(u).len() >= 1,
        ('0' <= uuid_text(u)[0] <= '9') || ('a' <= uuid_text(u)[0] <= 'f'),
{
    lemma_hyphenated_first(uuid_hex(u), 32);
    let x = (u >> 124u32) & 0xf;
    assert(x < 16) by (bit_vector)
        requires
            x == (u >> 124u32) & 0xf,
    ;
    assert(uuid_nibble(u, 0) == x as int);
}

/// Formats a UUID value in its hyphenated lower-case form.
pub fn uuid_to_text(u: u128) -> (r: String)
    ensures
        r@ == uuid_text(u),
{
    proof {
        reveal_strlit("");
        reveal_strlit("-");
    }
    let mut r = String::from_str("");
    let mut i: usize = 0;
    while i < 32
        invariant
            i <= 32,
            r@ == hyphenated_prefix(uuid_hex(u), i as int),
        decreases 32 - i,
    {
        let ghost before = r@;
        if i == 8 || i == 12 || i == 16 || i == 20 {
            r = r.concat("-");
            proof {
                reveal_strlit("-");
            }
            assert("-"@ =~= seq!['-']);
        }
        let ghost with_sep = r@;
        let sh: u32 = (124 - 4 * i) as u32;
        let x: u128 = (u >> sh) & 0xf;
        assert(x < 16) by (bit_vector)
            requires
                x == (u >> sh) & 0xf,
        ;
        let d: u8 = x as u8;
        let h = hex_digit_str(d);
        r = r.concat(h);
        proof {
            assert(uuid_nibble(u, i as int) == x as int);
            assert(uuid_hex(u)[i as int] == hex_char(d as int));
            let hex = uuid_hex(u);
            let k = (i + 1) as int;
            let sep: Seq<char> = if k - 1 == 8 || k - 1 == 12 || k - 1 == 16 || k - 1 == 20 {
                seq!['-']
            } else {
                seq![]
            };
            assert(with_sep =~= before + sep);
            assert(hyphenated_prefix(hex, k) == hyphenated_prefix(hex, k - 1) + sep + seq![hex[k - 1]]);
            assert(r@ =~= hyphenated_prefix(hex, k));
        }
        i = i + 1;
    }
    r
}

/// What `uuid::Uuid::parse_str` returns for a text: the UUID's 128-bit value, or
/// the text of the parse error.
pub uninterp spec fn uuid_parse_result(s: Seq<char>) -> Result<u128, Seq<char>>;

/// A parsed UUID value, or the text of the parse error.
pub type UuidParse = Result<u128, String>;

/// The plain value of a parse outcome.
pub open spec fn parse_outcome(r: UuidParse) -> Result<u128, Seq<char>> {
    match r {
        Ok(u) => Ok(u),
        Err(e) => Err(e@),
    }
}

/// The successful parse of a value.
pub open spec fn parsed_uuid(u: u128) -> Result<u128, Seq<char>> {
    Ok(u)
}

/// `uuid::Uuid::parse_str` followed by `Uuid::as_u128` (or the error's text).
///
/// The contract names the parser's result and states the one case that the
/// parser's source plainly shows: the hyphenated lower-case text of a value parses
/// back to that value. Which other spellings (simple, braced, URN, upper case) are
/// accepted, and the wording of the errors, are not restated.
#[verifier::external_body]
pub(crate) fn parse_uuid_text(s: &str) -> (r: UuidParse)
    ensures
        parse_outcome(r) == uuid_parse_result(s@),
        forall|u: u128| s@ == uuid_text(u) ==> parse_outcome(r) == parsed_uuid(u),
{
    match uuid::Uuid::parse_str(s) {
        Ok(u) => Ok(u.as_u128()),
        Err(e) => Err(e.to_string()),
    }
}

/// `uuid::Uuid::new_v4` followed by `Uuid::as_u128`: a fresh random UUID.
///
/// The value is random; the contract states only the version and variant bits
/// that the source always sets.
#[verifier::external_body]
pub(crate) fn new_v4_uuid() -> (r: u128)
    ensures
        is_v4_uuid(r),
{
    uuid::Uuid::new_v4().as_u128()
}

} // verus!
