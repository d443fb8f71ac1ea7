//! Fresh identifiers and timestamps. Both come from outside the library
//! (randomness and the clock), so only their shape is known.

use vstd::prelude::*;
use crate::domain::etag::is_lower_hex_char;

verus! {

/// Whether `s` is the hyphenated lower-case text of a random (version 4) UUID.
pub open spec fn is_uuid_v4_text(s: Seq<char>) -> bool {
    &&& s.len() == 36
    &&& forall|i: int|
        0 <= i < 36 ==> (if i == 8 || i == 13 || i == 18 || i == 23 {
            #[trigger] s[i] == '-'
        } else {
            is_lower_hex_char(s[i])
        })
    &&& s[14] == '4'
    &&& (s[19] == '8' || s[19] == '9' || s[19] == 'a' || s[19] == 'b')
}

/// Whether `c` is a decimal digit.
pub open spec fn is_digit(c: char) -> bool {
    '0' <= c && c <= '9'
}

/// Whether the characters of `s` from `from` up to (not including) `to` are decimal digits.
pub open spec fn digits(s: Seq<char>, from: int, to: int) -> bool {
    forall|i: int| from <= i < to ==> is_digit(#[trigger] s[i])
}

/// Whether `s` starts with a year field of `y` characters, as RFC 3339 text
/// writes it: four digits, or a `+` and at least five digits past year 9999.
pub open spec fn rfc3339_year(s: Seq<char>, y: int) -> bool {
    ||| y == 4 && digits(s, 0, 4)
    ||| y >= 6 && s[0] == '+' && digits(s, 1, y)
}

/// Whether `s` is RFC 3339 text in UTC with a year field of `y` characters
/// and a fraction of the second of `f` characters (none, or a point and
/// three, six or nine digits): `YYYY-MM-DDTHH:MM:SS[.fff]+00:00`.
pub open spec fn rfc3339_layout(s: Seq<char>, y: int, f: int) -> bool {
    &&& rfc3339_year(s, y)
    &&& s.len() == y + 15 + f + 6
    &&& s[y] == '-' && digits(s, y + 1, y + 3)
    &&& s[y + 3] == '-' && digits(s, y + 4, y + 6)
    &&& s[y + 6] == 'T' && digits(s, y + 7, y + 9)
    &&& s[y + 9] == ':' && digits(s, y + 10, y + 12)
    &&& s[y + 12] == ':' && digits(s, y + 13, y + 15)
    &&& (f == 0 || ((f == 4 || f == 7 || f == 10) && s[y + 15] == '.' && digits(s, y + 16, y + 15 + f)))
    &&& s.subrange(s.len() - 6, s.len() as int) == "+00:00"@
}

/// Whether `s` is a time written as RFC 3339 text in UTC.
pub open spec fn is_utc_rfc3339_text(s: Seq<char>) -> bool {
    exists|y: int, f: int| #[trigger] rfc3339_layout(s, y, f)
}

/// Calls `uuid::Uuid::new_v4` and writes the result with `to_string`. The
/// UUID is random: the contract states only the shape of its text, which
/// `uuid`'s hyphenated lower-case formatting gives every version-4 UUID.
/// `new_v4` panics only when the operating system's random source fails,
/// which no argument can rule out.
#[verifier::external_body]
pub(crate) fn new_uuid_v4() -> (id: String)
    ensures
        is_uuid_v4_text(id@),
{
    uuid::Uuid::new_v4().to_string()
}

/// Calls `chrono::Utc::now` and writes the time with `to_rfc3339`. The time
/// depends on the clock, so the contract states only the layout of the text,
/// which `to_rfc3339` writes for every UTC time: date, `T`, time, a fraction
/// of the second when it is not zero, and the offset `+00:00`. `now` panics
/// only when the system clock reads a time before 1970 (or past the years
/// that `chrono` can hold), which no argument can rule out.
#[verifier::external_body]
pub(crate) fn now_rfc3339() -> (now: String)
    ensures
        is_utc_rfc3339_text(now@),
{
    chrono::Utc::now().to_rfc3339()
}

} // verus!
