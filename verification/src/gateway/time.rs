use vstd::prelude::*;

use crate::text::is_ascii_digit;

verus! {

/// A bound on every timestamp, in seconds, that `chrono::DateTime<Utc>` can
/// represent (its latest year is 262142).
pub const MAX_TIMESTAMP: i64 = 8_300_000_000_000;

/// Get current Unix timestamp in seconds (`chrono::Utc::now().timestamp()`).
/// The clock is read, so only the range of every possible outcome is
/// claimed: `Utc::now` returns only for clocks at or after the Unix epoch.
#[verifier::external_body]
pub fn unix_timestamp() -> (t: i64)
    ensures
        0 <= t <= MAX_TIMESTAMP,
{
    chrono::Utc::now().timestamp()
}

/// Get current Unix timestamp in milliseconds
/// (`chrono::Utc::now().timestamp_millis()`); only its range is claimed.
#[verifier::external_body]
pub fn unix_timestamp_millis() -> (t: i64)
    ensures
        0 <= t <= MAX_TIMESTAMP * 1000 + 999,
{
    chrono::Utc::now().timestamp_millis()
}

/// The instant that `chrono::DateTime::parse_from_rfc3339` reads from a
/// text, as Unix seconds and sub-second nanoseconds, or `None` where it
/// refuses the text.
pub uninterp spec fn spec_rfc3339_instant(s: Seq<char>) -> Option<(i64, u32)>;

/// `chrono::DateTime::parse_from_rfc3339`, reduced to the instant's
/// `timestamp()` and `timestamp_subsec_nanos()`. The outcome is named; the
/// nanoseconds stay below two seconds' worth (a leap second reaches past one).
#[verifier::external_body]
pub(crate) fn rfc3339_instant(s: &str) -> (r: Option<(i64, u32)>)
    ensures
        r == spec_rfc3339_instant(s@),
        r matches Some((_, n)) ==> n < 2_000_000_000,
{
    chrono::DateTime::parse_from_rfc3339(s).ok().map(|dt| (dt.timestamp(), dt.timestamp_subsec_nanos()))
}

/// Every character of `s` at positions `lo` up to `hi` is an ASCII digit.
pub open spec fn digits_between(s: Seq<char>, lo: int, hi: int) -> bool {
    forall|i: int| lo <= i < hi ==> is_ascii_digit(#[trigger] s[i])
}

/// `s` is a UTC time written as RFC 3339 with a seconds fraction of `f`
/// characters: the year (four digits, or `+` and at least five digits past
/// year 9999), `-MM-DDTHH:MM:SS`, the fraction (none, or a dot and 3, 6 or 9
/// digits) and the offset `+00:00`.
pub open spec fn is_utc_rfc3339_with(s: Seq<char>, f: int) -> bool {
    let n = s.len() as int;
    let y = n - 21 - f;
    &&& f == 0 || f == 4 || f == 7 || f == 10
    &&& (y == 4 && digits_between(s, 0, 4)) || (y >= 6 && s[0] == '+' && digits_between(s, 1, y))
    &&& s[y] == '-' && digits_between(s, y + 1, y + 3)
    &&& s[y + 3] == '-' && digits_between(s, y + 4, y + 6)
    &&& s[y + 6] == 'T' && digits_between(s, y + 7, y + 9)
    &&& s[y + 9] == ':' && digits_between(s, y + 10, y + 12)
    &&& s[y + 12] == ':' && digits_between(s, y + 13, y + 15)
    &&& f > 0 ==> s[y + 15] == '.' && digits_between(s, y + 16, y + 15 + f)
    &&& s.subrange(n - 6, n) == "+00:00"@
}

/// `s` is a UTC time written as RFC 3339, as `chrono` writes one.
pub open spec fn is_utc_rfc3339_text(s: Seq<char>) -> bool {
    exists|f: int| #[trigger] is_utc_rfc3339_with(s, f)
}

/// The current time as an RFC 3339 text (`chrono::Utc::now().to_rfc3339()`).
/// The value comes from the system clock; only the shape that every clock
/// value is written in is claimed (`Utc::now` returns only for clocks at or
/// after the Unix epoch, so the year is never negative).
#[verifier::external_body]
pub(crate) fn now_rfc3339() -> (s: String)
    ensures
        is_utc_rfc3339_text(s@),
{
    chrono::Utc::now().to_rfc3339()
}

} // verus!
