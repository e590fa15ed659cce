//! Random identifiers.
use vstd::prelude::*;

use crate::text::is_ascii_digit;

verus! {

/// `c` is a lower-case hexadecimal digit.
pub open spec fn is_lower_hex(c: char) -> bool {
    is_ascii_digit(c) || ('a' <= c && c <= 'f')
}

/// `s` is a UUID in hyphenated lower-case form, version 4 with the RFC 4122
/// variant (`xxxxxxxx-xxxx-4xxx-Nxxx-xxxxxxxxxxxx`, `N` one of `8`, `9`,
/// `a`, `b`).
pub open spec fn is_uuid_v4_text(s: Seq<char>) -> bool {
    &&& s.len() == 36
    &&& forall|i: int|
        0 <= i < 36 ==> if i == 8 || i == 13 || i == 18 || i == 23 {
            #[trigger] s[i] == '-'
        } else {
            is_lower_hex(s[i])
        }
    &&& s[14] == '4'
    &&& (s[19] == '8' || s[19] == '9' || s[19] == 'a' || s[19] == 'b')
}

/// A fresh random UUID in hyphenated form
/// (`uuid::Uuid::new_v4().to_string()`). The value is random; only its
/// shape is claimed.
#[verifier::external_body]
pub(crate) fn new_uuid_v4() -> (s: String)
    ensures
        is_uuid_v4_text(s@),
{
    uuid::Uuid::new_v4().to_string()
}

} // verus!
