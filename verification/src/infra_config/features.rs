//! Runtime feature flags.
//!
//! A flag named `name` (snake_case) is controlled by the environment variable
//! `APP_FEATURE_<NAME>`. It is enabled when the trimmed value, lower-cased, is
//! exactly `true`, `1` or `yes`; any other value, and an unset variable, leave
//! it disabled.
use vstd::prelude::*;

use crate::text::{
    ascii_lower, ascii_upper, concat2, is_white_space, leading_ws, lemma_leading_ws_at,
    lemma_leading_ws_bound, lemma_trailing_ws_at, lemma_trailing_ws_bound, lemma_trim_idempotent,
    lower_char, str_eq, to_ascii_lowercase, to_ascii_uppercase, trailing_ws, trim, trim_str,
};

verus! {

/// Environment-variable prefix for feature flags.
pub const ENV_PREFIX: &'static str = "APP_FEATURE_";

/// The value of a flag variable counts as "enabled".
pub open spec fn spec_is_truthy(raw: Seq<char>) -> bool {
    let t = ascii_lower(trim(raw));
    t == "true"@ || t == "1"@ || t == "yes"@
}

/// Returns the environment-variable name that controls the given flag: the
/// prefix followed by the ASCII upper-cased name.
pub fn env_var_for(name: &str) -> (r: String)
    ensures
        r@ == "APP_FEATURE_"@ + ascii_upper(name@),
{
    let upper = to_ascii_uppercase(name);
    concat2(ENV_PREFIX, upper.as_str())
}

/// Whether a flag variable's value enables the flag: surrounding white space
/// is ignored, then `true`, `1` or `yes` in any ASCII case.
pub fn is_truthy(raw: &str) -> (r: bool)
    ensures
        r == spec_is_truthy(raw@),
        r <==> (ascii_lower(trim(raw@)) == "true"@ || ascii_lower(trim(raw@)) == "1"@ || ascii_lower(
            trim(raw@),
        ) == "yes"@),
{
    let trimmed = trim_str(raw);
    let lower = to_ascii_lowercase(trimmed.as_str());
    let l = lower.as_str();
    str_eq(l, "true") || str_eq(l, "1") || str_eq(l, "yes")
}

/// Exactly three values enable a flag once trimmed and ASCII lower-cased:
/// `true`, `1` and `yes`. Any other value leaves it disabled; in particular
/// a one-character value enables it only when it is `1`, a two-character
/// value never does (`on`, `ok`), nor does one of five or more characters
/// (`enabled`).
pub proof fn lemma_truthy_values(raw: Seq<char>)
    ensures
        spec_is_truthy(raw) <==> (ascii_lower(trim(raw)) == "true"@ || ascii_lower(trim(raw)) == "1"@
            || ascii_lower(trim(raw)) == "yes"@),
        spec_is_truthy(raw) && ascii_lower(trim(raw)).len() == 1 ==> ascii_lower(trim(raw)) == "1"@,
        spec_is_truthy(raw) ==> ascii_lower(trim(raw)).len() == 1 || ascii_lower(trim(raw)).len() == 3
            || ascii_lower(trim(raw)).len() == 4,
{
    reveal_strlit("true");
    reveal_strlit("1");
    reveal_strlit("yes");
}

/// Whether a flag is enabled, given the value of its variable (`None` when
/// the variable is unset or not Unicode): unset means disabled.
pub fn is_enabled_value(raw: Option<&str>) -> (r: bool)
    ensures
        raw is None ==> !r,
        raw matches Some(v) ==> r == spec_is_truthy(v@),
{
    match raw {
        Some(v) => is_truthy(v),
        None => false,
    }
}

/// Surrounding white space never changes whether a value enables a flag.
pub proof fn lemma_truthy_ignores_surrounding_space(raw: Seq<char>)
    ensures
        spec_is_truthy(trim(raw)) == spec_is_truthy(raw),
{
    lemma_trim_idempotent(raw);
}

/// Upper- and lower-case spellings enable a flag alike.
pub proof fn lemma_truthy_ignores_case(raw: Seq<char>)
    ensures
        spec_is_truthy(ascii_lower(raw)) == spec_is_truthy(raw),
{
    lemma_trim_lower_commute(raw);
    assert(ascii_lower(ascii_lower(trim(raw))) =~= ascii_lower(trim(raw)));
}

proof fn lemma_trim_lower_commute(raw: Seq<char>)
    ensures
        trim(ascii_lower(raw)) == ascii_lower(trim(raw)),
{
    let l = ascii_lower(raw);
    assert forall|i: int| 0 <= i < raw.len() implies is_white_space(#[trigger] l[i]) == is_white_space(raw[i]) by {}
    lemma_leading_ws_bound(raw);
    let a = leading_ws(raw) as int;
    lemma_leading_ws_at(l, a);
    let t = raw.subrange(a, raw.len() as int);
    let tl = l.subrange(a, l.len() as int);
    assert(tl =~= ascii_lower(t));
    lemma_trailing_ws_bound(t);
    let b = trailing_ws(t) as int;
    assert forall|i: int| tl.len() - b <= i < tl.len() implies is_white_space(#[trigger] tl[i]) by {
        assert(tl[i] == lower_char(t[i]));
    }
    if b < tl.len() {
        assert(tl[tl.len() - b - 1] == lower_char(t[t.len() - b - 1]));
    }
    lemma_trailing_ws_at(tl, b);
    assert(trim(l) =~= ascii_lower(trim(raw)));
}

} // verus!
