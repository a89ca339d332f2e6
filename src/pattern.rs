//! The pattern matching and case mapping that the rules rely on, each a thin
//! call into the `regex` crate or std with its contract.
use vstd::prelude::*;

use crate::text::{all_digits, digits_only, strip_prefix, strip_run};

verus! {

/// The upper-case form that `str::to_uppercase` gives for `s`.
pub uninterp spec fn upper_of(s: Seq<char>) -> Seq<char>;

/// The ASCII upper-case form of one character.
pub open spec fn ascii_upper_char(c: char) -> char {
    if 'a' <= c && c <= 'z' {
        ((c as u32) - 32) as char
    } else {
        c
    }
}

/// Every character of `s` is ASCII.
pub open spec fn all_ascii(s: Seq<char>) -> bool {
    forall|i: int| 0 <= i < s.len() ==> (#[trigger] s[i] as u32) < 128
}

/// Relies on `str::to_uppercase`: the result depends on the characters alone,
/// and on ASCII text it maps `a`..`z` to `A`..`Z` and keeps every other character.
#[verifier::external_body]
pub(crate) fn to_upper(s: &str) -> (r: String)
    ensures
        r@ == upper_of(s@),
        all_ascii(s@) ==> r@ == s@.map_values(|c: char| ascii_upper_char(c)),
{
    s.to_uppercase()
}

/// Relies on `regex::Regex::replace_all` with the class `[^0-9]`: every
/// character that is not an ASCII digit is removed.
#[verifier::external_body]
pub(crate) fn remove_non_digits(s: &str) -> (r: String)
    ensures
        r@ == digits_only(s@),
{
    regex::Regex::new("[^0-9]").unwrap().replace_all(s, "").into_owned()
}

/// Relies on `regex::Regex::replace_all` with the anchored pattern
/// `^(?:p)+`: the whole leading run of repetitions of the digit string `p` is
/// removed. A short digit string holds no pattern syntax, so `Regex::new`
/// accepts the pattern.
#[verifier::external_body]
pub(crate) fn remove_leading_run(s: &str, p: &str) -> (r: String)
    requires
        all_digits(p@),
        1 <= p@.len() <= 64,
    ensures
        r@ == strip_run(s@, p@),
{
    regex::Regex::new(&format!("^(?:{})+", p)).unwrap().replace_all(s, "").into_owned()
}

/// Relies on `regex::Regex::replace_all` with the anchored pattern `^p`: the
/// digit string `p` is removed from the front of `s` where it stands there.
#[verifier::external_body]
pub(crate) fn remove_prefix(s: &str, p: &str) -> (r: String)
    requires
        all_digits(p@),
        p@.len() <= 64,
    ensures
        r@ == strip_prefix(s@, p@),
{
    regex::Regex::new(&format!("^{}", p)).unwrap().replace_all(s, "").into_owned()
}

/// Relies on `regex::Regex::is_match` with the anchored pattern `^p`: true
/// exactly when `s` begins with the digit string `p`.
#[verifier::external_body]
pub(crate) fn matches_front(s: &str, p: &str) -> (r: bool)
    requires
        all_digits(p@),
        p@.len() <= 64,
    ensures
        r == p@.is_prefix_of(s@),
{
    regex::Regex::new(&format!("^{}", p)).unwrap().is_match(s)
}

} // verus!
