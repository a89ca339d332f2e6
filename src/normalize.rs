//! The normalisation steps applied to the digits of a number before it is
//! resolved and validated.
use vstd::prelude::*;

use crate::iso3166::{CountryRule, ISO3166};
use crate::pattern::{matches_front, remove_leading_run};
use crate::text::{char_count, same_text, strip_run};

verus! {

/// The territories whose national numbers keep their leading zeros:
/// Gabon, Côte d'Ivoire and Congo.
pub open spec fn keeps_leading_zeros(r: CountryRule) -> bool {
    r.alpha3 == "GAB"@ || r.alpha3 == "CIV"@ || r.alpha3 == "COG"@
}

/// Russia's domestic trunk prefix applies to `d`: an eleven-digit string
/// that begins with `89`.
pub open spec fn trunk_applies(r: CountryRule, d: Seq<char>) -> bool {
    r.alpha3 == "RUS"@ && d.len() == 11 && "89"@.is_prefix_of(d)
}

/// `d` after the leading-zero step for `r`.
pub open spec fn zeros_stripped(d: Seq<char>, r: CountryRule) -> Seq<char> {
    if keeps_leading_zeros(r) {
        d
    } else {
        strip_run(d, "0"@)
    }
}

/// `d` after the trunk-prefix step for `r`.
pub open spec fn trunk_stripped(d: Seq<char>, r: CountryRule) -> Seq<char> {
    if trunk_applies(r, d) {
        strip_run(d, "8"@)
    } else {
        d
    }
}

/// What `strip_run` leaves never begins with the text it removes.
pub proof fn lemma_strip_run_done(s: Seq<char>, p: Seq<char>)
    requires
        p.len() > 0,
    ensures
        !p.is_prefix_of(strip_run(s, p)),
        strip_run(s, p).len() <= s.len(),
    decreases s.len(),
{
    if p.is_prefix_of(s) {
        lemma_strip_run_done(s.skip(p.len() as int), p);
    }
}

/// A text that does not begin with `p` is left as it is by `strip_run`.
pub proof fn lemma_strip_run_noop(s: Seq<char>, p: Seq<char>)
    requires
        !p.is_prefix_of(s),
    ensures
        strip_run(s, p) == s,
{
}

/// Removes the leading zeros of `digits`, except for the territories whose
/// numbers keep them (Gabon, Côte d'Ivoire, Congo), where `digits` is
/// returned unchanged.
pub fn strip_leading_zeros(digits: &str, rule: &ISO3166) -> (r: String)
    ensures
        r@ == zeros_stripped(digits@, rule@),
        keeps_leading_zeros(rule@) ==> r@ == digits@,
        !keeps_leading_zeros(rule@) ==> !(r@.len() > 0 && r@[0] == '0'),
{
    proof {
        reveal_strlit("0");
        lemma_strip_run_done(digits@, "0"@);
    }
    let keep = same_text(rule.alpha3, "GAB") || same_text(rule.alpha3, "CIV") || same_text(
        rule.alpha3,
        "COG",
    );
    if keep {
        String::from_str(digits)
    } else {
        let r = remove_leading_run(digits, "0");
        proof {
            if r@.len() > 0 && r@[0] == '0' {
                assert("0"@ =~= r@.subrange(0, 1));
            }
        }
        r
    }
}

/// For Russia, collapses an eleven-digit string that begins with `89` by
/// removing its leading `8`s (the domestic trunk prefix); any other input is
/// returned unchanged.
pub fn strip_russian_trunk_prefix(digits: &str, rule: &ISO3166) -> (r: String)
    ensures
        r@ == trunk_stripped(digits@, rule@),
        trunk_applies(rule@, digits@) ==> r@ == digits@.skip(1) && r@.len() == 10,
        !trunk_applies(rule@, digits@) ==> r@ == digits@,
{
    proof {
        reveal_strlit("89");
        reveal_strlit("8");
    }
    if same_text(rule.alpha3, "RUS") && char_count(digits) == 11 && matches_front(digits, "89") {
        let r = remove_leading_run(digits, "8");
        proof {
            assert("8"@ =~= digits@.subrange(0, 1));
            let rest = digits@.skip(1);
            assert(digits@.subrange(0, 2)[1] == "89"@[1]);
            assert(rest[0] == digits@[1]);
            assert(rest[0] == '9');
            if "8"@.is_prefix_of(rest) {
                assert(rest.subrange(0, 1)[0] == rest[0]);
            }
            lemma_strip_run_noop(rest, "8"@);
            assert(strip_run(digits@, "8"@) == strip_run(rest, "8"@));
        }
        r
    } else {
        String::from_str(digits)
    }
}

} // verus!
