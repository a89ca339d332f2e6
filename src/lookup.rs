//! Resolution of a country identifier or of a full number to a rule of the
//! directory, and validation of a number against a rule.
use vstd::prelude::*;

use crate::iso3166::{directory, iso3166s, lemma_directory_wf, views, CountryRule, ISO3166};
use crate::pattern::{all_ascii, matches_front, remove_prefix, to_upper, upper_of};
use crate::text::{all_digits, char_count, is_digit, join, same_text, starts_with, strip_prefix, trim, trim_text};

verus! {

/// The view of an optional record.
pub open spec fn opt_view(r: Option<ISO3166>) -> Option<CountryRule> {
    match r {
        Some(x) => Some(x@),
        None => None,
    }
}

/// Whether `r` is named by the upper-cased identifier `u`: by its two-letter
/// code when `kind` is 2, by its three-letter code when `kind` is 3, and by
/// its upper-cased full name otherwise.
pub open spec fn names(r: CountryRule, kind: int, u: Seq<char>) -> bool {
    if kind == 2 {
        r.alpha2 == u
    } else if kind == 3 {
        r.alpha3 == u
    } else {
        upper_of(r.country_name) == u
    }
}

/// The first rule of `dir` from position `i` on that `u` names.
pub open spec fn first_named(dir: Seq<CountryRule>, kind: int, u: Seq<char>, i: int) -> Option<
    CountryRule,
>
    decreases dir.len() - i,
{
    if i < 0 || i >= dir.len() {
        None
    } else if names(dir[i], kind, u) {
        Some(dir[i])
    } else {
        first_named(dir, kind, u, i + 1)
    }
}

/// The rule that a country identifier resolves to. The identifier is trimmed
/// and upper-cased; then two characters name a two-letter code, three a
/// three-letter code, five or more a full name, and any other length nothing.
pub open spec fn lookup_identifier(country: Seq<char>) -> Option<CountryRule> {
    let u = upper_of(trim(country));
    if u.len() == 2 || u.len() == 3 || u.len() > 4 {
        first_named(directory(), u.len() as int, u, 0)
    } else {
        None
    }
}

/// `r` accepts national numbers of `n` digits.
pub open spec fn accepts_length(r: CountryRule, n: int) -> bool {
    exists|k: int| 0 <= k < r.phone_number_lengths.len() && #[trigger] r.phone_number_lengths[k] == n
}

/// `national` begins with one of the mobile prefixes of `r`.
pub open spec fn has_mobile_prefix(r: CountryRule, national: Seq<char>) -> bool {
    exists|j: int|
        0 <= j < r.mobile_begin_with.len() && (#[trigger] r.mobile_begin_with[j]).is_prefix_of(
            national,
        )
}

/// The digit string `d` is a full number of `r`: it begins with the calling
/// code, and what follows has an accepted length and a mobile prefix.
pub open spec fn number_matches(r: CountryRule, d: Seq<char>) -> bool {
    let national = d.skip(r.country_code.len() as int);
    &&& r.country_code.is_prefix_of(d)
    &&& accepts_length(r, national.len() as int)
    &&& has_mobile_prefix(r, national)
}

/// The first rule of `dir` from position `i` on of which `d` is a full number.
pub open spec fn first_matching(dir: Seq<CountryRule>, d: Seq<char>, i: int) -> Option<CountryRule>
    decreases dir.len() - i,
{
    if i < 0 || i >= dir.len() {
        None
    } else if number_matches(dir[i], d) {
        Some(dir[i])
    } else {
        first_matching(dir, d, i + 1)
    }
}

/// The rule that a full digit string resolves to.
pub open spec fn lookup_number(d: Seq<char>) -> Option<CountryRule> {
    first_matching(directory(), d, 0)
}

/// `d` validates against `r`: once the calling code is removed from its front
/// (where it stands there), it has an accepted length and a mobile prefix.
pub open spec fn valid_for(d: Seq<char>, r: CountryRule) -> bool {
    let national = strip_prefix(d, r.country_code);
    accepts_length(r, national.len() as int) && has_mobile_prefix(r, national)
}

/// What `first_named` returns is a rule of `dir` that `u` names.
pub proof fn lemma_first_named_in(dir: Seq<CountryRule>, kind: int, u: Seq<char>, i: int)
    ensures
        first_named(dir, kind, u, i) matches Some(r) ==> names(r, kind, u) && exists|k: int|
            0 <= k < dir.len() && dir[k] == r,
    decreases dir.len() - i,
{
    if 0 <= i < dir.len() && !names(dir[i], kind, u) {
        lemma_first_named_in(dir, kind, u, i + 1);
    }
}

/// What `first_matching` returns is a rule of `dir` that `d` matches; and it
/// returns one whenever a rule from position `i` on matches.
pub proof fn lemma_first_matching(dir: Seq<CountryRule>, d: Seq<char>, i: int)
    ensures
        first_matching(dir, d, i) matches Some(r) ==> number_matches(r, d) && exists|k: int|
            0 <= k < dir.len() && dir[k] == r,
        (exists|k: int| 0 <= i <= k < dir.len() && number_matches(#[trigger] dir[k], d))
            ==> first_matching(dir, d, i) is Some,
    decreases dir.len() - i,
{
    if 0 <= i < dir.len() && !number_matches(dir[i], d) {
        lemma_first_matching(dir, d, i + 1);
        if exists|k: int| 0 <= i <= k < dir.len() && number_matches(#[trigger] dir[k], d) {
            let k = choose|k: int| 0 <= i <= k < dir.len() && number_matches(#[trigger] dir[k], d);
            assert(k != i);
        }
    }
}

/// With the code at the front of `d`, `d` begins with the code and `m`
/// exactly when the rest of `d` begins with `m`.
pub proof fn lemma_prefix_split(d: Seq<char>, code: Seq<char>, m: Seq<char>)
    requires
        code.is_prefix_of(d),
    ensures
        (code + m).is_prefix_of(d) == m.is_prefix_of(d.skip(code.len() as int)),
{
    let rest = d.skip(code.len() as int);
    if (code + m).is_prefix_of(d) {
        assert forall|t: int| 0 <= t < m.len() implies m[t] == rest.subrange(0, m.len() as int)[t] by {
            assert((code + m)[code.len() + t] == d[code.len() + t]);
        }
        assert(m =~= rest.subrange(0, m.len() as int));
    }
    if m.is_prefix_of(rest) {
        assert forall|t: int| 0 <= t < (code + m).len() implies (code + m)[t] == d.subrange(
            0,
            (code + m).len() as int,
        )[t] by {
            if t >= code.len() {
                assert(m[t - code.len()] == rest[t - code.len()]);
            } else {
                assert(code[t] == d.subrange(0, code.len() as int)[t]);
            }
        }
        assert((code + m) =~= d.subrange(0, (code + m).len() as int));
    }
}

/// Whether `lengths` holds `n`.
pub fn contains_length(lengths: &Vec<usize>, n: usize) -> (r: bool)
    ensures
        r == exists|k: int| 0 <= k < lengths@.len() && #[trigger] lengths@[k] == n,
{
    let mut k: usize = 0;
    while k < lengths.len()
        invariant
            k <= lengths@.len(),
            forall|t: int| 0 <= t < k ==> lengths@[t] != n,
        decreases lengths@.len() - k,
    {
        if lengths[k] == n {
            return true;
        }
        k = k + 1;
    }
    false
}

/// Whether `national` begins with one of `prefixes`.
fn has_prefix_among(prefixes: &Vec<&'static str>, national: &str) -> (r: bool)
    ensures
        r == exists|j: int|
            0 <= j < prefixes@.len() && (#[trigger] prefixes@[j])@.is_prefix_of(national@),
{
    let mut j: usize = 0;
    while j < prefixes.len()
        invariant
            j <= prefixes@.len(),
            forall|t: int| 0 <= t < j ==> !(#[trigger] prefixes@[t])@.is_prefix_of(national@),
        decreases prefixes@.len() - j,
    {
        if starts_with(national, prefixes[j]) {
            return true;
        }
        j = j + 1;
    }
    false
}

/// Resolves a country identifier to its rule: the identifier is trimmed and
/// upper-cased, then, by the length of that upper-cased form, compared with
/// the two-letter codes (two characters),
/// the three-letter codes (three) or the upper-cased full names (five or
/// more). The first rule of the directory that matches is returned.
pub fn get_iso3166_by_country(country: &str) -> (r: Option<ISO3166>)
    ensures
        opt_view(r) == lookup_identifier(country@),
        r matches Some(x) ==> x@.wf(),
        upper_of(trim(country@)).len() == 4 || upper_of(trim(country@)).len() < 2 ==> r is None,
        all_ascii(trim(country@)) && (trim(country@).len() == 4 || trim(country@).len() < 2)
            ==> r is None,
{
    let c = trim_text(country);
    let u = to_upper(c);
    let n = char_count(u.as_str());
    if !(n == 2 || n == 3 || n > 4) {
        return None;
    }
    let mut dir = iso3166s();
    let ghost kind = n as int;
    proof {
        lemma_directory_wf();
    }
    let mut i: usize = 0;
    while i < dir.len()
        invariant
            views(dir@) == directory(),
            i <= dir@.len(),
            n == u@.len(),
            c@ == trim(country@),
            all_ascii(c@) ==> u@.len() == c@.len(),
            u@ == upper_of(c@),
            kind == n,
            lookup_identifier(country@) == first_named(directory(), kind, u@, i as int),
            forall|t: int| 0 <= t < directory().len() ==> (#[trigger] directory()[t]).wf(),
        decreases dir@.len() - i,
    {
        let found = if n == 2 {
            same_text(dir[i].alpha2, u.as_str())
        } else if n == 3 {
            same_text(dir[i].alpha3, u.as_str())
        } else {
            let name = to_upper(dir[i].country_name);
            same_text(name.as_str(), u.as_str())
        };
        assert(directory()[i as int] == dir@[i as int]@);
        if found {
            let x = dir.remove(i);
            return Some(x);
        }
        i = i + 1;
    }
    None
}

/// Resolves a digit string to the first rule of the directory of which it is
/// a full number: it begins with the rule's calling code, the rest has an
/// accepted length, and it begins with the calling code followed by one of
/// the rule's mobile prefixes.
pub fn get_iso3166_by_number(number: &str) -> (r: Option<ISO3166>)
    ensures
        opt_view(r) == lookup_number(number@),
        r matches Some(x) ==> x@.wf(),
{
    let mut dir = iso3166s();
    let len = char_count(number);
    proof {
        lemma_directory_wf();
    }
    let mut i: usize = 0;
    while i < dir.len()
        invariant
            views(dir@) == directory(),
            i <= dir@.len(),
            len == number@.len(),
            lookup_number(number@) == first_matching(directory(), number@, i as int),
            forall|t: int| 0 <= t < directory().len() ==> (#[trigger] directory()[t]).wf(),
        decreases dir@.len() - i,
    {
        assert(directory()[i as int] == dir@[i as int]@);
        let ghost rule = dir@[i as int]@;
        let ghost national = number@.skip(rule.country_code.len() as int);
        let code = dir[i].country_code;
        let lengths = &dir[i].phone_number_lengths;
        let prefixes = &dir[i].mobile_begin_with;
        let mut found = false;
        let mut k: usize = 0;
        while k < lengths.len() && !found
            invariant
                rule == dir@[i as int]@,
                rule.wf(),
                code@ == rule.country_code,
                lengths@ == rule.phone_number_lengths,
                prefixes@.map_values(|p: &'static str| p@) == rule.mobile_begin_with,
                national == number@.skip(rule.country_code.len() as int),
                len == number@.len(),
                k <= lengths@.len(),
                found == number_matches(rule, number@) || !found && forall|t: int|
                    0 <= t < k ==> !(rule.country_code.is_prefix_of(number@) && #[trigger] lengths@[t]
                        == national.len() && has_mobile_prefix(rule, national)),
            decreases lengths@.len() - k + if found { 0int } else { 1int },
        {
            if starts_with(number, code) && len == char_count(code) + lengths[k] {
                let mut j: usize = 0;
                while j < prefixes.len() && !found
                    invariant
                        rule == dir@[i as int]@,
                        rule.wf(),
                        code@ == rule.country_code,
                        lengths@ == rule.phone_number_lengths,
                        prefixes@.map_values(|p: &'static str| p@) == rule.mobile_begin_with,
                        national == number@.skip(rule.country_code.len() as int),
                        rule.country_code.is_prefix_of(number@),
                        k < lengths@.len(),
                        lengths@[k as int] == national.len(),
                        j <= prefixes@.len(),
                        found == number_matches(rule, number@) || !found && forall|t: int|
                            0 <= t < j ==> !(#[trigger] rule.mobile_begin_with[t]).is_prefix_of(
                                national,
                            ),
                    decreases prefixes@.len() - j + if found { 0int } else { 1int },
                {
                    let ghost m = rule.mobile_begin_with[j as int];
                    assert(m == prefixes@[j as int]@);
                    proof {
                        assert(all_digits(m) && m.len() <= 8);
                        assert forall|t: int| 0 <= t < (code@ + m).len() implies is_digit(
                            #[trigger] (code@ + m)[t],
                        ) by {
                            if t >= code@.len() {
                                assert((code@ + m)[t] == m[t - code@.len()]);
                            } else {
                                assert((code@ + m)[t] == code@[t]);
                            }
                        }
                    }
                    let pattern = join(code, prefixes[j]);
                    proof {
                        lemma_prefix_split(number@, rule.country_code, m);
                    }
                    if matches_front(number, pattern.as_str()) {
                        found = true;
                    }
                    j = j + 1;
                }
                proof {
                    if !found {
                        assert(!has_mobile_prefix(rule, national));
                    }
                }
            }
            k = k + 1;
        }
        if found {
            let x = dir.remove(i);
            return Some(x);
        }
        i = i + 1;
    }
    None
}

/// Whether `number` validates against `iso3166`: a rule without accepted
/// lengths validates nothing; otherwise the calling code is removed from the
/// front of `number` where it stands there, and what is left must have an
/// accepted length and begin with one of the mobile prefixes. The calling
/// code must be ASCII digits; it is matched as a regex pattern, and its bound
/// of 64 characters is the limit on the size of that pattern.
pub fn validate_phone_iso3166(number: &str, iso3166: &ISO3166) -> (r: bool)
    requires
        all_digits(iso3166@.country_code),
        iso3166@.country_code.len() <= 64,
    ensures
        r == valid_for(number@, iso3166@),
{
    if iso3166.phone_number_lengths.len() == 0 {
        return false;
    }
    let national = remove_prefix(number, iso3166.country_code);
    let n = char_count(national.as_str());
    let mut k: usize = 0;
    while k < iso3166.phone_number_lengths.len()
        invariant
            national@ == strip_prefix(number@, iso3166@.country_code),
            n == national@.len(),
            k <= iso3166@.phone_number_lengths.len(),
            forall|t: int|
                0 <= t < k ==> #[trigger] iso3166@.phone_number_lengths[t] == n ==> !has_mobile_prefix(
                    iso3166@,
                    national@,
                ),
        decreases iso3166@.phone_number_lengths.len() - k,
    {
        if iso3166.phone_number_lengths[k] == n {
            if has_prefix_among(&iso3166.mobile_begin_with, national.as_str()) {
                proof {
                    let j = choose|j: int|
                        0 <= j < iso3166.mobile_begin_with@.len()
                            && (#[trigger] iso3166.mobile_begin_with@[j])@.is_prefix_of(national@);
                    assert(iso3166@.mobile_begin_with[j] == iso3166.mobile_begin_with@[j]@);
                }
                return true;
            } else {
                proof {
                    assert forall|j: int| 0 <= j < iso3166@.mobile_begin_with.len() implies !(
                    #[trigger] iso3166@.mobile_begin_with[j]).is_prefix_of(national@) by {
                        assert(iso3166@.mobile_begin_with[j] == iso3166.mobile_begin_with@[j]@);
                    }
                }
            }
        }
        k = k + 1;
    }
    false
}

} // verus!
