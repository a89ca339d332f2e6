//! Properties that relate several calls of the library.
use vstd::prelude::*;

use crate::iso3166::{directory, lemma_directory_wf, CountryRule};
use crate::lookup::{
    accepts_length, has_mobile_prefix, lemma_first_matching, lemma_first_named_in,
    lookup_identifier, lookup_number, number_matches, valid_for,
};
use crate::normalize::{keeps_leading_zeros, lemma_strip_run_noop, trunk_applies, trunk_stripped, zeros_stripped};
use crate::{has_plus_sign, parse_spec};
use crate::text::{
    all_digits, digits_only, is_digit, lemma_digits_only_is_digits, lemma_digits_only_of_digits,
    lemma_trim_unchanged, strip_prefix, strip_run, trim,
};

verus! {

/// A digit string keeps only digits under `strip_run`.
proof fn lemma_strip_run_digits(s: Seq<char>, p: Seq<char>)
    requires
        all_digits(s),
    ensures
        all_digits(strip_run(s, p)),
    decreases s.len(),
{
    if p.len() > 0 && p.is_prefix_of(s) {
        let t = s.skip(p.len() as int);
        assert forall|i: int| 0 <= i < t.len() implies is_digit(#[trigger] t[i]) by {
            assert(t[i] == s[i + p.len()]);
        }
        lemma_strip_run_digits(t, p);
    }
}

/// The rule that an identifier resolves to is a well-formed rule of the
/// directory.
proof fn lemma_identified_wf(country: Seq<char>)
    ensures
        lookup_identifier(country) matches Some(r) ==> r.wf() && exists|k: int|
            0 <= k < directory().len() && directory()[k] == r,
{
    lemma_directory_wf();
    let u = crate::pattern::upper_of(trim(country));
    lemma_first_named_in(directory(), u.len() as int, u, 0);
}

/// A full number of a rule validates against that rule.
proof fn lemma_matches_valid(r: CountryRule, d: Seq<char>)
    requires
        number_matches(r, d),
    ensures
        valid_for(d, r),
{
}

/// A digit string that begins with the calling code of a well-formed rule is
/// left as it is by the leading-zero and trunk-prefix steps of any rule.
proof fn lemma_steps_keep(body: Seq<char>, code: Seq<char>, rule: CountryRule)
    requires
        code.is_prefix_of(body),
        all_digits(code),
        1 <= code.len(),
        code[0] != '0',
        code[0] == '8' ==> code.len() >= 2 && code[1] != '9',
    ensures
        zeros_stripped(body, rule) == body,
        trunk_stripped(body, rule) == body,
{
    reveal_strlit("0");
    reveal_strlit("89");
    assert(body[0] == code[0]);
    if "0"@.is_prefix_of(body) {
        assert(body.subrange(0, 1)[0] == body[0]);
    }
    lemma_strip_run_noop(body, "0"@);
    if "89"@.is_prefix_of(body) {
        assert(body.subrange(0, 2)[0] == body[0]);
        assert(body.subrange(0, 2)[1] == body[1]);
        assert(body[1] == code[1]);
    }
}

/// The plus-sign form of a digit string is read back as that digit string.
proof fn lemma_plus_form(body: Seq<char>)
    requires
        all_digits(body),
        body.len() > 0,
    ensures
        trim(seq!['+'] + body) == seq!['+'] + body,
        digits_only(seq!['+'] + body) == body,
{
    let out = seq!['+'] + body;
    assert(out.last() == body[body.len() - 1]);
    assert(is_digit(body[body.len() - 1]));
    lemma_trim_unchanged(out);
    assert(out.drop_first() =~= body);
    lemma_digits_only_of_digits(body);
}

/// Parsing is idempotent: feeding a result of `parse` back to `parse` with the
/// same country gives that result again. The result starts with `+`, so it is
/// resolved by its own calling code.
pub proof fn lemma_parse_idempotent(number: Seq<char>, country: Seq<char>)
    requires
        parse_spec(number, country) is Some,
    ensures
        parse_spec(parse_spec(number, country)->0, country) == parse_spec(number, country),
{
    lemma_directory_wf();
    lemma_identified_wf(country);
    let rule = lookup_identifier(country)->0;
    let d0 = digits_only(trim(number));
    lemma_digits_only_is_digits(trim(number));
    let d1 = zeros_stripped(d0, rule);
    lemma_strip_run_digits(d0, "0"@);
    let d = trunk_stripped(d1, rule);
    lemma_strip_run_digits(d1, "8"@);
    lemma_first_matching(directory(), d, 0);
    let body = if has_plus_sign(number) {
        d
    } else if accepts_length(rule, d.len() as int) {
        rule.country_code + d
    } else {
        d
    };
    let found = if has_plus_sign(number) {
        lookup_number(d)->0
    } else {
        rule
    };
    assert(parse_spec(number, country) == Some(seq!['+'] + body));
    assert(found.wf());
    assert(found.country_code.is_prefix_of(body)) by {
        if !has_plus_sign(number) && accepts_length(rule, d.len() as int) {
            assert(rule.country_code =~= body.subrange(0, rule.country_code.len() as int));
        }
    }
    assert(all_digits(body)) by {
        if !has_plus_sign(number) && accepts_length(rule, d.len() as int) {
            assert forall|i: int| 0 <= i < body.len() implies is_digit(#[trigger] body[i]) by {
                if i < rule.country_code.len() {
                    assert(body[i] == rule.country_code[i]);
                } else {
                    assert(body[i] == d[i - rule.country_code.len()]);
                }
            }
        }
    }
    assert(number_matches(found, body)) by {
        assert(strip_prefix(body, found.country_code) == body.skip(found.country_code.len() as int));
    }
    let out = seq!['+'] + body;
    lemma_plus_form(body);
    assert(has_plus_sign(out));
    lemma_steps_keep(body, found.country_code, rule);
    assert(exists|k: int| 0 <= k < directory().len() && directory()[k] == found);
    let k = choose|k: int| 0 <= k < directory().len() && directory()[k] == found;
    assert(number_matches(directory()[k], body));
    lemma_first_matching(directory(), body, 0);
    let again = lookup_number(body)->0;
    lemma_matches_valid(again, body);
}

/// A national number made of the mobile prefix `p` followed by `1`s up to
/// `l` digits.
pub open spec fn national_example(p: Seq<char>, l: int) -> Seq<char> {
    p + Seq::new((l - p.len()) as nat, |i: int| '1')
}

/// For a country identifier that resolves to a rule with an accepted length
/// `l` and a mobile prefix `p` no longer than `l`, the national number of `l`
/// digits that begins with `p` parses to `+`, the calling code and that
/// number. Left out are a prefix that begins with `0` outside the territories
/// that keep leading zeros, and a number that Russia's trunk rule collapses.
pub proof fn lemma_national_number_parses(country: Seq<char>, k: int, j: int)
    requires
        lookup_identifier(country) matches Some(r) && 0 <= k < r.phone_number_lengths.len() && 0
            <= j < r.mobile_begin_with.len() && r.mobile_begin_with[j].len()
            <= r.phone_number_lengths[k] && (r.mobile_begin_with[j].len() > 0
            && r.mobile_begin_with[j][0] == '0' ==> keeps_leading_zeros(r)) && !trunk_applies(
            r,
            national_example(r.mobile_begin_with[j], r.phone_number_lengths[k] as int),
        ),
    ensures
        ({
            let r = lookup_identifier(country)->0;
            let d = national_example(r.mobile_begin_with[j], r.phone_number_lengths[k] as int);
            parse_spec(d, country) == Some(seq!['+'] + r.country_code + d)
        }),
{
    lemma_identified_wf(country);
    let r = lookup_identifier(country)->0;
    let p = r.mobile_begin_with[j];
    let l = r.phone_number_lengths[k] as int;
    let d = national_example(p, l);
    assert(all_digits(p));
    assert(d.len() == l);
    assert(all_digits(d)) by {
        assert forall|i: int| 0 <= i < d.len() implies is_digit(#[trigger] d[i]) by {
            if i < p.len() {
                assert(d[i] == p[i]);
            } else {
                assert(d[i] == '1');
            }
        }
    }
    if d.len() > 0 {
        assert(is_digit(d[0]) && is_digit(d.last()));
        lemma_trim_unchanged(d);
    } else {
        assert(trim(d) == d);
    }
    lemma_digits_only_of_digits(d);
    assert(!has_plus_sign(d));
    reveal_strlit("0");
    if !keeps_leading_zeros(r) && "0"@.is_prefix_of(d) {
        assert(d.subrange(0, 1)[0] == d[0]);
        if p.len() > 0 {
            assert(d[0] == p[0]);
        } else {
            assert(d[0] == '1');
        }
    }
    if !keeps_leading_zeros(r) {
        lemma_strip_run_noop(d, "0"@);
    }
    assert(zeros_stripped(d, r) == d);
    assert(accepts_length(r, d.len() as int));
    let full = r.country_code + d;
    assert(r.country_code =~= full.subrange(0, r.country_code.len() as int));
    assert(strip_prefix(full, r.country_code) =~= d);
    assert(p =~= d.subrange(0, p.len() as int));
    assert(has_mobile_prefix(r, d));
    assert(seq!['+'] + r.country_code + d =~= seq!['+'] + full);
}

/// An identifier that resolves to no rule makes `parse` fail, whatever the
/// number.
pub proof fn lemma_unknown_country_fails(number: Seq<char>, country: Seq<char>)
    requires
        lookup_identifier(country) is None,
    ensures
        parse_spec(number, country) is None,
{
}

} // verus!
