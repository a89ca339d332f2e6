//! Normalisation and validation of phone numbers against a table of
//! per-country dialing rules. `parse` turns a number written in any common
//! way into `+<calling code><national number>`, or rejects it.
use vstd::prelude::*;

pub mod iso3166;
pub mod laws;
pub mod lookup;
pub mod normalize;
pub mod pattern;
pub mod text;

pub use crate::iso3166::{iso3166s, CountryRule, ISO3166};
pub use crate::lookup::{get_iso3166_by_country, get_iso3166_by_number, validate_phone_iso3166};
pub use crate::normalize::{strip_leading_zeros, strip_russian_trunk_prefix};

use crate::lookup::{
    accepts_length, contains_length, lookup_identifier, lookup_number, valid_for,
};
use crate::normalize::{trunk_stripped, zeros_stripped};
use crate::pattern::remove_non_digits;
use crate::text::{char_count, digits_only, join, trim, trim_text};

verus! {

/// The one error of `parse`: the number is not a valid phone number, for
/// whatever reason (unknown country, no rule for the digits, or digits that
/// fail validation).
#[derive(Debug, Clone, Copy, PartialEq, Eq)]
pub struct NotValidPhoneNumberError;

impl NotValidPhoneNumberError {
    /// The message that describes the error.
    pub fn message(&self) -> (r: String)
        ensures
            r@ == "It is not a valid phone number"@,
    {
        String::from_str("It is not a valid phone number")
    }
}

/// The trimmed number begins with a plus sign.
pub open spec fn has_plus_sign(number: Seq<char>) -> bool {
    let n = trim(number);
    n.len() > 0 && n[0] == '+'
}

/// What `parse` returns for `number` and `country`: the canonical form, or
/// `None` for the error.
pub open spec fn parse_spec(number: Seq<char>, country: Seq<char>) -> Option<Seq<char>> {
    let d0 = digits_only(trim(number));
    match lookup_identifier(country) {
        None => None,
        Some(rule) => {
            let d = trunk_stripped(zeros_stripped(d0, rule), rule);
            if has_plus_sign(number) {
                match lookup_number(d) {
                    None => None,
                    Some(found) => if valid_for(d, found) {
                        Some(seq!['+'] + d)
                    } else {
                        None
                    },
                }
            } else {
                let full = if accepts_length(rule, d.len() as int) {
                    rule.country_code + d
                } else {
                    d
                };
                if valid_for(full, rule) {
                    Some(seq!['+'] + full)
                } else {
                    None
                }
            }
        },
    }
}

/// Normalises and validates `number` for `country` (a two-letter code, a
/// three-letter code or a full name). Non-digits are dropped, leading zeros
/// and Russia's trunk prefix are removed, and the calling code is put in
/// front of a bare national number. A number written with a leading `+` is
/// resolved by its own calling code instead of `country`. The result is `+`
/// followed by the calling code and the national number.
pub fn parse(number: &str, country: &str) -> (r: Result<String, NotValidPhoneNumberError>)
    ensures
        match r {
            Ok(s) => parse_spec(number@, country@) == Some(s@),
            Err(_) => parse_spec(number@, country@) is None,
        },
{
    proof {
        reveal_strlit("+");
        assert("+"@ =~= seq!['+']);
    }
    let trimmed = trim_text(number);
    let has_plus = char_count(trimmed) > 0 && trimmed.get_char(0) == '+';
    let digits = remove_non_digits(trimmed);
    let rule = match get_iso3166_by_country(country) {
        Some(rule) => rule,
        None => return Err(NotValidPhoneNumberError),
    };
    let digits = strip_leading_zeros(digits.as_str(), &rule);
    let digits = strip_russian_trunk_prefix(digits.as_str(), &rule);
    if has_plus {
        match get_iso3166_by_number(digits.as_str()) {
            None => Err(NotValidPhoneNumberError),
            Some(found) => {
                if validate_phone_iso3166(digits.as_str(), &found) {
                    Ok(join("+", digits.as_str()))
                } else {
                    Err(NotValidPhoneNumberError)
                }
            },
        }
    } else {
        let full = if contains_length(&rule.phone_number_lengths, char_count(digits.as_str())) {
            join(rule.country_code, digits.as_str())
        } else {
            digits
        };
        if validate_phone_iso3166(full.as_str(), &rule) {
            Ok(join("+", full.as_str()))
        } else {
            Err(NotValidPhoneNumberError)
        }
    }
}

} // verus!
