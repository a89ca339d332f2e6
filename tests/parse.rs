use phone_number_verifier::iso3166::{iso3166_ci, iso3166_jp, iso3166_ru, iso3166_us};
use phone_number_verifier::{
    get_iso3166_by_country, get_iso3166_by_number, parse, strip_leading_zeros,
    strip_russian_trunk_prefix, validate_phone_iso3166, NotValidPhoneNumberError,
};

#[test]
fn test_get_iso3166_by_country() {
    let iso3166 = get_iso3166_by_country("JP");
    match iso3166 {
        Some(jp) => assert!(jp == iso3166_jp()),
        None => panic!("None"),
    }
}

#[test]
fn test_parse() {
    let iso3166 = parse("090 0000 0000", "jp");
    match iso3166 {
        Ok(jp) => assert_eq!("+819000000000", jp),
        Err(err) => panic!("{:?}", err),
    }
    let iso3166 = parse("892 3456 7890", "ru");
    match iso3166 {
        Ok(ru) => assert_eq!("+79234567890", ru),
        Err(err) => panic!("{:?}", err),
    }
}

#[test]
fn plus_sign_overrides_country() {
    assert_eq!(parse("+819000000000", "us"), Ok("+819000000000".to_string()));
    assert_eq!(parse(" +81 90-0000-0000 ", "jp"), Ok("+819000000000".to_string()));
    assert_eq!(parse("+1 (201) 555-0123", "jp"), Ok("+12015550123".to_string()));
}

#[test]
fn plus_sign_without_matching_rule_fails() {
    assert_eq!(parse("+999123456789", "jp"), Err(NotValidPhoneNumberError));
}

#[test]
fn not_a_number_fails() {
    assert_eq!(parse("not a number", "jp"), Err(NotValidPhoneNumberError));
}

#[test]
fn unknown_country_fails() {
    assert_eq!(parse("090 0000 0000", "zz"), Err(NotValidPhoneNumberError));
    assert_eq!(parse("1234567", "zz"), Err(NotValidPhoneNumberError));
}

#[test]
fn parsing_is_idempotent() {
    for (number, country) in [("090 0000 0000", "jp"), ("892 3456 7890", "ru"), ("+819000000000", "us")] {
        let once = parse(number, country).unwrap();
        assert_eq!(parse(&once, country), Ok(once.clone()));
    }
}

#[test]
fn national_number_gets_calling_code() {
    assert_eq!(parse("7011111111", "jp"), Ok("+817011111111".to_string()));
    assert_eq!(parse("2015550123", "US"), Ok("+12015550123".to_string()));
    assert_eq!(parse("07911 123456", "gb"), Ok("+447911123456".to_string()));
}

#[test]
fn number_with_calling_code_is_kept() {
    assert_eq!(parse("819000000000", "jp"), Ok("+819000000000".to_string()));
}

#[test]
fn wrong_prefix_or_length_fails() {
    assert_eq!(parse("0312345678", "jp"), Err(NotValidPhoneNumberError));
    assert_eq!(parse("090 0000 000", "jp"), Err(NotValidPhoneNumberError));
}

#[test]
fn territory_without_prefixes_validates_nothing() {
    assert_eq!(parse("123456", "aq"), Err(NotValidPhoneNumberError));
    assert_eq!(parse("672123456", "ATA"), Err(NotValidPhoneNumberError));
}

#[test]
fn identifiers_of_each_length() {
    assert_eq!(get_iso3166_by_country("jp"), Some(iso3166_jp()));
    assert_eq!(get_iso3166_by_country(" jpn "), Some(iso3166_jp()));
    assert_eq!(get_iso3166_by_country("Japan"), Some(iso3166_jp()));
    assert_eq!(get_iso3166_by_country("JAPAN"), Some(iso3166_jp()));
    assert_eq!(get_iso3166_by_country("côte d'ivoire"), Some(iso3166_ci()));
    assert_eq!(get_iso3166_by_country("united states"), Some(iso3166_us()));
}

#[test]
fn four_character_identifiers_never_resolve() {
    assert_eq!(get_iso3166_by_country("ABCD"), None);
    assert_eq!(get_iso3166_by_country("JPNX"), None);
    assert_eq!(get_iso3166_by_country("J"), None);
    assert_eq!(get_iso3166_by_country(""), None);
    assert_eq!(get_iso3166_by_country("Atlantis"), None);
}

#[test]
fn lookup_by_number_follows_directory_order() {
    assert_eq!(get_iso3166_by_number("819000000000"), Some(iso3166_jp()));
    assert_eq!(get_iso3166_by_number("79234567890"), Some(iso3166_ru()));
    assert_eq!(get_iso3166_by_number("12015550123"), Some(iso3166_us()));
    assert_eq!(
        get_iso3166_by_number("14165550123").map(|r| r.alpha3),
        Some("CAN")
    );
    assert_eq!(get_iso3166_by_number("8190000000"), None);
    assert_eq!(get_iso3166_by_number(""), None);
}

#[test]
fn validation_against_a_rule() {
    let jp = iso3166_jp();
    assert!(validate_phone_iso3166("819000000000", &jp));
    assert!(validate_phone_iso3166("9000000000", &jp));
    assert!(!validate_phone_iso3166("8190000000001", &jp));
    assert!(!validate_phone_iso3166("813000000000", &jp));
}

#[test]
fn leading_zeros_kept_for_exempt_territories() {
    assert_eq!(strip_leading_zeros("0090", &iso3166_ci()), "0090");
    assert_eq!(strip_leading_zeros("0090", &iso3166_jp()), "90");
    assert_eq!(strip_leading_zeros("000", &iso3166_jp()), "");
    assert_eq!(parse("01234567", "ci"), Ok("+22501234567".to_string()));
    assert_eq!(parse("0 12 34 56 78", "COG"), Ok("+242012345678".to_string()));
    assert_eq!(parse("01234567", "ga"), Ok("+24101234567".to_string()));
}

#[test]
fn russian_trunk_prefix_collapses() {
    let ru = iso3166_ru();
    assert_eq!(strip_russian_trunk_prefix("89234567890", &ru), "9234567890");
    assert_eq!(strip_russian_trunk_prefix("9234567890", &ru), "9234567890");
    assert_eq!(strip_russian_trunk_prefix("8923456789", &ru), "8923456789");
    assert_eq!(strip_russian_trunk_prefix("81234567890", &ru), "81234567890");
    assert_eq!(strip_russian_trunk_prefix("89234567890", &iso3166_jp()), "89234567890");
}

#[test]
fn error_message() {
    assert_eq!(NotValidPhoneNumberError.message(), "It is not a valid phone number");
}

#[test]
fn validation_with_long_prefix() {
    let rule = phone_number_verifier::ISO3166 {
        alpha2: "XA",
        alpha3: "XAA",
        country_code: "999",
        country_name: "Example",
        mobile_begin_with: vec!["123456789"],
        phone_number_lengths: vec![12],
    };
    assert!(validate_phone_iso3166("999123456789000", &rule));
    assert!(validate_phone_iso3166("123456789000", &rule));
    assert!(!validate_phone_iso3166("999123456780000", &rule));
}

#[test]
fn identifier_dispatch_uses_upper_cased_length() {
    assert_eq!(get_iso3166_by_country(" Jp\t"), Some(iso3166_jp()));
    assert_eq!(get_iso3166_by_country("\u{df}"), None);
}
