use openfoodfacts::Locale;

#[test]
fn locale_default() {
    let locale = Locale::default();
    assert_eq!(locale.cc, "world");
    assert_eq!(locale.lc, None);
}

#[test]
fn new_with_country_code() {
    let locale = Locale::new("en", None);
    assert_eq!(locale.cc, "en");
    assert_eq!(locale.lc, None);
}

#[test]
fn new_with_empty_country_code() {
    let locale = Locale::new("", Some("us"));
    assert_eq!(locale.cc, "world");
    assert_eq!(locale.lc, None);
}

#[test]
fn new_with_country_code_and_language_code() {
    let locale = Locale::new("en", Some("us"));
    assert_eq!(locale.cc, "en");
    assert_eq!(locale.lc.unwrap(), "us");
}

#[test]
fn from_str() {
    let input = ["en", "en-", "en-us", "-", "-us"];
    let output = [
        ("en", None),
        ("en", None),
        ("en", Some("us".to_string())),
        ("world", None),
        ("world", None),
    ];
    for (i, code) in input.iter().enumerate() {
        let locale = Locale::parse(code);
        assert_eq!(locale.cc, output[i].0);
        assert_eq!(locale.lc, output[i].1);
    }
}

#[test]
fn locale_to_string() {
    let locale_cc = Locale::new("fr", None);
    assert_eq!(locale_cc.to_string(), String::from("fr"));

    let locale_cc_lc = Locale::new("fr", Some("ca"));
    assert_eq!(locale_cc_lc.to_string(), String::from("fr-ca"));
}

#[test]
fn round_trip_through_parse() {
    let cc_only = Locale::new("en", None);
    assert_eq!(Locale::parse(&cc_only.to_string()), cc_only);

    let cc_lc = Locale::new("fr", Some("ca"));
    assert_eq!(Locale::parse(&cc_lc.to_string()), cc_lc);
}
