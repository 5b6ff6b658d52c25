use openfoodfacts::{Locale, Output};

#[test]
fn defaults() {
    let output = Output::new();
    assert_eq!(output.locale, None);
    assert_eq!(output.page, None);
    assert_eq!(output.page_size, None);
    assert_eq!(output.fields, None);
    assert_eq!(output.nocache, None);
}

#[test]
fn locale() {
    let output = Output::new().locale(Locale::parse("fr"));
    assert_eq!(output.locale, Some(Locale::parse("fr")));
}

#[test]
fn pagination() {
    let output = Output::new().pagination(1, 20);
    assert_eq!(output.page, Some(1));
    assert_eq!(output.page_size, Some(20));
}

#[test]
fn page_page_size() {
    let output = Output::new().page(1).page_size(20);

    assert_eq!(output.page, Some(1));
    assert_eq!(output.page_size, Some(20));
}

#[test]
fn fields() {
    let output = Output::new().fields("a,b,c");
    assert_eq!(output.fields, Some("a,b,c"));
}

#[test]
fn no_cache() {
    let output = Output::new().nocache(true);
    assert_eq!(output.nocache, Some(true));
}

#[test]
fn params() {
    let output = Output::new().pagination(1, 20);

    let params = output.params(&["page", "page_size"]);
    assert_eq!(
        params,
        vec![
            (String::from("page"), String::from("1")),
            (String::from("page_size"), String::from("20"))
        ]
    );
}

#[test]
fn empty_fields_are_absent() {
    let output = Output::new().fields("");
    assert_eq!(output.fields, None);

    let params = output.params(&["fields"]);
    assert_eq!(params, vec![]);
}

#[test]
fn projection_allow_list() {
    let output = Output::new().page(3).page_size(50);

    let params = output.params(&["page", "page_size", "fields"]);
    assert_eq!(
        params,
        vec![
            (String::from("page"), String::from("3")),
            (String::from("page_size"), String::from("50"))
        ]
    );
}

#[test]
fn repeated_allow_names_ignored() {
    let output = Output::new().page(7).fields("url");

    let params = output.params(&["page", "page", "fields", "page"]);
    assert_eq!(
        params,
        vec![
            (String::from("page"), String::from("7")),
            (String::from("fields"), String::from("url"))
        ]
    );
}

#[test]
fn unrecognized_names_ignored() {
    let output = Output::new().page(1).locale(Locale::parse("fr"));

    let params = output.params(&["locale", "page", "other"]);
    assert_eq!(params, vec![(String::from("page"), String::from("1"))]);
}

#[test]
fn zero_page_formats_as_zero() {
    let output = Output::new().page(0).nocache(false);

    let params = output.params(&["page", "nocache"]);
    assert_eq!(
        params,
        vec![
            (String::from("page"), String::from("0")),
            (String::from("nocache"), String::from("false"))
        ]
    );
}
