use openfoodfacts::{Auth, Locale};

#[test]
fn options() {
    let builder = openfoodfacts::v0()
        .locale(Locale::new("gr", None))
        .auth("user", "pwd")
        .user_agent("user agent");
    assert_eq!(builder.locale, Locale::new("gr", None));
    assert_eq!(
        builder.auth,
        Some(Auth(String::from("user"), String::from("pwd")))
    );
    assert_eq!(builder.user_agent, Some(String::from("user agent")));
}

#[test]
fn builder_defaults() {
    let builder = openfoodfacts::v2();
    assert_eq!(builder.locale, Locale::default());
    assert_eq!(builder.auth, None);
    assert_eq!(builder.user_agent, None);
}
