use claans_api::domain::UserEmail;

#[test]
fn parse_accepts_an_address() {
    let email = UserEmail::parse("ursula_le_guin@gmail.com".to_string()).unwrap();
    assert_eq!(email.as_ref(), "ursula_le_guin@gmail.com");
    assert_eq!(email.to_string(), "ursula_le_guin@gmail.com");
}

#[test]
fn parse_refuses_empty_string() {
    let err = UserEmail::parse(String::new()).unwrap_err();
    assert_eq!(err, "'' is not a valid email");
}

#[test]
fn parse_refuses_missing_at_symbol() {
    let err = UserEmail::parse("ursuladomain.com".to_string()).unwrap_err();
    assert_eq!(err, "'ursuladomain.com' is not a valid email");
}

#[test]
fn parse_refuses_missing_subject() {
    assert!(UserEmail::parse("@domain.com".to_string()).is_err());
}

#[test]
fn from_check_follows_the_answer() {
    assert!(UserEmail::from_check("a@b.com".to_string(), true).is_ok());
    assert_eq!(
        UserEmail::from_check("nope".to_string(), false).unwrap_err(),
        "'nope' is not a valid email"
    );
}

#[test]
fn parse_refuses_text_without_at_with_message() {
    assert_eq!(
        UserEmail::parse("ursuladomain.com".to_string()).unwrap_err(),
        "'ursuladomain.com' is not a valid email".to_string()
    );
}
