use claans_api::domain::UserEmail;
use claans_api::routes::email::{
    delivery_failure, get_confirmed_user_emails, publish_step, recipients, require_authorization,
    PublishError, PublishStep,
};
use claans_api::routes::users::{
    confirmation_email, confirmation_link, generate_user_token, token_from_samples, FormData,
    NewUser, RegisterError,
};
use claans_api::routes::users_confirm::{confirmation_target, ConfirmationError};

#[test]
fn status_codes() {
    assert_eq!(PublishError::UnexpectedError(anyhow::Error::msg("boom")).status_code(), 500);
    assert_eq!(RegisterError::ValidationError("bad".to_string()).status_code(), 400);
    assert_eq!(RegisterError::UnexpectedError(anyhow::Error::msg("boom")).status_code(), 500);
    assert_eq!(ConfirmationError::UnknownToken.status_code(), 401);
    assert_eq!(ConfirmationError::UnexpectedError(anyhow::Error::msg("boom")).status_code(), 500);
    assert_eq!(PublishError::AuthError.status_code(), 401);
}

#[test]
fn error_messages() {
    assert_eq!(
        ConfirmationError::UnknownToken.message(),
        Some("There is not user associated with the provided token".to_string())
    );
    assert_eq!(ConfirmationError::UnexpectedError(anyhow::Error::msg("boom")).message(), None);
    assert_eq!(
        RegisterError::ValidationError("'x' is not a valid email".to_string()).message(),
        Some("'x' is not a valid email".to_string())
    );
    assert_eq!(RegisterError::UnexpectedError(anyhow::Error::msg("boom")).message(), None);
}

#[test]
fn requests_missing_authorization_are_refused() {
    let err = require_authorization(None).unwrap_err();
    assert!(matches!(err, PublishError::AuthError));
    assert_eq!(err.status_code(), 401);
    assert_eq!(err.www_authenticate(), Some(r#"Basic realm="publish""#));
    assert_eq!(require_authorization(Some("Basic abc".to_string())).unwrap(), "Basic abc");
    assert_eq!(PublishError::UnexpectedError(anyhow::Error::msg("boom")).www_authenticate(), None);
}

#[test]
fn registration_form_is_checked() {
    let form = FormData { email: "ursula_le_guin@gmail.com".to_string(), name: "le guin".to_string() };
    let user = NewUser::try_from(form).unwrap();
    assert_eq!(user.email.as_ref(), "ursula_le_guin@gmail.com");
    assert_eq!(user.name, "le guin");
    let form = FormData { email: "definitely-not-an-email".to_string(), name: "le guin".to_string() };
    assert_eq!(
        NewUser::try_from(form).unwrap_err(),
        "'definitely-not-an-email' is not a valid email"
    );
}

#[test]
fn publish_walks_users_in_order() {
    let users = get_confirmed_user_emails(vec![
        "a@example.com".to_string(),
        "bad".to_string(),
        "b@example.com".to_string(),
    ]);
    match publish_step(&users, 0, false).0 {
        PublishStep::Send(e) => assert_eq!(e.as_ref(), "a@example.com"),
        other => panic!("unexpected {:?}", other),
    }
    match publish_step(&users, 1, false).0 {
        PublishStep::Skip(m) => assert_eq!(m, "'bad' is not a valid email"),
        other => panic!("unexpected {:?}", other),
    }
    match publish_step(&users, 2, false).0 {
        PublishStep::Send(e) => assert_eq!(e.as_ref(), "b@example.com"),
        other => panic!("unexpected {:?}", other),
    }
    assert!(matches!(publish_step(&users, 3, false).0, PublishStep::Finished));
    assert_eq!(publish_step(&users, 0, false).1, 1);
    assert_eq!(publish_step(&users, 1, false).1, 2);
    assert_eq!(publish_step(&users, 3, false).1, 3);
}

#[test]
fn publish_stops_at_first_failed_delivery() {
    let users = get_confirmed_user_emails(vec!["a@example.com".to_string(), "b@example.com".to_string()]);
    match publish_step(&users, 1, true).0 {
        PublishStep::Stop(context) => assert_eq!(context, "Failed to send email to a@example.com"),
        other => panic!("unexpected {:?}", other),
    }
}

#[test]
fn unknown_token_is_refused() {
    assert!(matches!(confirmation_target::<u32>(None), Err(ConfirmationError::UnknownToken)));
    assert_eq!(confirmation_target(Some(42u32)).unwrap(), 42);
}

#[test]
fn user_token_is_25_alphanumerics() {
    for _ in 0..20 {
        let token = generate_user_token();
        assert_eq!(token.chars().count(), 25);
        assert!(token.chars().all(|c| c.is_ascii_alphanumeric()));
    }
}

#[test]
fn confirmation_link_is_built_from_base_and_token() {
    assert_eq!(
        confirmation_link("http://127.0.0.1:8000", "abc"),
        "http://127.0.0.1:8000/users/confirm?user_token=abc"
    );
}

#[test]
fn confirmation_email_carries_the_link() {
    let email = confirmation_email("http://localhost", "tok");
    let link = "http://localhost/users/confirm?user_token=tok";
    assert_eq!(email.subject, "Welcome to Claans!");
    assert_eq!(
        email.plain_body,
        format!("Welcome to Claans!\nVisit {} to confirm you account.", link)
    );
    assert_eq!(
        email.html_body,
        format!(
            "Welcome to Claans!<br />
        Click <a href=\"{}\"here</a> to confirm your account.",
            link
        )
    );
}

#[test]
fn confirmed_users_are_checked_one_by_one() {
    let stored = vec![
        "ursula_le_guin@gmail.com".to_string(),
        "not-an-address".to_string(),
        "le_guin@example.com".to_string(),
    ];
    let users = get_confirmed_user_emails(stored);
    assert_eq!(users.len(), 3);
    assert_eq!(users[0].as_ref().unwrap().email.as_ref(), "ursula_le_guin@gmail.com");
    assert_eq!(
        users[1].as_ref().unwrap_err(),
        "'not-an-address' is not a valid email"
    );
    let to: Vec<&str> = recipients(&users).into_iter().map(|e| e.as_ref()).collect();
    assert_eq!(to, vec!["ursula_le_guin@gmail.com", "le_guin@example.com"]);
}

#[test]
fn no_recipients_when_no_valid_address() {
    let users = get_confirmed_user_emails(vec!["".to_string(), "x".to_string()]);
    assert!(recipients(&users).is_empty());
}

#[test]
fn delivery_failure_names_the_address() {
    let email = UserEmail::parse("a@b.com".to_string()).unwrap();
    assert_eq!(delivery_failure(&email), "Failed to send email to a@b.com");
}

#[test]
fn token_is_made_of_the_drawn_bytes() {
    let samples: Vec<u8> = b"abcdefghijklmnopqrstuvwxy".to_vec();
    assert_eq!(token_from_samples(&samples), "abcdefghijklmnopqrstuvwxy");
    let samples: Vec<u8> = b"Z0Z0Z0Z0Z0Z0Z0Z0Z0Z0Z0Z09".to_vec();
    assert_eq!(token_from_samples(&samples), "Z0Z0Z0Z0Z0Z0Z0Z0Z0Z0Z0Z09");
}

#[test]
fn tokens_differ_between_draws() {
    let a = generate_user_token();
    let b = generate_user_token();
    let c = generate_user_token();
    assert!(a != b || b != c);
}

#[test]
fn publish_walk_sends_in_order() {
    let users = get_confirmed_user_emails(vec![
        "a@example.com".to_string(),
        "".to_string(),
        "c@example.com".to_string(),
    ]);
    let mut sent = Vec::new();
    let mut next = 0;
    loop {
        let (step, after) = publish_step(&users, next, false);
        next = after;
        match step {
            PublishStep::Send(e) => sent.push(e.as_ref().to_string()),
            PublishStep::Skip(_) => {}
            PublishStep::Finished => break,
            PublishStep::Stop(_) => panic!("no delivery failed"),
        }
    }
    let expected: Vec<String> = recipients(&users).into_iter().map(|e| e.as_ref().to_string()).collect();
    assert_eq!(sent, expected);
    assert_eq!(sent, vec!["a@example.com".to_string(), "c@example.com".to_string()]);
}
