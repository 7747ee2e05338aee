use chrono::NaiveDate;
use claans_api::crud::users::create::create_user;
use claans_api::models::claans::Claan;
use claans_api::crud::db_error::DbError;
use claans_api::models::response_models::ResponseBody;
use claans_api::models::users::User;

fn user() -> User {
    let at = NaiveDate::from_ymd_opt(2024, 5, 1).unwrap().and_hms_opt(12, 0, 0).unwrap();
    User {
        id: 1,
        name: "Ursula".to_string(),
        claan_id: 2,
        email: "ursula@example.com".to_string(),
        password_hash: vec![1, 2, 3],
        active: true,
        current_auth_token: None,
        created_at: at,
        updated_at: at,
        last_action: None,
    }
}

#[test]
fn user_display_names_the_claan() {
    let u = user();
    let c = Claan { id: 2, name: "Fire Dancers".to_string() };
    assert_eq!(
        u.to_display_string(Some(c)),
        "<User Ursula, ursula@example.com, in Fire Dancers"
    );
}

#[test]
fn user_display_without_claan() {
    assert_eq!(user().to_display_string(None), "<User Ursula, ursula@example.com, in no claan");
}

#[test]
fn get_claan_follows_the_lookup() {
    let u = user();
    let c = Claan { id: 2, name: "Fire Dancers".to_string() };
    assert_eq!(u.get_claan(Ok(c.clone())), Some(c));
    assert_eq!(u.get_claan(Err(DbError::NotFound("Record not found".to_string()))), None);
}

#[test]
fn create_user_answers_with_the_row() {
    match create_user(user()).body {
        ResponseBody::User(u) => assert_eq!(u, user()),
        other => panic!("unexpected body {:?}", other),
    }
}
