use claans_api::crud::claans::create::create_claan;
use claans_api::crud::claans::delete::{delete_claan, AfterDelete};
use claans_api::crud::claans::read::{list_claan, list_claans};
use claans_api::crud::claans::update::update_claan;
use claans_api::crud::db_error::DbError;
use claans_api::models::claans::Claan;
use claans_api::models::response_models::{Response, ResponseBody};

fn claan(id: i32, name: &str) -> Claan {
    Claan { id, name: name.to_string() }
}

fn message(r: &Response) -> &str {
    match &r.body {
        ResponseBody::Message(m) => m.as_str(),
        other => panic!("not a message: {:?}", other),
    }
}

#[test]
fn list_claans_orders_by_id() {
    let listed = list_claans(vec![claan(3, "Wave"), claan(1, "Earth"), claan(2, "Fire")]);
    assert_eq!(listed, vec![claan(1, "Earth"), claan(2, "Fire"), claan(3, "Wave")]);
}

#[test]
fn list_claans_orders_equal_ids_by_name() {
    let listed = list_claans(vec![claan(1, "b"), claan(1, "ab"), claan(1, "a"), claan(0, "z")]);
    assert_eq!(listed, vec![claan(0, "z"), claan(1, "a"), claan(1, "ab"), claan(1, "b")]);
}

#[test]
fn list_claans_matches_derived_order() {
    let input = vec![
        claan(5, "Thunder"),
        claan(-2, "Ä"),
        claan(5, "Earth"),
        claan(i32::MIN, ""),
        claan(i32::MAX, "x"),
        claan(-2, "Z"),
        claan(5, "Earth"),
    ];
    let mut expected = input.clone();
    expected.sort();
    assert_eq!(list_claans(input), expected);
}

#[test]
fn list_claans_is_idempotent() {
    let once = list_claans(vec![claan(2, "b"), claan(1, "a"), claan(2, "a")]);
    let twice = list_claans(once.clone());
    assert_eq!(once, twice);
}

#[test]
fn list_claans_of_nothing() {
    assert_eq!(list_claans(vec![]), vec![]);
}

#[test]
fn list_claan_found() {
    assert_eq!(list_claan(4, Ok(claan(4, "Fire"))).unwrap(), claan(4, "Fire"));
}

#[test]
fn list_claan_not_found_message() {
    let r = list_claan(7, Err(DbError::NotFound("Record not found".to_string()))).unwrap_err();
    assert_eq!(message(&r), "Error selecting claan with id 7 - Record not found");
}

#[test]
fn list_claan_not_found_negative_id() {
    let r = list_claan(-120, Err(DbError::NotFound("Record not found".to_string()))).unwrap_err();
    assert_eq!(message(&r), "Error selecting claan with id -120 - Record not found");
    let r = list_claan(i32::MIN, Err(DbError::NotFound("x".to_string()))).unwrap_err();
    assert_eq!(message(&r), "Error selecting claan with id -2147483648 - x");
}

#[test]
fn create_claan_answers_with_the_row() {
    let r = create_claan(claan(9, "Wave"));
    match r.body {
        ResponseBody::Claan(c) => assert_eq!(c, claan(9, "Wave")),
        other => panic!("unexpected body {:?}", other),
    }
}

#[test]
fn update_claan_outcomes() {
    assert_eq!(update_claan(Ok(claan(1, "New"))).unwrap(), claan(1, "New"));
    let r = update_claan(Err(DbError::NotFound("Record not found".to_string()))).unwrap_err();
    assert_eq!(message(&r), "Error updating claan - Record not found");
}

#[test]
fn delete_claan_outcomes() {
    assert!(matches!(delete_claan(3, Ok(1)), AfterDelete::ListRemaining));
    assert!(matches!(delete_claan(3, Ok(2)), AfterDelete::ListRemaining));
    match delete_claan(3, Ok(0)) {
        AfterDelete::Refuse(r) => assert_eq!(message(&r), "Error - no claans with id 3"),
        other => panic!("unexpected {:?}", other),
    }
    match delete_claan(12, Err(DbError::NotFound("Record not found".to_string()))) {
        AfterDelete::Refuse(r) => {
            assert_eq!(message(&r), "Error deleting post with id 12 - Record not found")
        }
        other => panic!("unexpected {:?}", other),
    }
}
