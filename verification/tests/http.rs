use external_postgres::database;
use external_postgres::http::{retain_requested, Error};
use external_postgres::models::DeleteOptions;

#[test]
fn failures_answer_internal_server_error() {
    let r = Error::Database(database::Error::DefaultDatabase).into_response();
    assert_eq!(r.code, 500);
    assert_eq!(r.message, "cannot create or remove default database");
    let r = Error::Sqlx(String::from("connection refused")).into_response();
    assert_eq!(r.code, 500);
    assert_eq!(r.message, "connection refused");
    assert_eq!(Error::Sqlx(String::new()).status(), 500);
}

#[test]
fn retain_defaults_to_false() {
    assert!(!retain_requested(&DeleteOptions { retain: None }));
    assert!(!retain_requested(&DeleteOptions { retain: Some(false) }));
    assert!(retain_requested(&DeleteOptions { retain: Some(true) }));
}
