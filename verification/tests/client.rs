use external_postgres::client::database::{self as db, Command as DbCommand};
use external_postgres::client::operator::{self as op, Command as OpCommand, OperatorRequest};
use external_postgres::client::{check_status, ClientError, Level, Method};
use external_postgres::models::Status;

#[test]
fn database_requests() {
    let address = String::from("http://127.0.0.1:8032");
    let list = db::request(&address, &DbCommand::List).ok().unwrap();
    assert_eq!(list.method, Method::Get);
    assert_eq!(list.url, "http://127.0.0.1:8032/databases");
    assert!(list.body.is_none() && list.query.is_none());

    let create = db::request(&address, &DbCommand::Create { name: String::from("app") }).ok().unwrap();
    assert_eq!(create.method, Method::Post);
    assert_eq!(create.url, "http://127.0.0.1:8032/databases");
    assert_eq!(create.body.unwrap().name, "app");

    let check = db::request(&address, &DbCommand::Check { name: String::from("app") }).ok().unwrap();
    assert_eq!(check.method, Method::Put);
    assert_eq!(check.url, "http://127.0.0.1:8032/databases/app");

    let remove = db::request(&address, &DbCommand::Remove { name: String::from("app"), retain: true })
        .ok()
        .unwrap();
    assert_eq!(remove.method, Method::Delete);
    assert_eq!(remove.url, "http://127.0.0.1:8032/databases/app");
    assert_eq!(remove.query.unwrap().retain, Some(true));
}

#[test]
fn paths_replace_the_address_path() {
    let address = String::from("http://example.com/api/");
    let check = db::request(&address, &DbCommand::Check { name: String::from("x") }).ok().unwrap();
    assert_eq!(check.url, "http://example.com/databases/x");
}

#[test]
fn invalid_addresses_are_refused() {
    let address = String::from("not a url");
    match db::request(&address, &DbCommand::List) {
        Err(ClientError::InvalidAddress(m)) => assert_eq!(m, "relative URL without a base"),
        _ => panic!("expected an invalid address"),
    }
    assert!(matches!(op::request(&address, OpCommand::Status), Err(ClientError::InvalidAddress(_))));
}

#[test]
fn database_responses() {
    assert_eq!(db::check_response(404), Err(ClientError::NotFound));
    assert_eq!(db::check_response(500), Err(ClientError::UnexpectedStatus(500)));
    assert_eq!(db::check_response(400), Err(ClientError::UnexpectedStatus(400)));
    assert_eq!(db::check_response(204), Ok(()));
    assert_eq!(db::check_response(200), Ok(()));
    assert_eq!(check_status(599), Err(ClientError::UnexpectedStatus(599)));
    assert_eq!(check_status(600), Ok(()));
    assert_eq!(check_status(399), Ok(()));
    assert_eq!(ClientError::NotFound.message(), "database not found");
    assert_eq!(ClientError::UnexpectedStatus(500).message(), "unexpected status code");
    assert_eq!(ClientError::InvalidAddress(String::from("bad")).message(), "bad");
}

#[test]
fn operator_requests() {
    let address = String::from("http://127.0.0.1:8032");
    match op::request(&address, OpCommand::Enable).ok().unwrap() {
        OperatorRequest::ChangeState { url, body } => {
            assert_eq!(url, "http://127.0.0.1:8032/operator/state");
            assert_eq!(body.desired, Status::Enabled);
        }
        OperatorRequest::GetState { .. } => panic!("expected a change"),
    }
    match op::request(&address, OpCommand::Disable).ok().unwrap() {
        OperatorRequest::ChangeState { body, .. } => assert_eq!(body.desired, Status::Disabled),
        OperatorRequest::GetState { .. } => panic!("expected a change"),
    }
    match op::request(&address, OpCommand::Status).ok().unwrap() {
        OperatorRequest::GetState { url } => assert_eq!(url, "http://127.0.0.1:8032/operator/state"),
        OperatorRequest::ChangeState { .. } => panic!("expected a query"),
    }
}

#[test]
fn operator_reports() {
    let r = op::change_state_report(Status::Enabled, true);
    assert_eq!((r.level, r.message.as_str()), (Level::Info, "successfully enabled operator"));
    let r = op::change_state_report(Status::Enabled, false);
    assert_eq!((r.level, r.message.as_str()), (Level::Warn, "failed to enable operator, check server logs"));
    let r = op::change_state_report(Status::Disabled, false);
    assert_eq!((r.level, r.message.as_str()), (Level::Info, "successfully disabled operator"));
    assert_eq!(op::state_report(true).message, "operator is running");
    assert_eq!(op::state_report(false).message, "operator is stopped");
}

#[test]
fn database_reports() {
    assert!(db::completion_report(&DbCommand::List).is_none());
    assert!(db::completion_report(&DbCommand::Create { name: String::from("a") }).is_none());
    let r = db::completion_report(&DbCommand::Check { name: String::from("a") }).unwrap();
    assert_eq!((r.level, r.message.as_str()), (Level::Info, "successfully enqueued operation"));
    let r = db::completion_report(&DbCommand::Remove { name: String::from("a"), retain: false }).unwrap();
    assert_eq!(r.message, "successfully enqueued operation");
    assert_eq!(db::creation_report(true).message, "created database");
    assert_eq!(db::creation_report(false).message, "database already exists");
}
