use external_postgres::database::{
    connection_settings, PoolStep, statements_outcome, Next, Options, Progress, SslMode,
    authentication_statements, check_connecting_user, connection_endpoint, connection_password,
    ensure_database_statement, ensure_user_statement, non_empty_optional, pgbouncer_setup,
    removal_statements, schema_statements, Databases, Endpoint, Error, PgbouncerSetup, User,
};

fn options() -> Options {
    Options {
        default_dbname: String::from("postgres"),
        socket: String::from("/run/postgresql"),
        host: None,
        port: 5432,
        username: String::from("admin"),
        password: None,
        ssl_mode: SslMode::Prefer,
    }
}

fn user(create_role: bool, create_db: bool, can_login: bool) -> User {
    User {
        username: String::from("manager"),
        can_login,
        create_role,
        create_db,
        bypass_rls: false,
        superuser: false,
    }
}

#[test]
fn non_empty_optional_drops_empty_strings() {
    let empty = String::new();
    let full = String::from("secret");
    assert!(non_empty_optional(&empty).is_none());
    assert_eq!(non_empty_optional(&full), Some(&full));
}

#[test]
fn endpoint_prefers_a_non_empty_host() {
    let socket = String::from("/var/run/postgresql");
    match connection_endpoint(&Some(String::from("db.internal")), &socket) {
        Endpoint::Host(h) => assert_eq!(h, "db.internal"),
        Endpoint::Socket(_) => panic!("expected the host"),
    }
    match connection_endpoint(&Some(String::new()), &socket) {
        Endpoint::Socket(s) => assert_eq!(s, "/var/run/postgresql"),
        Endpoint::Host(_) => panic!("expected the socket"),
    }
    match connection_endpoint(&None, &socket) {
        Endpoint::Socket(s) => assert_eq!(s, "/var/run/postgresql"),
        Endpoint::Host(_) => panic!("expected the socket"),
    }
}

#[test]
fn password_is_used_only_when_not_empty() {
    assert_eq!(connection_password(&Some(String::from("hunter2"))), Some(String::from("hunter2")));
    assert_eq!(connection_password(&Some(String::new())), None);
    assert_eq!(connection_password(&None), None);
}

#[test]
fn connecting_user_needs_both_permissions() {
    assert!(check_connecting_user(&user(true, true, true)).is_ok());
    assert!(matches!(check_connecting_user(&user(true, false, true)), Err(Error::InvalidPermissions)));
    assert!(matches!(check_connecting_user(&user(false, true, true)), Err(Error::InvalidPermissions)));
}

#[test]
fn pgbouncer_user_is_created_when_missing() {
    match pgbouncer_setup(&None) {
        PgbouncerSetup::Create(sql) => assert_eq!(
            sql,
            "CREATE USER pgbouncer WITH LOGIN NOSUPERUSER NOCREATEROLE NOCREATEDB NOREPLICATION NOBYPASSRLS"
        ),
        PgbouncerSetup::Exists { .. } => panic!("expected a creation"),
    }
    match pgbouncer_setup(&Some(user(false, false, false))) {
        PgbouncerSetup::Exists { can_login } => assert!(!can_login),
        PgbouncerSetup::Create(_) => panic!("expected the existing user"),
    }
}

#[test]
fn user_statements() {
    let name = String::from("app");
    let password = String::from("pw");
    assert_eq!(ensure_user_statement(&name, &password, true), "ALTER USER app WITH PASSWORD 'pw'");
    assert_eq!(
        ensure_user_statement(&name, &password, false),
        "CREATE USER app WITH LOGIN NOSUPERUSER NOCREATEROLE NOCREATEDB NOREPLICATION NOBYPASSRLS PASSWORD 'pw'"
    );
}

#[test]
fn database_statements() {
    let name = String::from("app");
    assert_eq!(ensure_database_statement(&name, true), "ALTER DATABASE app OWNER TO app");
    assert_eq!(ensure_database_statement(&name, false), "CREATE DATABASE app WITH OWNER app");
}

#[test]
fn schema_and_authentication_statements() {
    assert_eq!(
        schema_statements(),
        vec![
            String::from("CREATE SCHEMA IF NOT EXISTS pgbouncer"),
            String::from("GRANT USAGE ON SCHEMA pgbouncer TO pgbouncer"),
        ]
    );
    let revoke = "REVOKE ALL ON FUNCTION pgbouncer.user_lookup(text) FROM public, pgbouncer";
    let grant = "GRANT EXECUTE ON FUNCTION pgbouncer.user_lookup(text) TO pgbouncer";
    assert_eq!(authentication_statements(true, String::from("CREATE FUNCTION f()")), vec![revoke, grant]);
    assert_eq!(
        authentication_statements(false, String::from("CREATE FUNCTION f()")),
        vec!["CREATE FUNCTION f()", revoke, grant]
    );
}

#[test]
fn removal_statements_drop_or_hand_over() {
    let db = String::from("app");
    let owner = String::from("postgres");
    assert_eq!(removal_statements(&db, false, &owner), vec!["DROP DATABASE app", "DROP USER app"]);
    assert_eq!(
        removal_statements(&db, true, &owner),
        vec!["ALTER DATABASE app OWNER TO postgres", "DROP USER app"]
    );
}

#[test]
fn default_database_cannot_be_removed() {
    let mut dbs: Databases<u32> = Databases::new(&options());
    dbs.store(String::from("postgres"), 1);
    assert!(dbs.managed_databases().is_empty());
    assert!(matches!(dbs.check_manageable(&String::from("postgres")), Err(Error::DefaultDatabase)));
    assert!(matches!(dbs.remove(&String::from("postgres"), false), Err(Error::DefaultDatabase)));
    assert_eq!(dbs.cached(&String::from("postgres")), Some(&1));
    assert!(dbs.check_manageable(&String::from("app")).is_ok());
}

#[test]
fn removing_a_managed_database_hands_back_its_pool() {
    let mut dbs: Databases<u32> = Databases::new(&options());
    dbs.store(String::from("app"), 7);
    dbs.store(String::from("other"), 8);
    let mut names = dbs.managed_databases();
    names.sort();
    assert_eq!(names, vec!["app", "other"]);

    let removal = dbs.remove(&String::from("app"), true).ok().unwrap().unwrap();
    assert_eq!(removal.pool, 7);
    assert_eq!(removal.statements, vec!["ALTER DATABASE app OWNER TO admin", "DROP USER app"]);
    assert_eq!(dbs.managed_databases(), vec!["other"]);
    assert!(dbs.cached(&String::from("app")).is_none());
}

#[test]
fn removing_an_unmanaged_database_does_nothing() {
    let mut dbs: Databases<u32> = Databases::new(&options());
    dbs.store(String::from("other"), 8);
    assert!(matches!(dbs.remove(&String::from("app"), false), Ok(None)));
    assert_eq!(dbs.managed_databases(), vec!["other"]);
}

#[test]
fn storing_twice_replaces_the_pool() {
    let mut dbs: Databases<u32> = Databases::new(&options());
    dbs.store(String::from("app"), 1);
    dbs.store(String::from("app"), 2);
    assert_eq!(dbs.cached(&String::from("app")), Some(&2));
    assert_eq!(dbs.managed_databases(), vec!["app"]);
}

#[test]
fn database_error_messages() {
    assert_eq!(Error::InvalidPermissions.message(), "invalid permissions for connected user");
    assert_eq!(Error::DefaultDatabase.message(), "cannot create or remove default database");
    assert_eq!(Error::Internal(String::from("boom")).message(), "boom");
}

#[test]
fn managed_databases_leave_out_the_default() {
    let mut dbs: Databases<u32> = Databases::new(&options());
    dbs.store(String::from("app"), 1);
    dbs.store(String::from("postgres"), 2);
    dbs.store(String::from("other"), 3);
    let mut names = dbs.managed_databases();
    names.sort();
    assert_eq!(names, vec!["app", "other"]);
}

#[test]
fn settings_follow_the_options() {
    let mut opts = options();
    let s = connection_settings(&opts);
    assert_eq!(s.application_name, "external-postgres");
    assert_eq!(s.port, 5432);
    assert_eq!(s.username, "admin");
    assert_eq!(s.ssl_mode, SslMode::Prefer);
    assert_eq!(s.password, None);
    assert!(matches!(s.endpoint, Endpoint::Socket(ref d) if d == "/run/postgresql"));

    opts.host = Some(String::from("db"));
    opts.password = Some(String::from("pw"));
    opts.ssl_mode = SslMode::Require;
    let dbs: Databases<u32> = Databases::new(&opts);
    let s = dbs.settings();
    assert_eq!(s.password, Some(String::from("pw")));
    assert_eq!(s.ssl_mode, SslMode::Require);
    assert!(matches!(s.endpoint, Endpoint::Host(ref h) if h == "db"));
    assert_eq!(dbs.default_dbname_ref(), "postgres");
}

#[test]
fn pools_are_opened_only_when_not_cached() {
    let mut dbs: Databases<u32> = Databases::new(&options());
    assert_eq!(dbs.pool_step(&String::from("app")), PoolStep::Open);
    dbs.store(String::from("app"), 3);
    assert_eq!(dbs.pool_step(&String::from("app")), PoolStep::Cached);
}

#[test]
fn statements_stop_at_the_first_failure() {
    let mut p = Progress::new(2);
    assert!(matches!(p.next(), Next::Run(0)));
    p.record(Err(String::from("cannot drop")));
    match p.next() {
        Next::Finished(Some(m)) => {
            assert_eq!(m, "cannot drop");
            assert!(matches!(statements_outcome(Some(m)), Err(Error::Internal(ref e)) if e == "cannot drop"));
        }
        _ => panic!("expected the end after a failure"),
    }

    let mut p = Progress::new(2);
    assert!(matches!(p.next(), Next::Run(0)));
    p.record(Ok(()));
    assert!(matches!(p.next(), Next::Run(1)));
    p.record(Ok(()));
    assert!(matches!(p.next(), Next::Finished(None)));
    assert!(statements_outcome(None).is_ok());
}
