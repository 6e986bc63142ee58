use external_postgres::database::{Databases, Error, Options, SslMode, User};
use external_postgres::provisioning::{Ensure, EnsureStep, Setup, SetupStep};

fn options() -> Options {
    Options {
        default_dbname: String::from("postgres"),
        socket: String::from("/run/postgresql"),
        host: None,
        port: 5432,
        username: String::from("admin"),
        password: None,
        ssl_mode: SslMode::Prefer,
    }
}

fn user(create_role: bool, create_db: bool) -> User {
    User {
        username: String::from("admin"),
        can_login: true,
        create_role,
        create_db,
        bypass_rls: false,
        superuser: false,
    }
}

/// Runs a setup to its end, answering every lookup and statement as given.
fn run_setup(connecting: User, pgbouncer: Option<User>, function: bool, fail_at: Option<usize>) -> (Result<Databases<u8>, Error>, Vec<String>) {
    let mut setup: Setup<u8> = Setup::new(&options());
    let mut ran = Vec::new();
    let mut connecting = Some(connecting);
    let mut pgbouncer = Some(pgbouncer);
    loop {
        match setup.next() {
            SetupStep::Connect => setup.record_connect(Ok(Some(1))),
            SetupStep::LookupConnecting => setup.record_connecting(Ok(connecting.take().unwrap())),
            SetupStep::LookupPgbouncer => setup.record_pgbouncer(Ok(pgbouncer.take().unwrap())),
            SetupStep::LookupFunction => setup.record_function(Ok(function), String::from("CREATE FUNCTION f()")),
            SetupStep::Run(i) => {
                let statement = setup.batch()[i].clone();
                if fail_at == Some(ran.len()) {
                    setup.record_statement(Err(String::from("boom")));
                } else {
                    ran.push(statement);
                    setup.record_statement(Ok(()));
                }
            }
            SetupStep::Finished => break,
        }
    }
    (setup.finish(), ran)
}

#[test]
fn setup_succeeds_when_configuring_succeeds() {
    let (result, ran) = run_setup(user(true, true), None, false, None);
    let dbs = result.ok().unwrap();
    assert_eq!(
        ran,
        vec![
            "CREATE USER pgbouncer WITH LOGIN NOSUPERUSER NOCREATEROLE NOCREATEDB NOREPLICATION NOBYPASSRLS",
            "CREATE SCHEMA IF NOT EXISTS pgbouncer",
            "GRANT USAGE ON SCHEMA pgbouncer TO pgbouncer",
            "CREATE FUNCTION f()",
            "REVOKE ALL ON FUNCTION pgbouncer.user_lookup(text) FROM public, pgbouncer",
            "GRANT EXECUTE ON FUNCTION pgbouncer.user_lookup(text) TO pgbouncer",
        ]
    );
    assert_eq!(dbs.cached(&String::from("postgres")), Some(&1));
    assert!(dbs.managed_databases().is_empty());
}

#[test]
fn setup_fails_without_permissions() {
    let mut setup: Setup<u8> = Setup::new(&options());
    setup.record_connect(Ok(Some(1)));
    setup.record_connecting(Ok(user(false, true)));
    assert_eq!(setup.next(), SetupStep::Finished);
    assert!(matches!(setup.finish(), Err(Error::InvalidPermissions)));
}

#[test]
fn setup_fails_with_a_failed_statement() {
    let (result, ran) = run_setup(user(true, true), Some(user(false, false)), true, Some(1));
    assert_eq!(ran, vec!["CREATE SCHEMA IF NOT EXISTS pgbouncer"]);
    match result {
        Err(Error::Internal(m)) => assert_eq!(m, "boom"),
        _ => panic!("expected the statement's failure"),
    }
}

#[test]
fn setup_fails_when_connecting_fails() {
    let mut setup: Setup<u8> = Setup::new(&options());
    setup.record_connect(Err(String::from("refused")));
    assert_eq!(setup.next(), SetupStep::Finished);
    assert!(matches!(setup.finish(), Err(Error::Internal(m)) if m == "refused"));
}

fn run_ensure(dbs: &mut Databases<u8>, user_found: bool, db_found: bool, cached: bool) -> (Result<(), Error>, Vec<(String, bool)>) {
    let mut ensure = Ensure::start(dbs, String::from("app"), String::from("pw")).ok().unwrap();
    let mut ran = Vec::new();
    loop {
        match ensure.next() {
            EnsureStep::LookupUser => ensure.record_user(Ok(user_found)),
            EnsureStep::LookupDatabase => ensure.record_database(Ok(db_found)),
            EnsureStep::Run { index, on_default } => {
                ran.push((ensure.batch()[index].clone(), on_default));
                ensure.record_statement(Ok(()));
            }
            EnsureStep::Connect => {
                let pool = if cached { Ok(None) } else { Ok(Some(7)) };
                ensure.record_connect(dbs, pool);
            }
            EnsureStep::LookupFunction => ensure.record_function(Ok(true), String::from("CREATE FUNCTION f()")),
            EnsureStep::Finished => break,
        }
    }
    (ensure.finish(), ran)
}

#[test]
fn ensure_runs_every_statement_and_manages_the_database() {
    let mut dbs: Databases<u8> = Databases::new(&options());
    let (result, ran) = run_ensure(&mut dbs, false, false, false);
    assert!(result.is_ok());
    let statements: Vec<&str> = ran.iter().map(|(s, _)| s.as_str()).collect();
    assert_eq!(
        statements,
        vec![
            "CREATE USER app WITH LOGIN NOSUPERUSER NOCREATEROLE NOCREATEDB NOREPLICATION NOBYPASSRLS PASSWORD 'pw'",
            "CREATE DATABASE app WITH OWNER app",
            "CREATE SCHEMA IF NOT EXISTS pgbouncer",
            "GRANT USAGE ON SCHEMA pgbouncer TO pgbouncer",
            "REVOKE ALL ON FUNCTION pgbouncer.user_lookup(text) FROM public, pgbouncer",
            "GRANT EXECUTE ON FUNCTION pgbouncer.user_lookup(text) TO pgbouncer",
        ]
    );
    let on_default: Vec<bool> = ran.iter().map(|(_, d)| *d).collect();
    assert_eq!(on_default, vec![true, true, false, false, false, false]);
    assert_eq!(dbs.managed_databases(), vec!["app"]);

    let (again, ran) = run_ensure(&mut dbs, true, true, true);
    assert!(again.is_ok());
    assert_eq!(ran[0].0, "ALTER USER app WITH PASSWORD 'pw'");
    assert_eq!(ran[1].0, "ALTER DATABASE app OWNER TO app");
    assert_eq!(dbs.managed_databases(), vec!["app"]);
    assert_eq!(dbs.cached(&String::from("app")), Some(&7));
}

#[test]
fn ensure_refuses_the_default_database() {
    let dbs: Databases<u8> = Databases::new(&options());
    assert!(matches!(
        Ensure::start(&dbs, String::from("postgres"), String::from("pw")),
        Err(Error::DefaultDatabase)
    ));
}

#[test]
fn ensure_stops_at_the_first_failure() {
    let mut dbs: Databases<u8> = Databases::new(&options());
    let mut ensure = Ensure::start(&dbs, String::from("app"), String::from("pw")).ok().unwrap();
    ensure.record_user(Ok(false));
    assert!(matches!(ensure.next(), EnsureStep::Run { index: 0, on_default: true }));
    ensure.record_statement(Err(String::from("denied")));
    assert_eq!(ensure.next(), EnsureStep::Finished);
    assert!(matches!(ensure.finish(), Err(Error::Internal(m)) if m == "denied"));
    assert!(dbs.managed_databases().is_empty());
    dbs.store(String::from("x"), 1);
}

#[test]
fn setup_records_the_pgbouncer_user() {
    let mut setup: Setup<u8> = Setup::new(&options());
    setup.record_connect(Ok(Some(1)));
    setup.record_connecting(Ok(user(true, true)));
    let mut pgbouncer = user(false, false);
    pgbouncer.can_login = false;
    setup.record_pgbouncer(Ok(Some(pgbouncer)));
    assert!(setup.pgbouncer_cannot_login());
    assert_eq!(setup.batch()[0], "CREATE SCHEMA IF NOT EXISTS pgbouncer");

    let mut setup: Setup<u8> = Setup::new(&options());
    setup.record_connect(Ok(Some(1)));
    setup.record_connecting(Ok(user(true, true)));
    setup.record_pgbouncer(Ok(None));
    assert!(!setup.pgbouncer_cannot_login());
    assert_eq!(setup.next(), SetupStep::Run(0));
    assert_eq!(
        setup.batch()[0],
        "CREATE USER pgbouncer WITH LOGIN NOSUPERUSER NOCREATEROLE NOCREATEDB NOREPLICATION NOBYPASSRLS"
    );
}
