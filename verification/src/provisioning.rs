//! The two multi-step procedures on the server, as step machines: setting
//! up a manager (which succeeds exactly when configuring the server does),
//! and ensuring a database (which leaves the database managed). Each asks
//! for one lookup, connection or statement at a time, takes its result, and
//! stops at the first failure.

use crate::database::{
    authentication_statements, check_connecting_user, configuration_sql, create_pgbouncer_sql,
    ensure_database_sql, ensure_database_statement, ensure_user_sql, ensure_user_statement,
    lookup_permission_sql, pgbouncer_setup, schema_sql, schema_statements, Databases, Error,
    Options, PgbouncerSetup, User,
};
use vstd::prelude::*;

verus! {

/// The statements of a list, as text.
pub open spec fn texts(v: Seq<String>) -> Seq<Seq<char>> {
    v.map_values(|s: String| s@)
}

/// Where setting up a manager stands.
#[derive(Clone, Copy, Debug, PartialEq, Eq, Structural)]
pub enum SetupStage {
    Connect,
    LookupConnecting,
    LookupPgbouncer,
    RunPgbouncer,
    RunSchema,
    LookupFunction,
    RunAuthentication,
    Done,
}

/// What setting up a manager asks for next.
#[derive(Clone, Copy, Debug, PartialEq, Eq, Structural)]
pub enum SetupStep {
    /// A pool for the default database: the cached one, or a new one to store.
    Connect,
    /// The permissions of the connecting user, on the default database.
    LookupConnecting,
    /// The `pgbouncer` user, if it exists, on the default database.
    LookupPgbouncer,
    /// Whether the authentication lookup function exists, on the default database.
    LookupFunction,
    /// Run the statement at this position of [`Setup::batch`] on the default database.
    Run(usize),
    /// Nothing more; [`Setup::finish`] gives the outcome.
    Finished,
}

/// Setting up a manager for the server the options describe, in the order
/// of configuring it: connect to the default database, check the connecting
/// user's permissions, look up the `pgbouncer` user and create it when
/// missing, create the schema, look up the lookup function, then define it
/// when missing and set its permissions. The manager is handed out only
/// when all of it succeeded.
pub struct Setup<P> {
    databases: Databases<P>,
    stage: SetupStage,
    permitted: bool,
    pgbouncer_found: bool,
    cannot_login: bool,
    function_exists: bool,
    create_lookup: String,
    batch: Vec<String>,
    ran: usize,
    configured_default: Ghost<Seq<char>>,
    configured_user: Ghost<Seq<char>>,
    executed: Ghost<Seq<Seq<char>>>,
    failure: Option<Error>,
}

impl<P> Setup<P> {
    pub closed spec fn stage(&self) -> SetupStage {
        self.stage
    }

    /// The manager being set up.
    pub closed spec fn databases(&self) -> Databases<P> {
        self.databases
    }

    /// The failure that ended the setup, if any.
    pub closed spec fn failure(&self) -> Option<Error> {
        self.failure
    }

    /// Whether the connecting user was found to have both permissions.
    pub closed spec fn permitted(&self) -> bool {
        self.permitted
    }

    /// Whether the lookup found the `pgbouncer` user.
    pub closed spec fn pgbouncer_found(&self) -> bool {
        self.pgbouncer_found
    }

    /// Whether the `pgbouncer` user was found but cannot log in.
    pub closed spec fn cannot_login(&self) -> bool {
        self.cannot_login
    }

    /// Whether the lookup found the authentication lookup function, and the
    /// statement that defines it.
    pub closed spec fn function_answer(&self) -> (bool, Seq<char>) {
        (self.function_exists, self.create_lookup@)
    }

    /// The default database and user of the options the setup started from.
    pub closed spec fn configured(&self) -> (Seq<char>, Seq<char>) {
        (self.configured_default@, self.configured_user@)
    }

    /// The configuration statements that succeeded, in order.
    pub closed spec fn executed(&self) -> Seq<Seq<char>> {
        self.executed@
    }

    /// The statements of the current stage.
    pub closed spec fn planned(&self) -> Seq<Seq<char>> {
        texts(self.batch@)
    }

    /// Every configuration statement, by what the lookups found.
    pub open spec fn script(&self) -> Seq<Seq<char>> {
        configuration_sql(self.pgbouncer_found(), self.function_answer().0, self.function_answer().1)
    }

    /// The part of the script run before the current stage's statements.
    pub closed spec fn before(&self) -> Seq<Seq<char>> {
        let pg = if self.pgbouncer_found {
            Seq::<Seq<char>>::empty()
        } else {
            seq![create_pgbouncer_sql()]
        };
        match self.stage {
            SetupStage::RunSchema => pg,
            SetupStage::LookupFunction | SetupStage::RunAuthentication => pg + schema_sql(),
            SetupStage::Done => self.script(),
            _ => Seq::empty(),
        }
    }

    /// The statements the current stage runs.
    pub closed spec fn expected(&self) -> Seq<Seq<char>> {
        match self.stage {
            SetupStage::RunPgbouncer => seq![create_pgbouncer_sql()],
            SetupStage::RunSchema => schema_sql(),
            SetupStage::RunAuthentication => if self.function_exists {
                lookup_permission_sql()
            } else {
                seq![self.create_lookup@] + lookup_permission_sql()
            },
            _ => Seq::empty(),
        }
    }

    pub closed spec fn wf(&self) -> bool {
        &&& self.databases.wf()
        &&& self.databases.default_dbname() == self.configured_default@
        &&& self.databases.default_username() == self.configured_user@
        &&& self.databases.managed() == Set::<Seq<char>>::empty()
        &&& texts(self.batch@) == self.expected()
        &&& self.ran <= self.batch@.len()
        &&& (self.stage == SetupStage::RunPgbouncer || self.stage == SetupStage::RunSchema
            || self.stage == SetupStage::RunAuthentication) ==> self.ran < self.batch@.len()
        &&& self.stage == SetupStage::RunPgbouncer ==> !self.pgbouncer_found
        &&& self.executed@ == self.before() + texts(self.batch@).take(self.ran as int)
        &&& (self.stage != SetupStage::Connect && self.stage != SetupStage::LookupConnecting)
            ==> self.permitted
        &&& self.failure is None && self.stage != SetupStage::Connect
            ==> self.databases.pools().contains_key(self.databases.default_dbname())
    }

    /// Nothing done yet, for a manager of the server the options describe.
    pub fn new(opts: &Options) -> (r: Self)
        ensures
            r.wf(),
            r.stage() == SetupStage::Connect,
            r.failure() is None,
            r.executed() == Seq::<Seq<char>>::empty(),
            r.configured() == (opts.default_dbname@, opts.username@),
            r.databases().pools() == Map::<Seq<char>, P>::empty(),
            crate::database::settings_of(r.databases().connection(), *opts),
    {
        let r = Setup {
            databases: Databases::new(opts),
            stage: SetupStage::Connect,
            permitted: false,
            pgbouncer_found: false,
            cannot_login: false,
            function_exists: false,
            create_lookup: String::new(),
            batch: Vec::new(),
            ran: 0,
            configured_default: Ghost(opts.default_dbname@),
            configured_user: Ghost(opts.username@),
            executed: Ghost(Seq::empty()),
            failure: None,
        };
        assert(texts(r.batch@) =~= Seq::<Seq<char>>::empty());
        assert(r.executed@ =~= r.before() + texts(r.batch@).take(0));
        assert(r.databases.managed() =~= Set::<Seq<char>>::empty());
        r
    }

    /// The manager being set up, to look up the default database's cached pool.
    pub fn databases_ref(&self) -> (r: &Databases<P>)
        ensures
            *r == self.databases(),
    {
        &self.databases
    }

    /// The statements of the current stage.
    pub fn batch(&self) -> (r: &Vec<String>)
        ensures
            texts(r@) == self.planned(),
    {
        &self.batch
    }

    /// Whether the `pgbouncer` user exists but cannot log in.
    pub fn pgbouncer_cannot_login(&self) -> (r: bool)
        ensures
            r == self.cannot_login(),
    {
        self.cannot_login
    }

    /// The next step: nothing after a failure, else the stage's.
    pub fn next(&self) -> (r: SetupStep)
        requires
            self.wf(),
        ensures
            self.failure() is Some ==> r == SetupStep::Finished,
            self.failure() is None ==> r == match self.stage() {
                SetupStage::Connect => SetupStep::Connect,
                SetupStage::LookupConnecting => SetupStep::LookupConnecting,
                SetupStage::LookupPgbouncer => SetupStep::LookupPgbouncer,
                SetupStage::LookupFunction => SetupStep::LookupFunction,
                SetupStage::Done => SetupStep::Finished,
                _ => SetupStep::Run((self.executed().len() - self.before().len()) as usize),
            },
            r matches SetupStep::Run(i) ==> i < self.planned().len(),
    {
        if self.failure.is_some() {
            return SetupStep::Finished;
        }
        proof {
            assert(self.executed().len() - self.before().len() == self.ran);
        }
        match self.stage {
            SetupStage::Connect => SetupStep::Connect,
            SetupStage::LookupConnecting => SetupStep::LookupConnecting,
            SetupStage::LookupPgbouncer => SetupStep::LookupPgbouncer,
            SetupStage::LookupFunction => SetupStep::LookupFunction,
            SetupStage::Done => SetupStep::Finished,
            _ => SetupStep::Run(self.ran),
        }
    }

    /// Begin a stage that runs `batch`.
    fn begin_batch(&mut self, stage: SetupStage, batch: Vec<String>)
        requires
            old(self).failure is None,
        ensures
            final(self).stage == stage,
            final(self).batch == batch,
            final(self).ran == 0,
            final(self).failure is None,
            final(self).databases == old(self).databases,
            final(self).permitted == old(self).permitted,
            final(self).pgbouncer_found == old(self).pgbouncer_found,
            final(self).cannot_login == old(self).cannot_login,
            final(self).function_exists == old(self).function_exists,
            final(self).create_lookup == old(self).create_lookup,
            final(self).configured_default == old(self).configured_default,
            final(self).configured_user == old(self).configured_user,
            final(self).executed == old(self).executed,
    {
        self.stage = stage;
        self.batch = batch;
        self.ran = 0;
    }

    /// Record the pool of the default database: `Ok(None)` when it was
    /// cached, `Ok(Some(pool))` when a new one was opened (it is stored),
    /// or the description of why connecting failed.
    pub fn record_connect(&mut self, pool: Result<Option<P>, String>)
        requires
            old(self).wf(),
            old(self).failure() is None,
            old(self).stage() == SetupStage::Connect,
            pool matches Ok(None) ==> old(self).databases().pools().contains_key(
                old(self).databases().default_dbname(),
            ),
        ensures
            final(self).wf(),
            final(self).executed() == old(self).executed(),
            final(self).configured() == old(self).configured(),
            final(self).databases().managed() == old(self).databases().managed(),
            final(self).databases().connection() == old(self).databases().connection(),
            match pool {
                Ok(p) => {
                    &&& final(self).stage() == SetupStage::LookupConnecting
                    &&& final(self).failure() is None
                    &&& final(self).databases().pools() == match p {
                        Some(q) => old(self).databases().pools().insert(
                            old(self).databases().default_dbname(),
                            q,
                        ),
                        None => old(self).databases().pools(),
                    }
                },
                Err(m) => final(self).failure() matches Some(Error::Internal(e)) && e@ == m@,
            },
    {
        match pool {
            Ok(Some(p)) => {
                let name = self.databases.default_dbname_ref().clone();
                self.databases.store(name, p);
                self.stage = SetupStage::LookupConnecting;
            },
            Ok(None) => {
                self.stage = SetupStage::LookupConnecting;
            },
            Err(m) => {
                self.failure = Some(Error::Internal(m));
            },
        }
    }

    /// Record the connecting user's permissions (or why looking them up
    /// failed). Without both `CREATEROLE` and `CREATEDB` the setup fails
    /// with `InvalidPermissions`.
    pub fn record_connecting(&mut self, user: Result<User, String>)
        requires
            old(self).wf(),
            old(self).failure() is None,
            old(self).stage() == SetupStage::LookupConnecting,
        ensures
            final(self).wf(),
            final(self).executed() == old(self).executed(),
            final(self).databases() == old(self).databases(),
            final(self).configured() == old(self).configured(),
            match user {
                Ok(u) => if u.create_role && u.create_db {
                    final(self).stage() == SetupStage::LookupPgbouncer && final(self).failure() is None
                        && final(self).permitted()
                } else {
                    final(self).failure() matches Some(e) && e is InvalidPermissions
                },
                Err(m) => final(self).failure() matches Some(Error::Internal(e)) && e@ == m@,
            },
    {
        match user {
            Ok(u) => match check_connecting_user(&u) {
                Ok(()) => {
                    self.permitted = true;
                    self.stage = SetupStage::LookupPgbouncer;
                },
                Err(e) => {
                    self.failure = Some(e);
                },
            },
            Err(m) => {
                self.failure = Some(Error::Internal(m));
            },
        }
    }

    /// Record the `pgbouncer` user, if it exists (or why looking it up
    /// failed). When it is missing, its creation is the next statement.
    pub fn record_pgbouncer(&mut self, user: Result<Option<User>, String>)
        requires
            old(self).wf(),
            old(self).failure() is None,
            old(self).stage() == SetupStage::LookupPgbouncer,
        ensures
            final(self).wf(),
            final(self).executed() == old(self).executed(),
            final(self).databases() == old(self).databases(),
            final(self).configured() == old(self).configured(),
            match user {
                Ok(u) => {
                    &&& final(self).failure() is None
                    &&& final(self).pgbouncer_found() == (u is Some)
                    &&& final(self).cannot_login() == (u matches Some(v) && !v.can_login)
                    &&& final(self).stage() == (if u is Some {
                        SetupStage::RunSchema
                    } else {
                        SetupStage::RunPgbouncer
                    })
                    &&& final(self).planned() == (if u is Some {
                        schema_sql()
                    } else {
                        seq![create_pgbouncer_sql()]
                    })
                },
                Err(m) => final(self).failure() matches Some(Error::Internal(e)) && e@ == m@,
            },
    {
        match user {
            Ok(u) => {
                match pgbouncer_setup(&u) {
                    PgbouncerSetup::Create(sql) => {
                        self.pgbouncer_found = false;
                        self.cannot_login = false;
                        let mut batch: Vec<String> = Vec::new();
                        batch.push(sql);
                        self.begin_batch(SetupStage::RunPgbouncer, batch);
                        assert(texts(self.batch@) =~= self.expected());
                    },
                    PgbouncerSetup::Exists { can_login } => {
                        self.pgbouncer_found = true;
                        self.cannot_login = !can_login;
                        self.begin_batch(SetupStage::RunSchema, schema_statements());
                        assert(texts(self.batch@) =~= self.expected());
                    },
                }
                assert(texts(self.batch@).len() == self.batch@.len());
                assert(self.executed@ =~= self.before() + texts(self.batch@).take(0));
            },
            Err(m) => {
                self.failure = Some(Error::Internal(m));
            },
        }
    }

    /// Record whether the lookup function exists (or why looking it up
    /// failed); `create_lookup` defines it. Its definition, when it is
    /// missing, and its permissions are the next statements.
    pub fn record_function(&mut self, found: Result<bool, String>, create_lookup: String)
        requires
            old(self).wf(),
            old(self).failure() is None,
            old(self).stage() == SetupStage::LookupFunction,
        ensures
            final(self).wf(),
            final(self).executed() == old(self).executed(),
            final(self).databases() == old(self).databases(),
            final(self).configured() == old(self).configured(),
            final(self).pgbouncer_found() == old(self).pgbouncer_found(),
            final(self).cannot_login() == old(self).cannot_login(),
            match found {
                Ok(e) => {
                    &&& final(self).stage() == SetupStage::RunAuthentication
                    &&& final(self).failure() is None
                    &&& final(self).function_answer() == (e, create_lookup@)
                    &&& final(self).planned() == (if e {
                        lookup_permission_sql()
                    } else {
                        seq![create_lookup@] + lookup_permission_sql()
                    })
                },
                Err(m) => final(self).failure() matches Some(Error::Internal(e)) && e@ == m@,
            },
    {
        match found {
            Ok(e) => {
                self.function_exists = e;
                let batch = authentication_statements(e, create_lookup.clone());
                self.create_lookup = create_lookup;
                self.begin_batch(SetupStage::RunAuthentication, batch);
                assert(texts(self.batch@) =~= self.expected());
                assert(texts(self.batch@).len() == self.batch@.len());
                assert(self.executed@ =~= self.before() + texts(self.batch@).take(0));
            },
            Err(m) => {
                self.failure = Some(Error::Internal(m));
            },
        }
    }

    /// Record the result of the statement asked for; after the last of a
    /// stage, the setup moves on to the next stage.
    pub fn record_statement(&mut self, result: Result<(), String>)
        requires
            old(self).wf(),
            old(self).failure() is None,
            old(self).stage() == SetupStage::RunPgbouncer || old(self).stage() == SetupStage::RunSchema
                || old(self).stage() == SetupStage::RunAuthentication,
        ensures
            final(self).wf(),
            final(self).databases() == old(self).databases(),
            final(self).configured() == old(self).configured(),
            final(self).pgbouncer_found() == old(self).pgbouncer_found(),
            final(self).cannot_login() == old(self).cannot_login(),
            old(self).stage() == SetupStage::RunAuthentication ==> final(self).function_answer()
                == old(self).function_answer(),
            match result {
                Ok(()) => final(self).failure() is None && final(self).executed().len() == old(self).executed().len() + 1 && final(self).executed().take(old(self).executed().len() as int) == old(self).executed(),
                Err(m) => final(self).executed() == old(self).executed() && (final(self).failure() matches Some(Error::Internal(e)) && e@ == m@),
            },
    {
        match result {
            Ok(()) => {
                let total = self.batch.len();
                let ghost t = texts(self.batch@);
                let ghost b = self.before();
                proof {
                    assert(self.ran < self.batch@.len());
                    assert(t.take(self.ran + 1) =~= t.take(self.ran as int).push(t[self.ran as int]));
                }
                self.executed = Ghost(self.executed@.push(t[self.ran as int]));
                self.ran = self.ran + 1;
                proof {
                    assert(self.executed@ =~= b + t.take(self.ran as int));
                    assert(self.executed@.take(old(self).executed@.len() as int) =~= old(self).executed@);
                }
                if self.ran == total {
                    proof {
                        assert(t.take(self.ran as int) =~= t);
                    }
                    match self.stage {
                        SetupStage::RunPgbouncer => {
                            self.begin_batch(SetupStage::RunSchema, schema_statements());
                            assert(texts(self.batch@) =~= self.expected());
                            assert(texts(self.batch@).len() == self.batch@.len());
                        },
                        SetupStage::RunSchema => {
                            self.begin_batch(SetupStage::LookupFunction, Vec::new());
                            assert(texts(self.batch@) =~= self.expected());
                        },
                        _ => {
                            self.begin_batch(SetupStage::Done, Vec::new());
                            assert(texts(self.batch@) =~= self.expected());
                        },
                    }
                    proof {
                        assert(texts(self.batch@).take(0) =~= Seq::<Seq<char>>::empty());
                        assert(self.executed@ =~= self.before() + texts(self.batch@).take(0));
                    }
                }
            },
            Err(m) => {
                self.failure = Some(Error::Internal(m));
            },
        }
    }

    /// The outcome: the manager, when no step failed, or the failure. A
    /// manager is handed out exactly when the connecting user has both
    /// permissions and every configuration statement succeeded; it refuses
    /// the options' default database and hands retained databases to the
    /// options' user.
    pub fn finish(self) -> (r: Result<Databases<P>, Error>)
        requires
            self.wf(),
            self.failure() is Some || self.stage() == SetupStage::Done,
        ensures
            match r {
                Ok(d) => {
                    &&& self.failure() is None
                    &&& self.permitted()
                    &&& self.executed() == self.script()
                    &&& d == self.databases()
                    &&& d.wf()
                    &&& d.default_dbname() == self.configured().0
                    &&& d.default_username() == self.configured().1
                    &&& d.managed() == Set::<Seq<char>>::empty()
                },
                Err(e) => self.failure() == Some(e),
            },
    {
        proof {
            if self.failure is None {
                assert(texts(self.batch@).take(self.ran as int) =~= Seq::<Seq<char>>::empty());
                assert(self.executed@ =~= self.script());
            }
        }
        match self.failure {
            Some(e) => Err(e),
            None => Ok(self.databases),
        }
    }
}

/// A manager set up from options refuses exactly the options' default
/// database, and a removal that retains a database hands it to the options'
/// user: [`Setup::finish`] gives a manager whose default database and user
/// are those the setup started from ([`Setup::new`]).
pub proof fn lemma_manager_follows_options<P>(d: Databases<P>, opts: Options, database: Seq<char>)
    requires
        d.default_dbname() == opts.default_dbname@,
        d.default_username() == opts.username@,
    ensures
        (database == d.default_dbname()) == (database == opts.default_dbname@),
        crate::database::removal_sql(database, true, d.default_username())[0] == "ALTER DATABASE "@
            + database + " OWNER TO "@ + opts.username@,
        !d.managed().contains(opts.default_dbname@),
{
}

/// Where ensuring a database stands.
#[derive(Clone, Copy, Debug, PartialEq, Eq, Structural)]
pub enum EnsureStage {
    LookupUser,
    RunUser,
    LookupDatabase,
    RunDatabase,
    Connect,
    RunSchema,
    LookupFunction,
    RunAuthentication,
    Done,
}

/// What ensuring a database asks for next.
#[derive(Clone, Copy, Debug, PartialEq, Eq, Structural)]
pub enum EnsureStep {
    /// Whether the database's user exists, on the default database.
    LookupUser,
    /// Whether the database exists, on the default database.
    LookupDatabase,
    /// Run the statement at this position of [`Ensure::batch`]: on the
    /// default database when `on_default`, else on the database itself.
    Run { index: usize, on_default: bool },
    /// A pool for the database: the cached one, or a new one to store.
    Connect,
    /// Whether the lookup function exists, on the database.
    LookupFunction,
    /// Nothing more; [`Ensure::finish`] gives the outcome.
    Finished,
}

/// The statements that ensuring a database runs, in order, once the
/// lookups found whether the user, the database and the lookup function
/// exist: the user's, the database's, the schema's, and the lookup function's.
pub open spec fn ensure_sql(
    name: Seq<char>,
    password: Seq<char>,
    user_exists: bool,
    database_exists: bool,
    function_exists: bool,
    create_lookup: Seq<char>,
) -> Seq<Seq<char>> {
    seq![ensure_user_sql(name, password, user_exists), ensure_database_sql(name, database_exists)]
        + schema_sql() + (if function_exists {
        lookup_permission_sql()
    } else {
        seq![create_lookup] + lookup_permission_sql()
    })
}

/// Ensuring a database a second time, once the first run created its user,
/// the database and the lookup function (so that the lookups now find
/// them), creates none of them again: the user only gets its password set,
/// the database its owner, and the schema and permissions are reasserted.
pub proof fn lemma_ensure_repeats_without_creating(
    name: Seq<char>,
    password: Seq<char>,
    create_lookup: Seq<char>,
)
    ensures
        ensure_sql(name, password, true, true, true, create_lookup) == seq![
            "ALTER USER "@ + name + " WITH PASSWORD '"@ + password + "'"@,
            "ALTER DATABASE "@ + name + " OWNER TO "@ + name,
        ] + schema_sql() + lookup_permission_sql(),
{
}

/// Ensuring a database for the first time, when neither its user, nor the
/// database, nor the lookup function exists yet, creates the user with
/// exactly the given password, then the database owned by that user, then
/// the schema, the lookup function and its permissions.
pub proof fn lemma_first_ensure_creates_everything(
    name: Seq<char>,
    password: Seq<char>,
    create_lookup: Seq<char>,
)
    ensures
        ensure_sql(name, password, false, false, false, create_lookup) == seq![
            "CREATE USER "@ + name
                + " WITH LOGIN NOSUPERUSER NOCREATEROLE NOCREATEDB NOREPLICATION NOBYPASSRLS PASSWORD '"@
                + password + "'"@,
            "CREATE DATABASE "@ + name + " WITH OWNER "@ + name,
        ] + schema_sql() + seq![create_lookup] + lookup_permission_sql(),
{
    assert(ensure_sql(name, password, false, false, false, create_lookup) =~= seq![
        "CREATE USER "@ + name
            + " WITH LOGIN NOSUPERUSER NOCREATEROLE NOCREATEDB NOREPLICATION NOBYPASSRLS PASSWORD '"@
            + password + "'"@,
        "CREATE DATABASE "@ + name + " WITH OWNER "@ + name,
    ] + schema_sql() + seq![create_lookup] + lookup_permission_sql());
}

/// Ensuring that a database exists and is configured: its user with the
/// password, the database owned by that user, a pool for it (which makes it
/// managed), then the schema and the lookup function in it.
pub struct Ensure {
    name: String,
    password: String,
    stage: EnsureStage,
    batch: Vec<String>,
    ran: usize,
    user_exists: bool,
    database_exists: bool,
    function_exists: bool,
    create_lookup: String,
    connected: bool,
    executed: Ghost<Seq<Seq<char>>>,
    failure: Option<Error>,
}

impl Ensure {
    pub closed spec fn stage(&self) -> EnsureStage {
        self.stage
    }

    /// The database (and user) being ensured.
    pub closed spec fn name(&self) -> Seq<char> {
        self.name@
    }

    /// The failure that ended the procedure, if any.
    pub closed spec fn failure(&self) -> Option<Error> {
        self.failure
    }

    /// Whether the database's pool was found or stored.
    pub closed spec fn connected(&self) -> bool {
        self.connected
    }

    /// The statements that succeeded, in order.
    pub closed spec fn executed(&self) -> Seq<Seq<char>> {
        self.executed@
    }

    /// The statements of the current stage.
    pub closed spec fn planned(&self) -> Seq<Seq<char>> {
        texts(self.batch@)
    }

    /// The password the user gets.
    pub closed spec fn password(&self) -> Seq<char> {
        self.password@
    }

    /// What the lookups found so far: whether the user, the database and
    /// the lookup function exist, and the statement that defines the function.
    pub closed spec fn answers(&self) -> (bool, bool, bool, Seq<char>) {
        (self.user_exists, self.database_exists, self.function_exists, self.create_lookup@)
    }

    /// Every statement of the procedure, by what the lookups found.
    pub open spec fn script(&self) -> Seq<Seq<char>> {
        ensure_sql(
            self.name(),
            self.password(),
            self.answers().0,
            self.answers().1,
            self.answers().2,
            self.answers().3,
        )
    }

    /// The statements run before the current stage's.
    pub closed spec fn before(&self) -> Seq<Seq<char>> {
        let u = ensure_user_sql(self.name@, self.password@, self.user_exists);
        let d = ensure_database_sql(self.name@, self.database_exists);
        match self.stage {
            EnsureStage::LookupUser | EnsureStage::RunUser => Seq::empty(),
            EnsureStage::LookupDatabase | EnsureStage::RunDatabase => seq![u],
            EnsureStage::Connect | EnsureStage::RunSchema => seq![u, d],
            EnsureStage::LookupFunction | EnsureStage::RunAuthentication => seq![u, d] + schema_sql(),
            EnsureStage::Done => self.script(),
        }
    }

    /// The statements the current stage runs.
    pub closed spec fn expected(&self) -> Seq<Seq<char>> {
        match self.stage {
            EnsureStage::RunUser => seq![ensure_user_sql(self.name@, self.password@, self.user_exists)],
            EnsureStage::RunDatabase => seq![ensure_database_sql(self.name@, self.database_exists)],
            EnsureStage::RunSchema => schema_sql(),
            EnsureStage::RunAuthentication => if self.function_exists {
                lookup_permission_sql()
            } else {
                seq![self.create_lookup@] + lookup_permission_sql()
            },
            _ => Seq::empty(),
        }
    }

    pub closed spec fn wf(&self) -> bool {
        &&& texts(self.batch@) == self.expected()
        &&& self.ran <= self.batch@.len()
        &&& (self.stage == EnsureStage::RunUser || self.stage == EnsureStage::RunDatabase
            || self.stage == EnsureStage::RunSchema || self.stage == EnsureStage::RunAuthentication)
            ==> self.ran < self.batch@.len()
        &&& self.executed@ == self.before() + texts(self.batch@).take(self.ran as int)
        &&& (self.stage == EnsureStage::RunSchema || self.stage == EnsureStage::LookupFunction
            || self.stage == EnsureStage::RunAuthentication || self.stage == EnsureStage::Done)
            ==> self.connected
    }

    /// Start ensuring `name` with `password`; the default database is refused.
    pub fn start<P>(databases: &Databases<P>, name: String, password: String) -> (r: Result<
        Ensure,
        Error,
    >)
        ensures
            name@ == databases.default_dbname() ==> (r matches Err(e) && e is DefaultDatabase),
            name@ != databases.default_dbname() ==> (r matches Ok(en) && en.wf() && en.name()
                == name@ && en.password() == password@ && en.stage() == EnsureStage::LookupUser
                && en.failure() is None && en.executed() == Seq::<Seq<char>>::empty()),
    {
        if let Err(e) = databases.check_manageable(&name) {
            return Err(e);
        }
        let r = Ensure {
            name,
            password,
            stage: EnsureStage::LookupUser,
            batch: Vec::new(),
            ran: 0,
            user_exists: false,
            database_exists: false,
            function_exists: false,
            create_lookup: String::new(),
            connected: false,
            executed: Ghost(Seq::empty()),
            failure: None,
        };
        assert(texts(r.batch@) =~= Seq::<Seq<char>>::empty());
        assert(texts(r.batch@).take(0) =~= Seq::<Seq<char>>::empty());
        Ok(r)
    }

    /// The database being ensured.
    pub fn name_ref(&self) -> (r: &String)
        ensures
            r@ == self.name(),
    {
        &self.name
    }

    /// The statements of the current stage.
    pub fn batch(&self) -> (r: &Vec<String>)
        ensures
            texts(r@) == self.planned(),
    {
        &self.batch
    }

    /// The next step: nothing after a failure, else the stage's.
    pub fn next(&self) -> (r: EnsureStep)
        requires
            self.wf(),
        ensures
            self.failure() is Some ==> r == EnsureStep::Finished,
            self.failure() is None ==> r == match self.stage() {
                EnsureStage::LookupUser => EnsureStep::LookupUser,
                EnsureStage::LookupDatabase => EnsureStep::LookupDatabase,
                EnsureStage::Connect => EnsureStep::Connect,
                EnsureStage::LookupFunction => EnsureStep::LookupFunction,
                EnsureStage::Done => EnsureStep::Finished,
                EnsureStage::RunUser | EnsureStage::RunDatabase => EnsureStep::Run {
                    index: (self.executed().len() - self.before().len()) as usize,
                    on_default: true,
                },
                EnsureStage::RunSchema | EnsureStage::RunAuthentication => EnsureStep::Run {
                    index: (self.executed().len() - self.before().len()) as usize,
                    on_default: false,
                },
            },
            r matches EnsureStep::Run { index, .. } ==> index < self.planned().len(),
    {
        if self.failure.is_some() {
            return EnsureStep::Finished;
        }
        proof {
            assert(self.executed().len() - self.before().len() == self.ran);
        }
        match self.stage {
            EnsureStage::LookupUser => EnsureStep::LookupUser,
            EnsureStage::LookupDatabase => EnsureStep::LookupDatabase,
            EnsureStage::Connect => EnsureStep::Connect,
            EnsureStage::LookupFunction => EnsureStep::LookupFunction,
            EnsureStage::Done => EnsureStep::Finished,
            EnsureStage::RunUser | EnsureStage::RunDatabase => EnsureStep::Run {
                index: self.ran,
                on_default: true,
            },
            EnsureStage::RunSchema | EnsureStage::RunAuthentication => EnsureStep::Run {
                index: self.ran,
                on_default: false,
            },
        }
    }

    /// Begin a stage that runs `batch`.
    fn begin_batch(&mut self, stage: EnsureStage, batch: Vec<String>)
        requires
            old(self).failure is None,
            stage == EnsureStage::RunUser || stage == EnsureStage::RunDatabase || stage
                == EnsureStage::RunSchema || stage == EnsureStage::RunAuthentication,
        ensures
            final(self).stage == stage,
            final(self).batch == batch,
            final(self).ran == 0,
            final(self).failure is None,
            final(self).name == old(self).name,
            final(self).password == old(self).password,
            final(self).user_exists == old(self).user_exists,
            final(self).database_exists == old(self).database_exists,
            final(self).function_exists == old(self).function_exists,
            final(self).create_lookup == old(self).create_lookup,
            final(self).connected == old(self).connected,
            final(self).executed == old(self).executed,
    {
        self.stage = stage;
        self.batch = batch;
        self.ran = 0;
    }

    /// Record whether the user exists (or why looking it up failed).
    pub fn record_user(&mut self, found: Result<bool, String>)
        requires
            old(self).wf(),
            old(self).failure() is None,
            old(self).stage() == EnsureStage::LookupUser,
        ensures
            final(self).wf(),
            final(self).name() == old(self).name(),
            final(self).executed() == old(self).executed(),
            final(self).password() == old(self).password(),
            match found {
                Ok(e) => {
                    &&& final(self).stage() == EnsureStage::RunUser
                    &&& final(self).failure() is None
                    &&& final(self).answers() == (e, old(self).answers().1, old(self).answers().2, old(self).answers().3)
                    &&& final(self).planned() == seq![ensure_user_sql(old(self).name(), old(self).password(), e)]
                },
                Err(m) => final(self).answers() == old(self).answers() && (final(self).failure() matches Some(Error::Internal(e)) && e@ == m@),
            },
    {
        match found {
            Ok(e) => {
                self.user_exists = e;
                let mut batch: Vec<String> = Vec::new();
                batch.push(ensure_user_statement(&self.name, &self.password, e));
                self.begin_batch(EnsureStage::RunUser, batch);
                assert(texts(self.batch@) =~= self.expected());
                assert(texts(self.batch@).take(0) =~= Seq::<Seq<char>>::empty());
                assert(self.executed@ =~= self.before() + texts(self.batch@).take(0));
            },
            Err(m) => {
                self.failure = Some(Error::Internal(m));
            },
        }
    }

    /// Record whether the database exists (or why looking it up failed).
    pub fn record_database(&mut self, found: Result<bool, String>)
        requires
            old(self).wf(),
            old(self).failure() is None,
            old(self).stage() == EnsureStage::LookupDatabase,
        ensures
            final(self).wf(),
            final(self).name() == old(self).name(),
            final(self).executed() == old(self).executed(),
            final(self).password() == old(self).password(),
            match found {
                Ok(e) => {
                    &&& final(self).stage() == EnsureStage::RunDatabase
                    &&& final(self).failure() is None
                    &&& final(self).answers() == (old(self).answers().0, e, old(self).answers().2, old(self).answers().3)
                    &&& final(self).planned() == seq![ensure_database_sql(old(self).name(), e)]
                },
                Err(m) => final(self).answers() == old(self).answers() && (final(self).failure() matches Some(Error::Internal(e)) && e@ == m@),
            },
    {
        match found {
            Ok(e) => {
                self.database_exists = e;
                let mut batch: Vec<String> = Vec::new();
                batch.push(ensure_database_statement(&self.name, e));
                self.begin_batch(EnsureStage::RunDatabase, batch);
                assert(texts(self.batch@) =~= self.expected());
                assert(self.executed@ =~= self.before() + texts(self.batch@).take(0));
            },
            Err(m) => {
                self.failure = Some(Error::Internal(m));
            },
        }
    }

    /// Record the database's pool: `Ok(None)` when it was cached,
    /// `Ok(Some(pool))` when a new one was opened (it is stored, which makes
    /// the database managed), or why connecting failed.
    pub fn record_connect<P>(&mut self, databases: &mut Databases<P>, pool: Result<Option<P>, String>)
        requires
            old(self).wf(),
            old(self).failure() is None,
            old(self).stage() == EnsureStage::Connect,
            old(databases).wf(),
            old(databases).default_dbname() != old(self).name(),
            pool matches Ok(None) ==> old(databases).pools().contains_key(old(self).name()),
        ensures
            final(self).wf(),
            final(databases).wf(),
            final(self).name() == old(self).name(),
            final(self).password() == old(self).password(),
            final(self).answers() == old(self).answers(),
            final(self).executed() == old(self).executed(),
            final(databases).default_dbname() == old(databases).default_dbname(),
            final(databases).default_username() == old(databases).default_username(),
            final(databases).connection() == old(databases).connection(),
            match pool {
                Ok(p) => {
                    &&& final(self).stage() == EnsureStage::RunSchema
                    &&& final(self).failure() is None
                    &&& final(self).connected()
                    &&& final(databases).pools().contains_key(old(self).name())
                    &&& final(databases).managed() == old(databases).managed().insert(old(self).name())
                    &&& final(databases).pools() == match p {
                        Some(q) => old(databases).pools().insert(old(self).name(), q),
                        None => old(databases).pools(),
                    }
                },
                Err(m) => final(databases).pools() == old(databases).pools() && (final(self).failure() matches Some(Error::Internal(e)) && e@ == m@),
            },
    {
        match pool {
            Ok(p) => {
                match p {
                    Some(q) => {
                        databases.store(self.name.clone(), q);
                    },
                    None => {
                        assert(databases.managed() =~= old(databases).managed().insert(self.name@));
                    },
                }
                self.connected = true;
                self.begin_batch(EnsureStage::RunSchema, schema_statements());
                assert(texts(self.batch@) =~= self.expected());
                assert(texts(self.batch@).len() == self.batch@.len());
                assert(self.executed@ =~= self.before() + texts(self.batch@).take(0));
            },
            Err(m) => {
                self.failure = Some(Error::Internal(m));
            },
        }
    }

    /// Record whether the lookup function exists in the database (or why
    /// looking it up failed); `create_lookup` defines it.
    pub fn record_function(&mut self, found: Result<bool, String>, create_lookup: String)
        requires
            old(self).wf(),
            old(self).failure() is None,
            old(self).stage() == EnsureStage::LookupFunction,
        ensures
            final(self).wf(),
            final(self).name() == old(self).name(),
            final(self).connected() == old(self).connected(),
            final(self).executed() == old(self).executed(),
            final(self).password() == old(self).password(),
            match found {
                Ok(e) => {
                    &&& final(self).stage() == EnsureStage::RunAuthentication
                    &&& final(self).failure() is None
                    &&& final(self).answers() == (old(self).answers().0, old(self).answers().1, e, create_lookup@)
                    &&& final(self).planned() == (if e {
                        lookup_permission_sql()
                    } else {
                        seq![create_lookup@] + lookup_permission_sql()
                    })
                },
                Err(m) => final(self).answers() == old(self).answers() && (final(self).failure() matches Some(Error::Internal(e)) && e@ == m@),
            },
    {
        match found {
            Ok(e) => {
                self.function_exists = e;
                let batch = authentication_statements(e, create_lookup.clone());
                self.create_lookup = create_lookup;
                self.begin_batch(EnsureStage::RunAuthentication, batch);
                assert(texts(self.batch@) =~= self.expected());
                assert(self.executed@ =~= self.before() + texts(self.batch@).take(0));
            },
            Err(m) => {
                self.failure = Some(Error::Internal(m));
            },
        }
    }

    /// Record the result of the statement asked for; after the last of a
    /// stage, the procedure moves on to the next stage.
    pub fn record_statement(&mut self, result: Result<(), String>)
        requires
            old(self).wf(),
            old(self).failure() is None,
            old(self).stage() == EnsureStage::RunUser || old(self).stage() == EnsureStage::RunDatabase
                || old(self).stage() == EnsureStage::RunSchema || old(self).stage()
                == EnsureStage::RunAuthentication,
        ensures
            final(self).wf(),
            final(self).name() == old(self).name(),
            final(self).password() == old(self).password(),
            final(self).answers() == old(self).answers(),
            final(self).connected() == old(self).connected(),
            match result {
                Ok(()) => final(self).failure() is None && final(self).executed().len() == old(self).executed().len() + 1 && final(self).executed().take(old(self).executed().len() as int)
                    == old(self).executed(),
                Err(m) => final(self).executed() == old(self).executed() && (final(self).failure() matches Some(Error::Internal(e)) && e@ == m@),
            },
    {
        match result {
            Ok(()) => {
                let total = self.batch.len();
                let ghost t = texts(self.batch@);
                let ghost b = self.before();
                proof {
                    assert(self.ran < self.batch@.len());
                    assert(t.take(self.ran + 1) =~= t.take(self.ran as int).push(t[self.ran as int]));
                }
                self.executed = Ghost(self.executed@.push(t[self.ran as int]));
                self.ran = self.ran + 1;
                proof {
                    assert(self.executed@ =~= b + t.take(self.ran as int));
                    assert(self.executed@.take(old(self).executed@.len() as int) =~= old(self).executed@);
                }
                if self.ran == self.batch.len() {
                    proof {
                        assert(t.take(self.ran as int) =~= t);
                    }
                    match self.stage {
                        EnsureStage::RunUser => {
                            self.stage = EnsureStage::LookupDatabase;
                        },
                        EnsureStage::RunDatabase => {
                            self.stage = EnsureStage::Connect;
                        },
                        EnsureStage::RunSchema => {
                            self.stage = EnsureStage::LookupFunction;
                        },
                        _ => {
                            self.stage = EnsureStage::Done;
                        },
                    }
                    self.batch = Vec::new();
                    self.ran = 0;
                    proof {
                        assert(texts(self.batch@) =~= Seq::<Seq<char>>::empty());
                        assert(texts(self.batch@) =~= self.expected());
                        assert(texts(self.batch@).take(0) =~= Seq::<Seq<char>>::empty());
                        assert(self.executed@ =~= self.before() + texts(self.batch@).take(0));
                    }
                }
            },
            Err(m) => {
                self.failure = Some(Error::Internal(m));
            },
        }
    }

    /// The outcome: success exactly when no step failed, in which case the
    /// database's pool was found or stored (the database is managed) and the
    /// statements that ran are exactly [`ensure_sql`] for what the lookups found.
    pub fn finish(self) -> (r: Result<(), Error>)
        requires
            self.wf(),
            self.failure() is Some || self.stage() == EnsureStage::Done,
        ensures
            match r {
                Ok(()) => self.failure() is None && self.connected() && self.executed()
                    == self.script(),
                Err(e) => self.failure() == Some(e),
            },
    {
        proof {
            if self.failure is None {
                assert(texts(self.batch@).take(self.ran as int) =~= Seq::<Seq<char>>::empty());
                assert(self.executed@ =~= self.script());
            }
        }
        match self.failure {
            Some(e) => Err(e),
            None => Ok(()),
        }
    }
}

} // verus!
