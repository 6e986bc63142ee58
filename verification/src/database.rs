//! Management of the databases on the PostgreSQL server: which databases are
//! managed (one connection pool each), which may not be touched, and the SQL
//! statements that set up, repair and remove a database and its user.

use crate::named_map::NamedMap;
use crate::text::owned;
use vstd::prelude::*;
use vstd::string::StringExecFns;

verus! {

/// What can go wrong while managing databases.
#[derive(Debug)]
pub enum Error {
    /// The connecting user lacks the `CREATEROLE` or `CREATEDB` permission.
    InvalidPermissions,
    /// The default database may be neither created nor removed.
    DefaultDatabase,
    /// The server reported an error; the message is its description.
    Internal(String),
}

/// The text shown for an error.
pub open spec fn error_message(e: Error) -> Seq<char> {
    match e {
        Error::InvalidPermissions => "invalid permissions for connected user"@,
        Error::DefaultDatabase => "cannot create or remove default database"@,
        Error::Internal(m) => m@,
    }
}

impl Error {
    /// The text shown for this error.
    pub fn message(&self) -> (r: String)
        ensures
            r@ == error_message(*self),
    {
        match self {
            Error::InvalidPermissions => owned("invalid permissions for connected user"),
            Error::DefaultDatabase => owned("cannot create or remove default database"),
            Error::Internal(m) => m.clone(),
        }
    }
}

/// How clients are to secure their connection to the server.
#[derive(Clone, Copy, Debug, PartialEq, Eq, Structural)]
pub enum SslMode {
    Disable,
    Allow,
    Prefer,
    Require,
    VerifyCa,
    VerifyFull,
}

/// The mode's name as the `PGSSLMODE` value: the variant's name in lower case.
pub open spec fn ssl_mode_name(mode: SslMode) -> Seq<char> {
    match mode {
        SslMode::Disable => "disable"@,
        SslMode::Allow => "allow"@,
        SslMode::Prefer => "prefer"@,
        SslMode::Require => "require"@,
        SslMode::VerifyCa => "verifyca"@,
        SslMode::VerifyFull => "verifyfull"@,
    }
}

impl SslMode {
    /// See [`ssl_mode_name`].
    pub fn name(&self) -> (r: String)
        ensures
            r@ == ssl_mode_name(*self),
    {
        match self {
            SslMode::Disable => owned("disable"),
            SslMode::Allow => owned("allow"),
            SslMode::Prefer => owned("prefer"),
            SslMode::Require => owned("require"),
            SslMode::VerifyCa => owned("verifyca"),
            SslMode::VerifyFull => owned("verifyfull"),
        }
    }
}

/// The name the manager gives itself in its connections to the server.
pub open spec fn application_name() -> Seq<char> {
    "external-postgres"@
}

/// How the manager connects to the server, as configured.
pub struct Options {
    /// The database to connect to by default.
    pub default_dbname: String,
    /// The directory of the server's Unix socket.
    pub socket: String,
    /// The host to connect to, if any.
    pub host: Option<String>,
    pub port: u16,
    /// The user to connect as.
    pub username: String,
    pub password: Option<String>,
    pub ssl_mode: SslMode,
}

/// The settings of every connection the manager opens.
pub struct ConnectionSettings {
    pub application_name: String,
    pub port: u16,
    pub username: String,
    pub ssl_mode: SslMode,
    /// The password, when one is to be sent.
    pub password: Option<String>,
    pub endpoint: Endpoint,
}

/// The settings are exactly those of the options: the port, user and SSL
/// mode as given, the application's name, the password only when given and
/// not empty, and the host when given and not empty, else the socket.
pub open spec fn settings_of(s: ConnectionSettings, opts: Options) -> bool {
    &&& s.application_name@ == application_name()
    &&& s.port == opts.port
    &&& s.username@ == opts.username@
    &&& s.ssl_mode == opts.ssl_mode
    &&& match opts.password {
        Some(p) if p@.len() > 0 => s.password matches Some(q) && q@ == p@,
        _ => s.password is None,
    }
    &&& match opts.host {
        Some(h) if h@.len() > 0 => s.endpoint matches Endpoint::Host(e) && e@ == h@,
        _ => s.endpoint matches Endpoint::Socket(e) && e@ == opts.socket@,
    }
}

/// See [`settings_of`].
pub fn connection_settings(opts: &Options) -> (r: ConnectionSettings)
    ensures
        settings_of(r, *opts),
{
    ConnectionSettings {
        application_name: owned("external-postgres"),
        port: opts.port,
        username: opts.username.clone(),
        ssl_mode: opts.ssl_mode,
        password: connection_password(&opts.password),
        endpoint: connection_endpoint(&opts.host, &opts.socket),
    }
}

/// The permissions of a role on the server.
pub struct User {
    pub username: String,
    pub can_login: bool,
    pub create_role: bool,
    pub create_db: bool,
    pub bypass_rls: bool,
    pub superuser: bool,
}

/// The string, unless it is empty.
pub fn non_empty_optional(s: &String) -> (r: Option<&String>)
    ensures
        r == (if s@.len() == 0 {
            None
        } else {
            Some(s)
        }),
{
    if s.as_str().is_empty() {
        None
    } else {
        Some(s)
    }
}

/// Where the server is reached.
pub enum Endpoint {
    /// Over TCP, at this host.
    Host(String),
    /// Over the Unix socket in this directory.
    Socket(String),
}

/// The endpoint to connect to: the host when one is given and not empty,
/// and the socket directory otherwise.
pub fn connection_endpoint(host: &Option<String>, socket: &String) -> (r: Endpoint)
    ensures
        match host {
            Some(h) if h@.len() > 0 => r == Endpoint::Host(*h),
            _ => r == Endpoint::Socket(*socket),
        },
{
    match host {
        Some(h) => match non_empty_optional(h) {
            Some(h) => Endpoint::Host(h.clone()),
            None => Endpoint::Socket(socket.clone()),
        },
        None => Endpoint::Socket(socket.clone()),
    }
}

/// The password to connect with: the one given, unless it is empty.
pub fn connection_password(password: &Option<String>) -> (r: Option<String>)
    ensures
        match password {
            Some(p) if p@.len() > 0 => r == Some(*p),
            _ => r is None,
        },
{
    match password {
        Some(p) => match non_empty_optional(p) {
            Some(p) => Some(p.clone()),
            None => None,
        },
        None => None,
    }
}

/// The connecting user may manage databases only with both the `CREATEROLE`
/// and the `CREATEDB` permission.
pub fn check_connecting_user(user: &User) -> (r: Result<(), Error>)
    ensures
        r is Ok <==> (user.create_role && user.create_db),
        r matches Err(e) ==> e is InvalidPermissions,
{
    if !(user.create_role && user.create_db) {
        Err(Error::InvalidPermissions)
    } else {
        Ok(())
    }
}

/// The statement that creates the `pgbouncer` user.
pub open spec fn create_pgbouncer_sql() -> Seq<char> {
    "CREATE USER pgbouncer WITH LOGIN NOSUPERUSER NOCREATEROLE NOCREATEDB NOREPLICATION NOBYPASSRLS"@
}

/// What to do about the `pgbouncer` user that connection poolers authenticate as.
pub enum PgbouncerSetup {
    /// It does not exist: run this statement to create it.
    Create(String),
    /// It exists; `can_login` is false when it cannot log in, which deserves a warning.
    Exists { can_login: bool },
}

/// Create the `pgbouncer` user when the lookup found none.
pub fn pgbouncer_setup(existing: &Option<User>) -> (r: PgbouncerSetup)
    ensures
        match existing {
            Some(u) => r == PgbouncerSetup::Exists { can_login: u.can_login },
            None => r matches PgbouncerSetup::Create(s) && s@ == create_pgbouncer_sql(),
        },
{
    match existing {
        Some(u) => PgbouncerSetup::Exists { can_login: u.can_login },
        None => PgbouncerSetup::Create(
            owned(
                "CREATE USER pgbouncer WITH LOGIN NOSUPERUSER NOCREATEROLE NOCREATEDB NOREPLICATION NOBYPASSRLS",
            ),
        ),
    }
}

/// The statement that gives the user `name` the password `password`,
/// creating the user when it does not exist yet.
pub open spec fn ensure_user_sql(name: Seq<char>, password: Seq<char>, exists: bool) -> Seq<char> {
    if exists {
        "ALTER USER "@ + name + " WITH PASSWORD '"@ + password + "'"@
    } else {
        "CREATE USER "@ + name
            + " WITH LOGIN NOSUPERUSER NOCREATEROLE NOCREATEDB NOREPLICATION NOBYPASSRLS PASSWORD '"@
            + password + "'"@
    }
}

/// See [`ensure_user_sql`].
pub fn ensure_user_statement(name: &String, password: &String, exists: bool) -> (r: String)
    ensures
        r@ == ensure_user_sql(name@, password@, exists),
{
    if exists {
        owned("ALTER USER ").concat(name.as_str()).concat(" WITH PASSWORD '").concat(
            password.as_str(),
        ).concat("'")
    } else {
        owned("CREATE USER ").concat(name.as_str()).concat(
            " WITH LOGIN NOSUPERUSER NOCREATEROLE NOCREATEDB NOREPLICATION NOBYPASSRLS PASSWORD '",
        ).concat(password.as_str()).concat("'")
    }
}

/// The user statement sets exactly the given password, whether it creates
/// the user or changes an existing one: the password stands whole between
/// the quotes that end the statement, after a text fixed by the user's name
/// alone.
pub proof fn lemma_user_statement_sets_given_password(name: Seq<char>, password: Seq<char>)
    ensures
        ensure_user_sql(name, password, false) == "CREATE USER "@ + name
            + " WITH LOGIN NOSUPERUSER NOCREATEROLE NOCREATEDB NOREPLICATION NOBYPASSRLS PASSWORD '"@
            + password + "'"@,
        ensure_user_sql(name, password, true) == "ALTER USER "@ + name + " WITH PASSWORD '"@
            + password + "'"@,
{
}

/// The statement that makes the database `name` exist, owned by the user `name`.
pub open spec fn ensure_database_sql(name: Seq<char>, exists: bool) -> Seq<char> {
    if exists {
        "ALTER DATABASE "@ + name + " OWNER TO "@ + name
    } else {
        "CREATE DATABASE "@ + name + " WITH OWNER "@ + name
    }
}

/// See [`ensure_database_sql`].
pub fn ensure_database_statement(name: &String, exists: bool) -> (r: String)
    ensures
        r@ == ensure_database_sql(name@, exists),
{
    if exists {
        owned("ALTER DATABASE ").concat(name.as_str()).concat(" OWNER TO ").concat(name.as_str())
    } else {
        owned("CREATE DATABASE ").concat(name.as_str()).concat(" WITH OWNER ").concat(
            name.as_str(),
        )
    }
}

/// The statements that make the `pgbouncer` schema exist and usable by `pgbouncer`.
pub open spec fn schema_sql() -> Seq<Seq<char>> {
    seq!["CREATE SCHEMA IF NOT EXISTS pgbouncer"@, "GRANT USAGE ON SCHEMA pgbouncer TO pgbouncer"@]
}

/// See [`schema_sql`].
pub fn schema_statements() -> (r: Vec<String>)
    ensures
        r@.map_values(|s: String| s@) == schema_sql(),
{
    let mut r: Vec<String> = Vec::new();
    r.push(owned("CREATE SCHEMA IF NOT EXISTS pgbouncer"));
    r.push(owned("GRANT USAGE ON SCHEMA pgbouncer TO pgbouncer"));
    assert(r@.map_values(|s: String| s@) =~= schema_sql());
    r
}

/// The statements that restrict the lookup function to `pgbouncer`.
pub open spec fn lookup_permission_sql() -> Seq<Seq<char>> {
    seq![
        "REVOKE ALL ON FUNCTION pgbouncer.user_lookup(text) FROM public, pgbouncer"@,
        "GRANT EXECUTE ON FUNCTION pgbouncer.user_lookup(text) TO pgbouncer"@,
    ]
}

/// The statements that set up the authentication lookup function: the
/// definition `create_lookup` when the function does not exist yet, then,
/// in any case, the permission statements.
pub fn authentication_statements(lookup_exists: bool, create_lookup: String) -> (r: Vec<String>)
    ensures
        r@.map_values(|s: String| s@) == (if lookup_exists {
            lookup_permission_sql()
        } else {
            seq![create_lookup@] + lookup_permission_sql()
        }),
{
    let mut r: Vec<String> = Vec::new();
    if !lookup_exists {
        r.push(create_lookup);
    }
    r.push(owned("REVOKE ALL ON FUNCTION pgbouncer.user_lookup(text) FROM public, pgbouncer"));
    r.push(owned("GRANT EXECUTE ON FUNCTION pgbouncer.user_lookup(text) TO pgbouncer"));
    assert(r@.map_values(|s: String| s@) =~= (if lookup_exists {
        lookup_permission_sql()
    } else {
        seq![create_lookup@] + lookup_permission_sql()
    }));
    r
}

/// The statements that configure the server: the creation of the `pgbouncer`
/// user when it is missing, then the preparation of the default database.
pub open spec fn configuration_sql(
    pgbouncer_exists: bool,
    lookup_exists: bool,
    create_lookup: Seq<char>,
) -> Seq<Seq<char>> {
    (if pgbouncer_exists {
        Seq::<Seq<char>>::empty()
    } else {
        seq![create_pgbouncer_sql()]
    }) + schema_sql() + (if lookup_exists {
        lookup_permission_sql()
    } else {
        seq![create_lookup] + lookup_permission_sql()
    })
}

/// Configuring a second time, once the first run created the `pgbouncer`
/// user and the lookup function (so that the lookups now find them), creates
/// neither again: only the schema and permission statements are issued,
/// which leave a configured server as it is.
pub proof fn lemma_configuration_repeats_without_creating(create_lookup: Seq<char>)
    ensures
        configuration_sql(true, true, create_lookup) == schema_sql() + lookup_permission_sql(),
        !configuration_sql(true, true, create_lookup).contains(create_pgbouncer_sql()),
{
    let s = configuration_sql(true, true, create_lookup);
    assert(s =~= schema_sql() + lookup_permission_sql());
    reveal_strlit("CREATE USER pgbouncer WITH LOGIN NOSUPERUSER NOCREATEROLE NOCREATEDB NOREPLICATION NOBYPASSRLS");
    reveal_strlit("CREATE SCHEMA IF NOT EXISTS pgbouncer");
    reveal_strlit("GRANT USAGE ON SCHEMA pgbouncer TO pgbouncer");
    reveal_strlit("REVOKE ALL ON FUNCTION pgbouncer.user_lookup(text) FROM public, pgbouncer");
    reveal_strlit("GRANT EXECUTE ON FUNCTION pgbouncer.user_lookup(text) TO pgbouncer");
    assert(create_pgbouncer_sql()[7] != s[0][7]);
    assert(create_pgbouncer_sql()[0] != s[1][0]);
    assert(create_pgbouncer_sql()[0] != s[2][0]);
    assert(create_pgbouncer_sql()[0] != s[3][0]);
}

/// Progress through a sequence of steps (statements, or API calls) that
/// stops at the first failure: the steps run one at a time, in order, and
/// none runs after one failed.
pub struct Progress {
    total: usize,
    ran: usize,
    failure: Option<String>,
}

/// What to do next.
pub enum Next {
    /// Run the step at this position and report its result.
    Run(usize),
    /// Nothing more runs: every step succeeded (`None`), or one failed with this message.
    Finished(Option<String>),
}

impl Progress {
    /// How many steps there are.
    pub closed spec fn total(&self) -> nat {
        self.total as nat
    }

    /// How many steps ran.
    pub closed spec fn ran(&self) -> nat {
        self.ran as nat
    }

    /// The message of the step that failed, if one did.
    pub closed spec fn failure(&self) -> Option<Seq<char>> {
        match self.failure {
            Some(m) => Some(m@),
            None => None,
        }
    }

    pub closed spec fn wf(&self) -> bool {
        self.ran <= self.total
    }

    /// Nothing ran yet.
    pub fn new(total: usize) -> (r: Self)
        ensures
            r.wf(),
            r.total() == total,
            r.ran() == 0,
            r.failure() is None,
    {
        Progress { total, ran: 0, failure: None }
    }

    /// The next step: none after a failure, each in turn otherwise, then the end.
    pub fn next(&self) -> (r: Next)
        requires
            self.wf(),
        ensures
            match self.failure() {
                Some(m) => r matches Next::Finished(Some(f)) && f@ == m,
                None => if self.ran() < self.total() {
                    r == Next::Run(self.ran() as usize)
                } else {
                    r matches Next::Finished(None)
                },
            },
    {
        match &self.failure {
            Some(m) => Next::Finished(Some(m.clone())),
            None => if self.ran < self.total {
                Next::Run(self.ran)
            } else {
                Next::Finished(None)
            },
        }
    }

    /// Record the result of the step that [`Progress::next`] asked for.
    pub fn record(&mut self, result: Result<(), String>)
        requires
            old(self).wf(),
            old(self).failure() is None,
            old(self).ran() < old(self).total(),
        ensures
            final(self).wf(),
            final(self).total() == old(self).total(),
            final(self).ran() == old(self).ran() + 1,
            match result {
                Ok(()) => final(self).failure() is None,
                Err(m) => final(self).failure() == Some(m@),
            },
    {
        self.ran = self.ran + 1;
        match result {
            Ok(()) => {},
            Err(m) => {
                self.failure = Some(m);
            },
        }
    }
}

/// The outcome of running statements: `Internal` with the message of the
/// one that failed, if one did.
pub fn statements_outcome(failure: Option<String>) -> (r: Result<(), Error>)
    ensures
        match failure {
            Some(m) => r matches Err(Error::Internal(e)) && e@ == m@,
            None => r is Ok,
        },
{
    match failure {
        Some(m) => Err(Error::Internal(m)),
        None => Ok(()),
    }
}

/// The statements that remove a database and its user: with `retain`, the
/// database is kept and handed over to `owner`; without it, it is dropped.
pub open spec fn removal_sql(database: Seq<char>, retain: bool, owner: Seq<char>) -> Seq<Seq<char>> {
    seq![
        if retain {
            "ALTER DATABASE "@ + database + " OWNER TO "@ + owner
        } else {
            "DROP DATABASE "@ + database
        },
        "DROP USER "@ + database,
    ]
}

/// A removal without `retain` drops the database and then its user,
/// whoever the owner that a retained database would go to.
pub proof fn lemma_removal_drops_database(database: Seq<char>, owner: Seq<char>)
    ensures
        removal_sql(database, false, owner) == seq![
            "DROP DATABASE "@ + database,
            "DROP USER "@ + database,
        ],
{
    assert(removal_sql(database, false, owner) =~= seq![
        "DROP DATABASE "@ + database,
        "DROP USER "@ + database,
    ]);
}

/// See [`removal_sql`].
pub fn removal_statements(database: &String, retain: bool, owner: &String) -> (r: Vec<String>)
    ensures
        r@.map_values(|s: String| s@) == removal_sql(database@, retain, owner@),
{
    let mut r: Vec<String> = Vec::new();
    if retain {
        r.push(
            owned("ALTER DATABASE ").concat(database.as_str()).concat(" OWNER TO ").concat(
                owner.as_str(),
            ),
        );
    } else {
        r.push(owned("DROP DATABASE ").concat(database.as_str()));
    }
    r.push(owned("DROP USER ").concat(database.as_str()));
    assert(r@.map_values(|s: String| s@) =~= removal_sql(database@, retain, owner@));
    r
}

/// How to get a pool for a database.
#[derive(Clone, Copy, Debug, PartialEq, Eq, Structural)]
pub enum PoolStep {
    /// Use the cached pool.
    Cached,
    /// Open a new pool and store it.
    Open,
}

/// A database taken out of management: its connection pool, to be closed,
/// and the statements to run on the default database afterwards.
pub struct Removal<P> {
    pub pool: P,
    pub statements: Vec<String>,
}

/// The managed databases on one server: a connection pool for each, and the
/// default database and user the manager connects with.
pub struct Databases<P> {
    pools: NamedMap<P>,
    default_dbname: String,
    default_username: String,
    settings: ConnectionSettings,
}

impl<P> Databases<P> {
    pub closed spec fn wf(&self) -> bool {
        self.pools.wf()
    }

    /// The connection pool of each managed database, by name.
    pub closed spec fn pools(&self) -> Map<Seq<char>, P> {
        self.pools@
    }

    /// The database the manager connects to by default.
    pub closed spec fn default_dbname(&self) -> Seq<char> {
        self.default_dbname@
    }

    /// The user the manager connects as, which takes over retained databases.
    pub closed spec fn default_username(&self) -> Seq<char> {
        self.default_username@
    }

    /// The managed databases: those with a pool, but for the default one.
    pub open spec fn managed(&self) -> Set<Seq<char>> {
        self.pools().dom().remove(self.default_dbname())
    }

    /// How the manager connects to the server.
    pub closed spec fn connection(&self) -> ConnectionSettings {
        self.settings
    }

    /// A manager for the server the options describe, with no database
    /// managed yet: it connects with the options' settings, treats the
    /// options' database as the default one and hands retained databases over
    /// to the options' user. It is ready once a [`crate::provisioning::Setup`] finishes with it.
    pub fn new(opts: &Options) -> (d: Self)
        ensures
            d.wf(),
            d.pools() == Map::<Seq<char>, P>::empty(),
            d.default_dbname() == opts.default_dbname@,
            d.default_username() == opts.username@,
            settings_of(d.connection(), *opts),
    {
        Databases {
            pools: NamedMap::new(),
            default_dbname: opts.default_dbname.clone(),
            default_username: opts.username.clone(),
            settings: connection_settings(opts),
        }
    }

    /// How the manager connects to the server.
    pub fn settings(&self) -> (r: &ConnectionSettings)
        ensures
            *r == self.connection(),
    {
        &self.settings
    }

    /// The name of the default database.
    pub fn default_dbname_ref(&self) -> (r: &String)
        ensures
            r@ == self.default_dbname(),
    {
        &self.default_dbname
    }

    /// The names of all the managed databases, each once: the databases
    /// with a pool, but for the default database, which is not managed.
    pub fn managed_databases(&self) -> (r: Vec<String>)
        requires
            self.wf(),
        ensures
            forall|i: int, j: int| 0 <= i < j < r@.len() ==> #[trigger] r@[i]@ != #[trigger] r@[j]@,
            forall|k: Seq<char>|
                self.managed().contains(k) <==> exists|i: int|
                    0 <= i < r@.len() && #[trigger] r@[i]@ == k,
    {
        let mut keys = self.pools.keys();
        let ghost all = keys@;
        let mut i: usize = 0;
        while i < keys.len()
            invariant
                keys@ == all,
                i <= keys@.len(),
                forall|j: int| 0 <= j < i ==> keys@[j]@ != self.default_dbname@,
            ensures
                keys@ == all,
                i <= keys@.len(),
                forall|j: int| 0 <= j < i ==> keys@[j]@ != self.default_dbname@,
                i < keys@.len() ==> keys@[i as int]@ == self.default_dbname@,
            decreases keys@.len() - i,
        {
            if keys[i] == self.default_dbname {
                break;
            }
            i = i + 1;
        }
        if i < keys.len() {
            keys.remove(i);
            proof {
                let d = self.default_dbname@;
                assert(all[i as int]@ == d);
                assert forall|j: int| 0 <= j < keys@.len() implies #[trigger] keys@[j] == (if j < i {
                    all[j]
                } else {
                    all[j + 1]
                }) by {}
                assert forall|a: int, b: int|
                    0 <= a < b < keys@.len() implies #[trigger] keys@[a]@ != #[trigger] keys@[b]@ by {
                    let aa = if a < i {
                        a
                    } else {
                        a + 1
                    };
                    let bb = if b < i {
                        b
                    } else {
                        b + 1
                    };
                    assert(keys@[a] == all[aa]);
                    assert(keys@[b] == all[bb]);
                    assert(all[aa]@ != all[bb]@);
                }
                assert forall|k: Seq<char>|
                    (self.pools().contains_key(k) && k != d) implies exists|a: int|
                    0 <= a < keys@.len() && #[trigger] keys@[a]@ == k by {
                    let jj = choose|jj: int| 0 <= jj < all.len() && #[trigger] all[jj]@ == k;
                    assert(jj != i);
                    let a = if jj < i {
                        jj
                    } else {
                        jj - 1
                    };
                    assert(keys@[a] == all[jj]);
                }
                assert forall|k: Seq<char>|
                    (exists|a: int| 0 <= a < keys@.len() && #[trigger] keys@[a]@ == k) implies (
                    self.pools().contains_key(k) && k != d) by {
                    let a = choose|a: int| 0 <= a < keys@.len() && #[trigger] keys@[a]@ == k;
                    let aa = if a < i {
                        a
                    } else {
                        a + 1
                    };
                    assert(keys@[a] == all[aa]);
                    assert(aa != i);
                    assert(all[aa]@ != all[i as int]@);
                }
            }
        }
        keys
    }

    /// The pool of a managed database, if it has one.
    pub fn cached(&self, database: &String) -> (r: Option<&P>)
        requires
            self.wf(),
        ensures
            match r {
                Some(p) => self.pools().contains_key(database@) && *p == self.pools()[database@],
                None => !self.pools().contains_key(database@),
            },
    {
        self.pools.get(database)
    }

    /// How to get a pool for `database`: the cached one when there is one,
    /// else a new one, to be opened and then stored with [`Databases::store`].
    pub fn pool_step(&self, database: &String) -> (r: PoolStep)
        requires
            self.wf(),
        ensures
            r == (if self.pools().contains_key(database@) {
                PoolStep::Cached
            } else {
                PoolStep::Open
            }),
    {
        if self.pools.contains_key(database) {
            PoolStep::Cached
        } else {
            PoolStep::Open
        }
    }

    /// Manage `database` through `pool` from now on.
    pub fn store(&mut self, database: String, pool: P)
        requires
            old(self).wf(),
        ensures
            final(self).wf(),
            final(self).pools() == old(self).pools().insert(database@, pool),
            final(self).default_dbname() == old(self).default_dbname(),
            final(self).default_username() == old(self).default_username(),
            final(self).connection() == old(self).connection(),
            database@ != old(self).default_dbname() ==> final(self).managed() == old(self).managed().insert(database@),
            database@ == old(self).default_dbname() ==> final(self).managed() == old(self).managed(),
    {
        self.pools.insert(database, pool);
        assert(database@ != self.default_dbname@ ==> self.managed() =~= old(self).managed().insert(
            database@,
        ));
        assert(database@ == self.default_dbname@ ==> self.managed() =~= old(self).managed());
    }

    /// Whether `database` may be created or removed: every database but the default one.
    pub fn check_manageable(&self, database: &String) -> (r: Result<(), Error>)
        ensures
            r is Ok <==> database@ != self.default_dbname(),
            r matches Err(e) ==> e is DefaultDatabase,
    {
        if *database == self.default_dbname {
            Err(Error::DefaultDatabase)
        } else {
            Ok(())
        }
    }

    /// Take `database` out of management. The default database is refused and
    /// nothing changes. A database without a pool is not managed: nothing is
    /// to be done (`Ok(None)`). Otherwise its pool is handed back together with
    /// the statements that drop (or, with `retain`, hand over) the database and
    /// drop its user.
    pub fn remove(&mut self, database: &String, retain: bool) -> (r: Result<
        Option<Removal<P>>,
        Error,
    >)
        requires
            old(self).wf(),
        ensures
            final(self).wf(),
            final(self).default_dbname() == old(self).default_dbname(),
            final(self).default_username() == old(self).default_username(),
            final(self).connection() == old(self).connection(),
            database@ == old(self).default_dbname() ==> (r matches Err(e) && e is DefaultDatabase
                && final(self).pools() == old(self).pools()),
            database@ != old(self).default_dbname() ==> {
                &&& r is Ok
                &&& final(self).pools() == old(self).pools().remove(database@)
                &&& final(self).managed() == old(self).managed().remove(database@)
                &&& match r {
                    Ok(Some(removal)) => {
                        &&& old(self).pools().contains_key(database@)
                        &&& removal.pool == old(self).pools()[database@]
                        &&& removal.statements@.map_values(|s: String| s@) == removal_sql(
                            database@,
                            retain,
                            old(self).default_username(),
                        )
                    },
                    _ => !old(self).pools().contains_key(database@),
                }
            },
    {
        if let Err(e) = self.check_manageable(database) {
            return Err(e);
        }
        let result = self.pools.remove(database);
        assert(self.managed() =~= old(self).managed().remove(database@));
        match result {
            Some(pool) => {
                let statements = removal_statements(database, retain, &self.default_username);
                Ok(Some(Removal { pool, statements }))
            },
            None => Ok(None),
        }
    }
}

/// A removal never drops a retained database: with `retain` the first
/// statement hands the database over to the owner, and no statement of the
/// removal drops the database.
pub proof fn lemma_retained_database_is_not_dropped(
    database: Seq<char>,
    owner: Seq<char>,
)
    ensures
        removal_sql(database, true, owner)[0] == "ALTER DATABASE "@ + database + " OWNER TO "@
            + owner,
        removal_sql(database, true, owner)[1] == "DROP USER "@ + database,
        removal_sql(database, true, owner).len() == 2,
{
}

} // verus!
