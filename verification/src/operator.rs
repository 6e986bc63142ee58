//! The Kubernetes operator: `Database` custom resources describe databases
//! that should exist on the server, together with the secrets through which
//! workloads connect to them. This module decides what reconciling a resource
//! does (names, passwords, secret contents) and tracks whether the operator runs.

use crate::database;
pub use crate::database::{ssl_mode_name, SslMode};
use crate::models::Status;
use crate::named_map::NamedMap;
use crate::path::{expand_tilde, ExpandedPath};
use crate::text::{
    all_digits, decimal, decimal_value, lemma_decimal_reads_back, owned, u16_to_decimal,
    utf8_to_string,
};
use vstd::prelude::*;
use vstd::string::StringExecFns;
use vstd::utf8::{decode_utf8, valid_utf8};

verus! {

/// What can go wrong while reconciling a `Database` resource.
#[derive(Debug)]
pub enum Error {
    /// The resource has no name.
    NoName,
    /// The password's secret, or its key, does not exist.
    NoPassword,
    /// The password in the secret is not valid UTF-8.
    InvalidPassword,
    /// Managing the database failed.
    Database(database::Error),
    /// The Kubernetes API reported an error; the message is its description.
    Kubernetes(String),
    /// Waiting for a condition in the cluster failed; the message is its description.
    Wait(String),
}

/// The text shown for an error.
pub open spec fn error_message(e: Error) -> Seq<char> {
    match e {
        Error::NoName => "resource does not have a name"@,
        Error::NoPassword => "could not find the password"@,
        Error::InvalidPassword => "invalid password sequence, likely invalid utf-8"@,
        Error::Database(d) => database::error_message(d),
        Error::Kubernetes(m) => m@,
        Error::Wait(m) => m@,
    }
}

impl Error {
    /// The text shown for this error.
    pub fn message(&self) -> (r: String)
        ensures
            r@ == error_message(*self),
    {
        match self {
            Error::NoName => owned("resource does not have a name"),
            Error::NoPassword => owned("could not find the password"),
            Error::InvalidPassword => owned("invalid password sequence, likely invalid utf-8"),
            Error::Database(d) => d.message(),
            Error::Kubernetes(m) => m.clone(),
            Error::Wait(m) => m.clone(),
        }
    }
}

/// The text values of a map of strings.
pub open spec fn string_values(m: Map<Seq<char>, String>) -> Map<Seq<char>, Seq<char>> {
    m.map_values(|v: String| v@)
}

proof fn lemma_string_values_insert(m: Map<Seq<char>, String>, k: Seq<char>, v: String)
    ensures
        string_values(m.insert(k, v)) == string_values(m).insert(k, v@),
{
    assert(string_values(m.insert(k, v)) =~= string_values(m).insert(k, v@));
}

/// How workloads in the cluster reach the server.
pub struct ConnectionInfo {
    pub remote_host: String,
    pub remote_port: u16,
    pub sslmode: SslMode,
}

/// The connection settings every database's secret starts from.
pub open spec fn connection_secret(host: Seq<char>, port: u16, mode: SslMode) -> Map<
    Seq<char>,
    Seq<char>,
> {
    map!["PGHOST"@ => host, "PGPORT"@ => decimal(port as nat), "PGSSLMODE"@ => ssl_mode_name(mode)]
}

impl ConnectionInfo {
    /// The secret data shared by all databases: host, port (in decimal) and SSL mode.
    pub fn into_secret_data(self) -> (r: NamedMap<String>)
        ensures
            r.wf(),
            string_values(r@) == connection_secret(
                self.remote_host@,
                self.remote_port,
                self.sslmode,
            ),
    {
        let mut data: NamedMap<String> = NamedMap::new();
        let ghost m0 = data@;
        let host = self.remote_host;
        let port = u16_to_decimal(self.remote_port);
        let mode = self.sslmode.name();
        let ghost (hs, ps, ms) = (host, port, mode);
        data.insert(owned("PGHOST"), host);
        data.insert(owned("PGPORT"), port);
        data.insert(owned("PGSSLMODE"), mode);
        proof {
            let k1 = "PGHOST"@;
            let k2 = "PGPORT"@;
            let k3 = "PGSSLMODE"@;
            assert(string_values(m0) =~= Map::<Seq<char>, Seq<char>>::empty());
            let m1 = m0.insert(k1, hs);
            let m2 = m1.insert(k2, ps);
            lemma_string_values_insert(m0, k1, hs);
            lemma_string_values_insert(m1, k2, ps);
            lemma_string_values_insert(m2, k3, ms);
        }
        data
    }
}

/// The connection URL of a database, for clients that take a single URL.
pub open spec fn database_url(
    name: Seq<char>,
    password: Seq<char>,
    host: Seq<char>,
    port: Seq<char>,
    sslmode: Seq<char>,
) -> Seq<char> {
    "postgresql://"@ + name + ":"@ + password + "@"@ + host + ":"@ + port + "/"@ + name
        + "?sslmode="@ + sslmode
}

/// The data of a database's secret: the shared connection settings, the
/// user, password and database, and the connection URL built from them.
pub open spec fn database_secret(
    base: Map<Seq<char>, Seq<char>>,
    name: Seq<char>,
    password: Seq<char>,
) -> Map<Seq<char>, Seq<char>> {
    base.insert("PGUSER"@, name).insert("PGPASSWORD"@, password).insert("PGDATABASE"@, name).insert(
        "DATABASE_URL"@,
        database_url(name, password, base["PGHOST"@], base["PGPORT"@], base["PGSSLMODE"@]),
    )
}

/// Fills the shared connection settings in with the credentials of one database.
pub fn secret_data_for(secret_data: NamedMap<String>, name: &String, password: &String) -> (r:
    NamedMap<String>)
    requires
        secret_data.wf(),
        secret_data@.contains_key("PGHOST"@),
        secret_data@.contains_key("PGPORT"@),
        secret_data@.contains_key("PGSSLMODE"@),
    ensures
        r.wf(),
        string_values(r@) == database_secret(string_values(secret_data@), name@, password@),
{
    let mut data = secret_data;
    let ghost m0 = data@;
    let host = data.get(&owned("PGHOST")).unwrap().clone();
    let port = data.get(&owned("PGPORT")).unwrap().clone();
    let mode = data.get(&owned("PGSSLMODE")).unwrap().clone();
    let url = owned("postgresql://").concat(name.as_str()).concat(":").concat(
        password.as_str(),
    ).concat("@").concat(host.as_str()).concat(":").concat(port.as_str()).concat("/").concat(
        name.as_str(),
    ).concat("?sslmode=").concat(mode.as_str());
    let user = name.clone();
    let pass = password.clone();
    let dbname = name.clone();
    let ghost (u, p, d) = (user, pass, dbname);
    data.insert(owned("PGUSER"), user);
    data.insert(owned("PGPASSWORD"), pass);
    data.insert(owned("PGDATABASE"), dbname);
    data.insert(owned("DATABASE_URL"), url);
    proof {
        let m1 = m0.insert("PGUSER"@, u);
        let m2 = m1.insert("PGPASSWORD"@, p);
        let m3 = m2.insert("PGDATABASE"@, d);
        lemma_string_values_insert(m0, "PGUSER"@, u);
        lemma_string_values_insert(m1, "PGPASSWORD"@, p);
        lemma_string_values_insert(m2, "PGDATABASE"@, d);
        lemma_string_values_insert(m3, "DATABASE_URL"@, url);
    }
    data
}

/// The secret of a database whose settings come from a connection info holds
/// all seven keys, its URL combines the database's name and password with
/// the info's host, port and SSL mode, and its PGPORT is the port written in
/// base ten: digits only, which read back give the port.
pub proof fn lemma_connection_secret_is_complete(
    host: Seq<char>,
    port: u16,
    mode: SslMode,
    name: Seq<char>,
    password: Seq<char>,
)
    ensures
        connection_secret(host, port, mode).contains_key("PGHOST"@),
        connection_secret(host, port, mode).contains_key("PGPORT"@),
        connection_secret(host, port, mode).contains_key("PGSSLMODE"@),
        database_secret(connection_secret(host, port, mode), name, password)["DATABASE_URL"@]
            == database_url(name, password, host, decimal(port as nat), ssl_mode_name(mode)),
        decimal_value(connection_secret(host, port, mode)["PGPORT"@]) == port,
        all_digits(connection_secret(host, port, mode)["PGPORT"@]),
        database_secret(connection_secret(host, port, mode), name, password).dom() == set![
            "PGHOST"@,
            "PGPORT"@,
            "PGSSLMODE"@,
            "PGUSER"@,
            "PGPASSWORD"@,
            "PGDATABASE"@,
            "DATABASE_URL"@,
        ],
{
    reveal_strlit("PGHOST");
    reveal_strlit("PGPORT");
    reveal_strlit("PGSSLMODE");
    reveal_strlit("PGUSER");
    reveal_strlit("PGPASSWORD");
    reveal_strlit("PGDATABASE");
    reveal_strlit("DATABASE_URL");
    assert("PGHOST"@[2] != "PGPORT"@[2]);
    assert("PGHOST"@ != "PGPORT"@);
    assert("PGHOST"@ != "PGSSLMODE"@);
    assert("PGPORT"@ != "PGSSLMODE"@);
    let base = connection_secret(host, port, mode);
    assert(base["PGHOST"@] == host);
    assert(base["PGPORT"@] == decimal(port as nat));
    lemma_decimal_reads_back(port as nat);
    assert(base["PGSSLMODE"@] == ssl_mode_name(mode));
    assert(database_secret(base, name, password).dom() =~= set![
        "PGHOST"@,
        "PGPORT"@,
        "PGSSLMODE"@,
        "PGUSER"@,
        "PGPASSWORD"@,
        "PGDATABASE"@,
        "DATABASE_URL"@,
    ]);
}

/// Where the password of a database comes from.
pub enum DatabasePassword {
    /// Written out in the resource.
    Value(String),
    /// Stored under a key of a secret.
    FromSecret(DatabasePasswordSecret),
}

/// A key of a secret in some namespace.
pub struct DatabasePasswordSecret {
    pub name: String,
    pub key: String,
    pub namespace: String,
}

/// The secret that workloads use to connect to a database.
pub struct DatabaseSecret {
    /// The secret's name; `database-<name>-secret` when absent.
    pub name: Option<String>,
    /// The namespaces to replicate the secret to.
    pub namespaces: Vec<String>,
}

/// What a `Database` resource asks for.
pub struct DatabaseSpec {
    pub password: DatabasePassword,
    /// Whether to keep the database's data when the resource is deleted.
    pub retain_on_delete: bool,
    pub secret: DatabaseSecret,
}

/// A `Database` custom resource: its name and what it asks for.
pub struct Database {
    pub name: Option<String>,
    pub spec: DatabaseSpec,
}

/// The database (and user) that a resource stands for is named after the resource.
pub fn name_for_database(database: &Database) -> (r: Result<String, Error>)
    ensures
        match database.name {
            Some(n) => r matches Ok(s) && s@ == n@,
            None => r matches Err(e) && e is NoName,
        },
{
    match &database.name {
        Some(n) => Ok(n.clone()),
        None => Err(Error::NoName),
    }
}

/// The name of a resource's connection secret.
pub open spec fn secret_name(database: Database) -> Seq<char> {
    match database.spec.secret.name {
        Some(n) => n@,
        None => "database-"@ + database.name->0@ + "-secret"@,
    }
}

/// The name of the resource's connection secret: the one the resource gives,
/// or `database-<name>-secret`. Only for resources that have a name.
pub fn secret_name_for_database(database: &Database) -> (r: String)
    requires
        database.name is Some,
    ensures
        r@ == secret_name(*database),
{
    let name = database.name.as_ref().unwrap();
    match &database.spec.secret.name {
        Some(n) => n.clone(),
        None => owned("database-").concat(name.as_str()).concat("-secret"),
    }
}

/// How to obtain a database's password.
pub enum PasswordLookup {
    /// The password itself.
    Known(String),
    /// Read it from this secret.
    Fetch(DatabasePasswordSecret),
}

/// The password when the resource writes it out, and otherwise the secret to read it from.
pub fn password_from_spec(database: &Database) -> (r: PasswordLookup)
    ensures
        match database.spec.password {
            DatabasePassword::Value(v) => r matches PasswordLookup::Known(p) && p@ == v@,
            DatabasePassword::FromSecret(s) => r matches PasswordLookup::Fetch(f) && f.name@
                == s.name@ && f.key@ == s.key@ && f.namespace@ == s.namespace@,
        },
{
    match &database.spec.password {
        DatabasePassword::Value(v) => PasswordLookup::Known(v.clone()),
        DatabasePassword::FromSecret(s) => PasswordLookup::Fetch(
            DatabasePasswordSecret {
                name: s.name.clone(),
                key: s.key.clone(),
                namespace: s.namespace.clone(),
            },
        ),
    }
}

/// A failed read of a secret: the HTTP status of the API's answer, when there
/// was one, and the error's description.
pub struct FetchError {
    pub status: Option<u16>,
    pub message: String,
}

/// The password read from a secret. A secret that does not exist (status 404),
/// or lacks the key, gives `NoPassword`; another failed read gives `Kubernetes`
/// with its description; a value that is not UTF-8 gives `InvalidPassword`.
pub fn password_from_secret(
    fetched: Result<Option<NamedMap<Vec<u8>>>, FetchError>,
    key: &String,
) -> (r: Result<String, Error>)
    requires
        fetched matches Ok(Some(data)) ==> data.wf(),
    ensures
        match fetched {
            Err(e) => if e.status == Some(404u16) {
                r matches Err(err) && err is NoPassword
            } else {
                r matches Err(Error::Kubernetes(m)) && m@ == e.message@
            },
            Ok(None) => r matches Err(err) && err is NoPassword,
            Ok(Some(data)) => if !data@.contains_key(key@) {
                r matches Err(err) && err is NoPassword
            } else if valid_utf8(data@[key@]@) {
                r matches Ok(p) && p@ == decode_utf8(data@[key@]@)
            } else {
                r matches Err(err) && err is InvalidPassword
            },
        },
{
    match fetched {
        Err(e) => {
            if e.status == Some(404u16) {
                Err(Error::NoPassword)
            } else {
                Err(Error::Kubernetes(e.message))
            }
        },
        Ok(None) => Err(Error::NoPassword),
        Ok(Some(data)) => {
            let mut data = data;
            match data.remove(key) {
                None => Err(Error::NoPassword),
                Some(bytes) => match utf8_to_string(bytes) {
                    Some(p) => Ok(p),
                    None => Err(Error::InvalidPassword),
                },
            }
        },
    }
}

/// What deleting a resource does: remove the database (keeping its data when
/// asked to) and delete its secret from each namespace.
pub struct CleanupPlan {
    pub database: String,
    pub retain: bool,
    pub secret_name: String,
    pub namespaces: Vec<String>,
}

/// The cleanup of a resource; `NoName` when it has no name.
pub fn cleanup_plan(database: &Database) -> (r: Result<CleanupPlan, Error>)
    ensures
        match database.name {
            Some(n) => r matches Ok(p) && p.database@ == n@ && p.retain
                == database.spec.retain_on_delete && p.secret_name@ == secret_name(*database)
                && p.namespaces@ == database.spec.secret.namespaces@,
            None => r matches Err(e) && e is NoName,
        },
{
    let name = match name_for_database(database) {
        Ok(n) => n,
        Err(e) => return Err(e),
    };
    let secret_name = secret_name_for_database(database);
    let namespaces = clone_strings(&database.spec.secret.namespaces);
    Ok(CleanupPlan { database: name, retain: database.spec.retain_on_delete, secret_name, namespaces })
}

fn clone_strings(v: &Vec<String>) -> (r: Vec<String>)
    ensures
        r@ == v@,
{
    let mut r: Vec<String> = Vec::new();
    let mut i: usize = 0;
    while i < v.len()
        invariant
            i <= v@.len(),
            r@ == v@.subrange(0, i as int),
        decreases v@.len() - i,
    {
        r.push(v[i].clone());
        i = i + 1;
        assert(r@ =~= v@.subrange(0, i as int));
    }
    assert(v@.subrange(0, v@.len() as int) =~= v@);
    r
}

/// What applying a resource does once the database exists with its password:
/// write the connection secret, under its name, to each namespace.
pub struct SecretPlan {
    pub secret_name: String,
    pub data: NamedMap<String>,
    pub namespaces: Vec<String>,
}

/// The secret to write for a resource whose database was set up with `password`.
pub fn secret_plan(
    database: &Database,
    base: NamedMap<String>,
    password: &String,
) -> (r: Result<SecretPlan, Error>)
    requires
        base.wf(),
        base@.contains_key("PGHOST"@),
        base@.contains_key("PGPORT"@),
        base@.contains_key("PGSSLMODE"@),
    ensures
        match database.name {
            Some(n) => r matches Ok(p) && p.data.wf() && string_values(p.data@) == database_secret(
                string_values(base@),
                n@,
                password@,
            ) && p.secret_name@ == secret_name(*database) && p.namespaces@
                == database.spec.secret.namespaces@,
            None => r matches Err(e) && e is NoName,
        },
{
    let name = match name_for_database(database) {
        Ok(n) => n,
        Err(e) => return Err(e),
    };
    let data = secret_data_for(base, &name, password);
    let secret_name = secret_name_for_database(database);
    let namespaces = clone_strings(&database.spec.secret.namespaces);
    Ok(SecretPlan { secret_name, data, namespaces })
}

/// What tilde expansion may make of `input`: a path that starts with `~`
/// alone as its first component (`~`, `~/...`, or `~\\...` on Windows) may
/// get the home directory in place of the `~`, or stay as it is when the home
/// directory is unknown; any other path stays as it is.
pub open spec fn tilde_expansion(input: Seq<char>, output: Seq<char>) -> bool {
    if input.len() > 0 && input[0] == '~' && (input.len() == 1 || input[1] == '/' || input[1]
        == '\\') {
        output == input || exists|home: Seq<char>| output == home + input.subrange(1, input.len() as int)
    } else {
        output == input
    }
}

/// What the operator does with a resource after reconciling it.
#[derive(Clone, Copy, Debug, PartialEq, Eq, Structural)]
pub enum ReconcileAction {
    /// Nothing until the resource changes.
    AwaitChange,
    /// Try again after this many seconds.
    Requeue { seconds: u64 },
}

/// A reconciliation that succeeded waits for the next change of the
/// resource; one that failed is retried after five seconds.
pub fn after_reconcile(succeeded: bool) -> (r: ReconcileAction)
    ensures
        r == (if succeeded {
            ReconcileAction::AwaitChange
        } else {
            ReconcileAction::Requeue { seconds: 5 }
        }),
{
    if succeeded {
        ReconcileAction::AwaitChange
    } else {
        ReconcileAction::Requeue { seconds: 5 }
    }
}

/// Where the reconciliation of a resource stands. Applying a resource first
/// makes its database exist, then writes its secret to each namespace in
/// turn; cleaning up first removes the database, then deletes the secret from
/// each namespace in turn. Either stops at the first failure: no secret is
/// touched before the database step succeeded, and nothing runs after a
/// failure, which is the reconciliation's error.
pub struct Reconciliation {
    namespaces: usize,
    database_done: bool,
    secrets_done: usize,
    failure: Option<Error>,
}

/// The next step of a reconciliation.
#[derive(Clone, Copy, Debug, PartialEq, Eq, Structural)]
pub enum ReconcileStep {
    /// Ensure (or remove) the database.
    Database,
    /// Write (or delete) the secret in the namespace at this position.
    Secret(usize),
    /// Nothing more to do; [`Reconciliation::finish`] gives the outcome.
    Finished,
}

impl Reconciliation {
    /// The number of namespaces the secret goes to.
    pub closed spec fn namespaces(&self) -> nat {
        self.namespaces as nat
    }

    /// Whether the database step succeeded.
    pub closed spec fn database_done(&self) -> bool {
        self.database_done
    }

    /// How many secret steps succeeded.
    pub closed spec fn secrets_done(&self) -> nat {
        self.secrets_done as nat
    }

    /// The failure that ended the reconciliation, if any.
    pub closed spec fn failure(&self) -> Option<Error> {
        self.failure
    }

    pub closed spec fn wf(&self) -> bool {
        &&& self.secrets_done <= self.namespaces
        &&& self.secrets_done > 0 ==> self.database_done
    }

    /// Nothing done yet, for a secret that goes to `namespaces` namespaces.
    pub fn new(namespaces: usize) -> (r: Self)
        ensures
            r.wf(),
            r.namespaces() == namespaces,
            !r.database_done(),
            r.secrets_done() == 0,
            r.failure() is None,
    {
        Reconciliation { namespaces, database_done: false, secrets_done: 0, failure: None }
    }

    /// The next step: nothing after a failure; the database first; then
    /// each namespace in order.
    pub fn next(&self) -> (r: ReconcileStep)
        requires
            self.wf(),
        ensures
            self.failure() is Some ==> r == ReconcileStep::Finished,
            self.failure() is None && !self.database_done() ==> r == ReconcileStep::Database,
            self.failure() is None && self.database_done() && self.secrets_done()
                < self.namespaces() ==> r == ReconcileStep::Secret(self.secrets_done() as usize),
            self.failure() is None && self.database_done() && self.secrets_done()
                == self.namespaces() ==> r == ReconcileStep::Finished,
            r matches ReconcileStep::Secret(_) ==> self.database_done(),
    {
        if self.failure.is_some() {
            ReconcileStep::Finished
        } else if !self.database_done {
            ReconcileStep::Database
        } else if self.secrets_done < self.namespaces {
            ReconcileStep::Secret(self.secrets_done)
        } else {
            ReconcileStep::Finished
        }
    }

    /// Record the result of the database step.
    pub fn record_database(&mut self, result: Result<(), database::Error>)
        requires
            old(self).wf(),
            old(self).failure() is None,
            !old(self).database_done(),
        ensures
            final(self).wf(),
            final(self).namespaces() == old(self).namespaces(),
            final(self).secrets_done() == old(self).secrets_done(),
            match result {
                Ok(()) => final(self).database_done() && final(self).failure() is None,
                Err(e) => !final(self).database_done() && final(self).failure() == Some(
                    Error::Database(e),
                ),
            },
    {
        match result {
            Ok(()) => {
                self.database_done = true;
            },
            Err(e) => {
                self.failure = Some(Error::Database(e));
            },
        }
    }

    /// Record the result of the secret step asked for; a failure is the
    /// Kubernetes API's, with its description.
    pub fn record_secret(&mut self, result: Result<(), String>)
        requires
            old(self).wf(),
            old(self).failure() is None,
            old(self).database_done(),
            old(self).secrets_done() < old(self).namespaces(),
        ensures
            final(self).wf(),
            final(self).namespaces() == old(self).namespaces(),
            final(self).database_done(),
            match result {
                Ok(()) => final(self).secrets_done() == old(self).secrets_done() + 1
                    && final(self).failure() is None,
                Err(m) => final(self).secrets_done() == old(self).secrets_done() && (final(self).failure() matches Some(Error::Kubernetes(f)) && f@ == m@),
            },
    {
        match result {
            Ok(()) => {
                self.secrets_done = self.secrets_done + 1;
            },
            Err(m) => {
                self.failure = Some(Error::Kubernetes(m));
            },
        }
    }

    /// The outcome: the failure, if one ended the reconciliation, else success.
    pub fn finish(self) -> (r: Result<(), Error>)
        ensures
            r == (match self.failure() {
                Some(e) => Err(e),
                None => Ok::<(), Error>(()),
            }),
    {
        match self.failure {
            Some(e) => Err(e),
            None => Ok(()),
        }
    }
}

/// What a request to start the operator comes to.
#[derive(Clone, Copy, Debug, PartialEq, Eq, Structural)]
pub enum StartAction {
    /// It runs already; nothing is to be done.
    AlreadyRunning,
    /// It is to be launched (the kubeconfig exists).
    Launch,
    /// It cannot be launched: there is no kubeconfig yet.
    MissingKubeconfig,
}

/// See [`Operator::start`].
pub open spec fn start_action(running: bool, kubeconfig_exists: bool) -> StartAction {
    if running {
        StartAction::AlreadyRunning
    } else if kubeconfig_exists {
        StartAction::Launch
    } else {
        StartAction::MissingKubeconfig
    }
}

impl StartAction {
    /// Whether the operator runs once the action is carried out.
    pub open spec fn spec_succeeded(&self) -> bool {
        !(self is MissingKubeconfig)
    }

    /// Whether the operator runs once the action is carried out.
    #[verifier::when_used_as_spec(spec_succeeded)]
    pub fn succeeded(&self) -> (r: bool)
        ensures
            r == self.spec_succeeded(),
    {
        match self {
            StartAction::MissingKubeconfig => false,
            _ => true,
        }
    }
}

/// The operator's configuration, and the handle of its task while it runs.
pub struct Operator<H> {
    kubeconfig: ExpandedPath,
    kube_context: Option<String>,
    secret_data: NamedMap<String>,
    handle: Option<H>,
}

impl<H> Operator<H> {
    /// The path of the kubeconfig, with `~` expanded.
    pub closed spec fn kubeconfig_path(&self) -> Seq<char> {
        self.kubeconfig.expanded()
    }

    /// The path of the kubeconfig as it was given, before expansion.
    pub closed spec fn kubeconfig_source(&self) -> Seq<char> {
        self.kubeconfig.source()
    }

    /// The handle of the running operator task, if it runs.
    pub closed spec fn handle(&self) -> Option<H> {
        self.handle
    }

    /// Whether the operator runs.
    pub open spec fn running(&self) -> bool {
        self.handle() is Some
    }

    /// The connection settings shared by all secrets.
    pub closed spec fn base_secret(&self) -> Map<Seq<char>, String> {
        self.secret_data@
    }

    pub closed spec fn wf(&self) -> bool {
        &&& tilde_expansion(self.kubeconfig.source(), self.kubeconfig.expanded())
        &&& self.secret_data.wf()
        &&& self.secret_data@.contains_key("PGHOST"@)
        &&& self.secret_data@.contains_key("PGPORT"@)
        &&& self.secret_data@.contains_key("PGSSLMODE"@)
    }

    /// An operator that does not run yet, with `~` in the kubeconfig's path
    /// expanded and the shared secret data taken from `connection_info`.
    pub fn new(kubeconfig: String, kube_context: Option<String>, connection_info: ConnectionInfo) -> (r:
        Self)
        ensures
            r.wf(),
            !r.running(),
            r.context() == kube_context,
            r.kubeconfig_source() == kubeconfig@,
            tilde_expansion(kubeconfig@, r.kubeconfig_path()),
            string_values(r.base_secret()) == connection_secret(
                connection_info.remote_host@,
                connection_info.remote_port,
                connection_info.sslmode,
            ),
    {
        let ghost (h, p, m) = (
            connection_info.remote_host@,
            connection_info.remote_port,
            connection_info.sslmode,
        );
        let kubeconfig = expand_tilde(&kubeconfig);
        let secret_data = connection_info.into_secret_data();
        proof {
            lemma_connection_secret_is_complete(h, p, m, Seq::empty(), Seq::empty());
            assert(string_values(secret_data@).contains_key("PGHOST"@));
            assert(string_values(secret_data@).contains_key("PGPORT"@));
            assert(string_values(secret_data@).contains_key("PGSSLMODE"@));
        }
        Operator { kubeconfig, kube_context, secret_data, handle: None }
    }

    /// The path of the kubeconfig.
    pub fn kubeconfig(&self) -> (r: &String)
        ensures
            r@ == self.kubeconfig_path(),
    {
        self.kubeconfig.as_string()
    }

    /// The Kubernetes context to use, if not the kubeconfig's current one.
    pub closed spec fn context(&self) -> Option<String> {
        self.kube_context
    }

    /// The Kubernetes context to use, if not the kubeconfig's current one.
    pub fn kube_context(&self) -> (r: &Option<String>)
        ensures
            *r == self.context(),
    {
        &self.kube_context
    }

    /// The connection settings shared by all secrets.
    pub fn secret_data(&self) -> (r: &NamedMap<String>)
        requires
            self.wf(),
        ensures
            r.wf(),
            r@ == self.base_secret(),
            r@.contains_key("PGHOST"@),
            r@.contains_key("PGPORT"@),
            r@.contains_key("PGSSLMODE"@),
    {
        &self.secret_data
    }

    /// Whether the operator runs.
    pub fn status(&self) -> (r: bool)
        ensures
            r == self.running(),
    {
        self.handle.is_some()
    }

    /// What starting the operator comes to: nothing when it runs already; a
    /// launch when the kubeconfig exists; and otherwise a failure.
    pub fn start(&self, kubeconfig_exists: bool) -> (r: StartAction)
        ensures
            r == start_action(self.running(), kubeconfig_exists),
    {
        if self.handle.is_some() {
            StartAction::AlreadyRunning
        } else if kubeconfig_exists {
            StartAction::Launch
        } else {
            StartAction::MissingKubeconfig
        }
    }

    /// Record the task of a launched operator.
    pub fn launched(&mut self, handle: H)
        ensures
            final(self).handle() == Some(handle),
            final(self).context() == old(self).context(),
            final(self).kubeconfig_path() == old(self).kubeconfig_path(),
            final(self).kubeconfig_source() == old(self).kubeconfig_source(),
            final(self).base_secret() == old(self).base_secret(),
            old(self).wf() ==> final(self).wf(),
    {
        self.handle = Some(handle);
    }

    /// Stop the operator: hands back the handle of its task when it ran, to be
    /// told to stop and awaited; it does not run afterwards.
    pub fn stop(&mut self) -> (r: Option<H>)
        ensures
            r == old(self).handle(),
            !final(self).running(),
            final(self).context() == old(self).context(),
            final(self).kubeconfig_path() == old(self).kubeconfig_path(),
            final(self).kubeconfig_source() == old(self).kubeconfig_source(),
            final(self).base_secret() == old(self).base_secret(),
            old(self).wf() ==> final(self).wf(),
    {
        self.handle.take()
    }
}

/// The kubeconfig path of an operator is what tilde expansion made of the
/// path it was given: a path that does not start with `~` as its whole
/// first component is kept as it is, and one that does keeps everything
/// after the `~`, with the home directory (when it is known) in front.
pub proof fn lemma_kubeconfig_is_expanded<H>(op: Operator<H>)
    requires
        op.wf(),
    ensures
        tilde_expansion(op.kubeconfig_source(), op.kubeconfig_path()),
        !(op.kubeconfig_source().len() > 0 && op.kubeconfig_source()[0] == '~') ==> op.kubeconfig_path()
            == op.kubeconfig_source(),
        op.kubeconfig_source().len() > 0 && op.kubeconfig_source()[0] == '~'
            ==> op.kubeconfig_path() == op.kubeconfig_source() || exists|home: Seq<char>|
            op.kubeconfig_path() == home + op.kubeconfig_source().subrange(
                1,
                op.kubeconfig_source().len() as int,
            ),
{
}

/// Right after construction the operator does not run, so enabling it (as
/// construction does) launches it exactly when the kubeconfig exists, and
/// otherwise leaves it stopped; either way later starts look at the same
/// expanded path, which no operation changes.
pub proof fn lemma_fresh_operator_runs_iff_kubeconfig_exists(kubeconfig_exists: bool)
    ensures
        start_action(false, kubeconfig_exists) == (if kubeconfig_exists {
            StartAction::Launch
        } else {
            StartAction::MissingKubeconfig
        }),
        start_action(false, kubeconfig_exists).spec_succeeded() == kubeconfig_exists,
{
}

/// What a request to enable or disable the operator comes to.
pub enum StateChange<H> {
    /// Launch the operator's task and record it with [`Operator::launched`]; the change succeeds.
    Launch,
    /// Stop this running task and wait until it has finished; the change succeeds.
    Halt(H),
    /// Nothing more to do; the flag says whether the change succeeded.
    Done(bool),
}

impl<H> StateChange<H> {
    /// Whether the change succeeds once carried out.
    pub open spec fn spec_success(&self) -> bool {
        match self {
            StateChange::Launch => true,
            StateChange::Halt(_) => true,
            StateChange::Done(b) => *b,
        }
    }

    /// Whether the change succeeds once carried out.
    #[verifier::when_used_as_spec(spec_success)]
    pub fn success(&self) -> (r: bool)
        ensures
            r == self.spec_success(),
    {
        match self {
            StateChange::Launch => true,
            StateChange::Halt(_) => true,
            StateChange::Done(b) => *b,
        }
    }
}

impl<H> Operator<H> {
    /// Enabling starts the operator (see [`Operator::start`]); disabling stops
    /// it (see [`Operator::stop`]), and succeeds only when it ran.
    pub fn change_state(&mut self, desired: Status, kubeconfig_exists: bool) -> (r: StateChange<H>)
        ensures
            final(self).kubeconfig_path() == old(self).kubeconfig_path(),
            final(self).kubeconfig_source() == old(self).kubeconfig_source(),
            final(self).base_secret() == old(self).base_secret(),
            final(self).context() == old(self).context(),
            old(self).wf() ==> final(self).wf(),
            match desired {
                Status::Enabled => {
                    &&& final(self).handle() == old(self).handle()
                    &&& match start_action(old(self).running(), kubeconfig_exists) {
                        StartAction::AlreadyRunning => r matches StateChange::Done(b) && b,
                        StartAction::Launch => r is Launch,
                        StartAction::MissingKubeconfig => r matches StateChange::Done(b) && !b,
                    }
                },
                Status::Disabled => {
                    &&& !final(self).running()
                    &&& match old(self).handle() {
                        Some(h) => r == StateChange::Halt(h),
                        None => r matches StateChange::Done(b) && !b,
                    }
                },
            },
    {
        match desired {
            Status::Enabled => match self.start(kubeconfig_exists) {
                StartAction::AlreadyRunning => StateChange::Done(true),
                StartAction::Launch => StateChange::Launch,
                StartAction::MissingKubeconfig => StateChange::Done(false),
            },
            Status::Disabled => match self.stop() {
                Some(h) => StateChange::Halt(h),
                None => StateChange::Done(false),
            },
        }
    }
}

/// Starting an operator that runs changes nothing and succeeds, whether or
/// not the kubeconfig exists; starting a stopped one succeeds exactly when the
/// kubeconfig exists.
pub proof fn lemma_start_succeeds(running: bool, kubeconfig_exists: bool)
    ensures
        running ==> start_action(running, kubeconfig_exists) == StartAction::AlreadyRunning,
        start_action(running, kubeconfig_exists).spec_succeeded() <==> (running
            || kubeconfig_exists),
{
}

} // verus!
