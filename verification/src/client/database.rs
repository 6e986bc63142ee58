//! Commands that manage databases through the server.

use super::{check_status, join_url, url_join, ClientError, Level, Method, Report};
use crate::models::DeleteOptions;
use crate::text::owned;
use vstd::prelude::*;
use vstd::string::StringExecFns;

verus! {

/// A database command of the client.
pub enum Command {
    /// Get a list of all the managed databases.
    List,
    /// Create a new managed database.
    Create { name: String },
    /// Ensure a database is configured correctly.
    Check { name: String },
    /// Remove a database from management, optionally retaining its contents.
    Remove { name: String, retain: bool },
}

/// The path of the resource a command is about.
pub open spec fn command_path(command: Command) -> Seq<char> {
    match command {
        Command::List => "/databases"@,
        Command::Create { .. } => "/databases"@,
        Command::Check { name } => "/databases/"@ + name@,
        Command::Remove { name, .. } => "/databases/"@ + name@,
    }
}

/// The method a command sends.
pub open spec fn command_method(command: Command) -> Method {
    match command {
        Command::List => Method::Get,
        Command::Create { .. } => Method::Post,
        Command::Check { .. } => Method::Put,
        Command::Remove { .. } => Method::Delete,
    }
}

/// The body of a creation: the name of the database.
pub struct CreateBody {
    pub name: String,
}

/// The request a command sends.
pub struct DatabaseRequest {
    pub method: Method,
    pub url: String,
    /// The JSON body, for a creation.
    pub body: Option<CreateBody>,
    /// The query string, for a removal.
    pub query: Option<DeleteOptions>,
}

/// See [`command_path`].
pub fn command_path_of(command: &Command) -> (r: String)
    ensures
        r@ == command_path(*command),
{
    match command {
        Command::List => owned("/databases"),
        Command::Create { .. } => owned("/databases"),
        Command::Check { name } => owned("/databases/").concat(name.as_str()),
        Command::Remove { name, .. } => owned("/databases/").concat(name.as_str()),
    }
}

/// The request of a command, sent to `url`: a creation carries the name in
/// its body, a removal carries `retain` in its query.
pub fn request_for_url(command: &Command, url: String) -> (r: DatabaseRequest)
    ensures
        r.method == command_method(*command),
        r.url == url,
        match command {
            Command::Create { name } => r.body matches Some(b) && b.name@ == name@,
            _ => r.body is None,
        },
        match command {
            Command::Remove { retain, .. } => r.query matches Some(q) && q.retain == Some(*retain),
            _ => r.query is None,
        },
{
    match command {
        Command::List => DatabaseRequest { method: Method::Get, url, body: None, query: None },
        Command::Create { name } => DatabaseRequest {
            method: Method::Post,
            url,
            body: Some(CreateBody { name: name.clone() }),
            query: None,
        },
        Command::Check { .. } => DatabaseRequest {
            method: Method::Put,
            url,
            body: None,
            query: None,
        },
        Command::Remove { retain, .. } => DatabaseRequest {
            method: Method::Delete,
            url,
            body: None,
            query: Some(DeleteOptions { retain: Some(*retain) }),
        },
    }
}

/// The request of a command to the server at `address`; `InvalidAddress`,
/// with the reason, when the address and the command's path make no URL.
pub fn request(address: &String, command: &Command) -> (r: Result<DatabaseRequest, ClientError>)
    ensures
        match url_join(address@, command_path(*command)) {
            Ok(u) => r matches Ok(req) && req.url@ == u && req.method == command_method(*command)
                && match command {
                Command::Create { name } => req.body matches Some(b) && b.name@ == name@,
                _ => req.body is None,
            } && match command {
                Command::Remove { retain, .. } => req.query matches Some(q) && q.retain == Some(
                    *retain,
                ),
                _ => req.query is None,
            },
            Err(m) => r matches Err(ClientError::InvalidAddress(e)) && e@ == m,
        },
{
    let path = command_path_of(command);
    match join_url(address, &path) {
        Ok(url) => Ok(request_for_url(command, url)),
        Err(m) => Err(ClientError::InvalidAddress(m)),
    }
}

/// The server's answer to a database command: `NotFound` for status 404,
/// another error status is unexpected, and any other status is a success.
pub fn check_response(status: u16) -> (r: Result<(), ClientError>)
    ensures
        if status == 404 {
            r == Err::<(), ClientError>(ClientError::NotFound)
        } else if 400 <= status < 600 {
            r == Err::<(), ClientError>(ClientError::UnexpectedStatus(status))
        } else {
            r is Ok
        },
{
    if status == 404 {
        return Err(ClientError::NotFound);
    }
    check_status(status)
}

/// What the user is told once a database command succeeded, unless the
/// answer itself is what is shown (the list of databases, or a creation,
/// see [`creation_report`]).
pub fn completion_report(command: &Command) -> (r: Option<Report>)
    ensures
        match command {
            Command::List => r is None,
            Command::Create { .. } => r is None,
            _ => r matches Some(rep) && rep.level == Level::Info && rep.message@
                == "successfully enqueued operation"@,
        },
{
    match command {
        Command::List => None,
        Command::Create { .. } => None,
        _ => Some(Report { level: Level::Info, message: owned("successfully enqueued operation") }),
    }
}

/// What the user is told after a creation: whether the server reported a
/// password (a new database) or none (it existed already).
pub fn creation_report(password_reported: bool) -> (r: Report)
    ensures
        r.level == Level::Info,
        r.message@ == (if password_reported {
            "created database"@
        } else {
            "database already exists"@
        }),
{
    if password_reported {
        Report { level: Level::Info, message: owned("created database") }
    } else {
        Report { level: Level::Info, message: owned("database already exists") }
    }
}

} // verus!
