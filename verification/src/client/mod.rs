//! The command-line client of the management API: which request each
//! command sends, and what the answers mean.

pub mod database;
pub mod operator;

use crate::text::owned;
use vstd::prelude::*;

verus! {

/// The HTTP methods the client uses.
#[derive(Clone, Copy, Debug, PartialEq, Eq, Structural)]
pub enum Method {
    Get,
    Post,
    Put,
    Delete,
}

/// What can go wrong in the client.
#[derive(Debug, PartialEq, Eq)]
pub enum ClientError {
    /// The server's address and the request's path do not make a URL; the
    /// message says why.
    InvalidAddress(String),
    /// The database does not exist (status 404).
    NotFound,
    /// The server answered with an error status.
    UnexpectedStatus(u16),
}

/// The text shown for an error.
pub open spec fn client_error_message(e: ClientError) -> Seq<char> {
    match e {
        ClientError::InvalidAddress(m) => m@,
        ClientError::NotFound => "database not found"@,
        ClientError::UnexpectedStatus(_) => "unexpected status code"@,
    }
}

impl ClientError {
    /// The text shown for this error.
    pub fn message(&self) -> (r: String)
        ensures
            r@ == client_error_message(*self),
    {
        match self {
            ClientError::InvalidAddress(m) => m.clone(),
            ClientError::NotFound => owned("database not found"),
            ClientError::UnexpectedStatus(_) => owned("unexpected status code"),
        }
    }
}

/// The URL that `path` names relative to the base URL `base` when `base`
/// is a URL and `path` resolves against it, and otherwise the description of
/// why not.
pub uninterp spec fn url_join(base: Seq<char>, path: Seq<char>) -> Result<Seq<char>, Seq<char>>;

/// Resolves `path` against the base URL `base` (`url::Url::join`, after
/// reading `base` with `url::Url::parse`): the resolved URL's text, or the
/// text of the parse error; the result is the one that [`url_join`] names.
#[verifier::external_body]
pub(crate) fn join_url(base: &String, path: &String) -> (r: Result<String, String>)
    ensures
        match r {
            Ok(u) => url_join(base@, path@) == Ok::<Seq<char>, Seq<char>>(u@),
            Err(e) => url_join(base@, path@) == Err::<Seq<char>, Seq<char>>(e@),
        },
{
    match url::Url::parse(base.as_str()) {
        Ok(b) => match b.join(path.as_str()) {
            Ok(u) => Ok(u.to_string()),
            Err(e) => Err(e.to_string()),
        },
        Err(e) => Err(e.to_string()),
    }
}

/// Whether a status reports an error: a client error (4xx) or a server error (5xx).
pub open spec fn is_error_status(status: u16) -> bool {
    400 <= status < 600
}

/// Every client error (4xx) and every server error (5xx) is an error
/// status, and no other status is.
pub proof fn lemma_error_statuses(status: u16)
    ensures
        is_error_status(status) <==> 400 <= status && status <= 499 || 500 <= status && status
            <= 599,
{
}

/// An answer with an error status is an error.
pub fn check_status(status: u16) -> (r: Result<(), ClientError>)
    ensures
        if is_error_status(status) {
            r == Err::<(), ClientError>(ClientError::UnexpectedStatus(status))
        } else {
            r is Ok
        },
        400 <= status < 600 ==> r == Err::<(), ClientError>(ClientError::UnexpectedStatus(status)),
        status < 400 || status >= 600 ==> r is Ok,
{
    if 400 <= status && status < 600 {
        Err(ClientError::UnexpectedStatus(status))
    } else {
        Ok(())
    }
}

/// How urgent a report is.
#[derive(Clone, Copy, Debug, PartialEq, Eq, Structural)]
pub enum Level {
    Info,
    Warn,
}

/// A line for the user.
pub struct Report {
    pub level: Level,
    pub message: String,
}

} // verus!
