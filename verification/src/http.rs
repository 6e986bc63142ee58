//! The management API's answers: how failures are reported, and the options
//! its handlers read.

use crate::database;
use crate::models::{DeleteOptions, ErrorResponse};
use vstd::prelude::*;

verus! {

/// A failure of the management API.
#[derive(Debug)]
pub enum Error {
    /// Managing a database failed.
    Database(database::Error),
    /// The server reported an error; the message is its description.
    Sqlx(String),
}

/// The status of every failure: 500, Internal Server Error.
pub open spec fn error_status() -> u16 {
    500
}

/// The text shown for a failure: that of the error it wraps.
pub open spec fn error_message(e: Error) -> Seq<char> {
    match e {
        Error::Database(d) => database::error_message(d),
        Error::Sqlx(m) => m@,
    }
}

impl Error {
    /// The status of the answer: 500 for every failure.
    pub fn status(&self) -> (r: u16)
        ensures
            r == error_status(),
    {
        match self {
            Error::Database(_) | Error::Sqlx(_) => 500,
        }
    }

    /// The text shown for this failure.
    pub fn message(&self) -> (r: String)
        ensures
            r@ == error_message(*self),
    {
        match self {
            Error::Database(d) => d.message(),
            Error::Sqlx(m) => m.clone(),
        }
    }

    /// The body of the answer: the status, repeated, and the failure's text.
    pub fn into_response(self) -> (r: ErrorResponse)
        ensures
            r.code == error_status(),
            r.message@ == error_message(self),
    {
        let message = self.message();
        let code = self.status();
        ErrorResponse { code, message }
    }
}

/// Whether a removal keeps the database's contents: only when asked to.
pub fn retain_requested(options: &DeleteOptions) -> (r: bool)
    ensures
        r == (options.retain == Some(true)),
{
    match options.retain {
        Some(b) => b,
        None => false,
    }
}

} // verus!
