//! The errors a request can end in, and the status each is answered with.
use vstd::prelude::*;

verus! {

/// Why a request failed.  The failures other than `NotFound` hold the
/// message of the error that caused them.
#[derive(Debug)]
pub enum HttpError {
    /// Answered with `404 Not Found`.
    NotFound,
    /// Answered with `500 Internal Server Error`.
    Io(String),
    /// Answered with `500 Internal Server Error`.
    Anyhow(String),
    /// Answered with `500 Internal Server Error`.
    Sql(String),
    /// Answered with `500 Internal Server Error`.
    Askama(String),
}

/// The HTTP status code `404 Not Found`.
pub const NOT_FOUND: u16 = 404;

/// The HTTP status code `500 Internal Server Error`.
pub const INTERNAL_SERVER_ERROR: u16 = 500;

/// The status a failure is answered with.
pub open spec fn status_of(e: HttpError) -> u16 {
    match e {
        HttpError::NotFound => NOT_FOUND,
        _ => INTERNAL_SERVER_ERROR,
    }
}

/// The text a failure is answered with.
pub open spec fn message_of(e: HttpError) -> Seq<char> {
    match e {
        HttpError::NotFound => "Not Found"@,
        HttpError::Io(m) => m@,
        HttpError::Anyhow(m) => m@,
        HttpError::Sql(m) => m@,
        HttpError::Askama(m) => m@,
    }
}

impl HttpError {
    /// The status code the failure is answered with: 404 for `NotFound`,
    /// 500 for every other.
    pub fn status_code(&self) -> (res: u16)
        ensures
            res == status_of(*self),
    {
        match self {
            HttpError::NotFound => NOT_FOUND,
            _ => INTERNAL_SERVER_ERROR,
        }
    }

    /// The text the failure is answered with: "Not Found", or the message of
    /// the error that caused it.
    pub fn message(&self) -> (res: String)
        ensures
            res@ == message_of(*self),
    {
        match self {
            HttpError::NotFound => String::from_str("Not Found"),
            HttpError::Io(m) => m.clone(),
            HttpError::Anyhow(m) => m.clone(),
            HttpError::Sql(m) => m.clone(),
            HttpError::Askama(m) => m.clone(),
        }
    }
}

} // verus!
