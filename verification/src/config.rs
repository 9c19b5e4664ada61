//! The settings the server starts with.
use vstd::prelude::*;
use std::path::PathBuf;

verus! {

/// `std::path::PathBuf`, carried through unread.
#[verifier::external_type_specification]
#[verifier::external_body]
pub struct ExPathBuf(PathBuf);

/// The settings the server starts with.
#[derive(Debug)]
pub struct Config {
    /// The connection URL of the SQLite database.
    pub database_url: String,
    /// The port to listen on.
    pub port: u16,
    /// The directory under which the videos lie.
    pub video_root: PathBuf,
}

/// The port listened on where none is given.
pub const DEFAULT_PORT: u16 = 3000;

} // verus!
