//! The library's error type.

use vstd::prelude::*;

verus! {

/// Why a query was refused or failed.
#[derive(Debug)]
pub enum LificError {
    /// The addressed record does not exist.
    NotFound(String),
    /// The request itself is malformed (e.g. an invalid identifier).
    BadRequest(String),
    /// The database reported an error.
    Database(rusqlite::Error),
}

} // verus!
