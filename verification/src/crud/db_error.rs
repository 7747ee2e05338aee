//! The database errors that the handlers tell apart.

use vstd::prelude::*;

verus! {

/// A failed database call, with the text that the database layer gives for it.
#[derive(Debug, Clone, PartialEq, Eq)]
pub enum DbError {
    /// No row matched.
    NotFound(String),
    /// Any other failure; the handlers stop on it.
    Other(String),
}

/// Whether `e` is a failure on which the handlers stop.
pub open spec fn is_fatal(e: DbError) -> bool {
    e is Other
}

} // verus!
