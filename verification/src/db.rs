//! What a database query answered, as the handlers read it.
use vstd::prelude::*;
use vstd::string::*;

verus! {

/// A failed query: no row where one was expected, or another failure
/// with its message.
pub enum DbError {
    RowNotFound,
    Other(String),
}

/// The mathematical value of a `DbError`: `None` for a missing row, the
/// message otherwise.
pub open spec fn db_error_view(e: DbError) -> Option<Seq<char>> {
    match e {
        DbError::RowNotFound => None,
        DbError::Other(m) => Some(m@),
    }
}

} // verus!
