//! Deleting a claan.

use vstd::prelude::*;
use crate::crud::db_error::{is_fatal, DbError};
use crate::models::response_models::{is_message, message_response, Response};
use crate::text::{append_i32, int_decimal};

verus! {

/// The message of a delete that the database refused as not found.
pub open spec fn delete_failed_message(claan_id: int, error: Seq<char>) -> Seq<char> {
    "Error deleting post with id "@ + int_decimal(claan_id) + " - "@ + error
}

/// The message of a delete that removed no row.
pub open spec fn no_claan_message(claan_id: int) -> Seq<char> {
    "Error - no claans with id "@ + int_decimal(claan_id)
}

/// What follows a delete of the claan `claan_id`.
#[derive(Debug)]
pub enum AfterDelete {
    /// Rows were removed: answer with the remaining claans in listing order.
    ListRemaining,
    /// Answer with this not-found response.
    Refuse(Response),
}

/// What follows a delete of the claan `claan_id`, given what the database
/// gave for it: the number of rows removed, or an error.
pub fn delete_claan(claan_id: i32, deleted: Result<usize, DbError>) -> (next: AfterDelete)
    requires
        !(deleted matches Err(e) && is_fatal(e)),
    ensures
        (deleted matches Ok(n) && n > 0) ==> next is ListRemaining,
        deleted == Ok::<usize, DbError>(0) ==> (next matches AfterDelete::Refuse(r) && is_message(
            r,
            no_claan_message(claan_id as int),
        )),
        deleted matches Err(DbError::NotFound(m)) ==> next matches AfterDelete::Refuse(r)
            && is_message(r, delete_failed_message(claan_id as int, m@)),
{
    match deleted {
        Ok(count) => {
            if count > 0 {
                AfterDelete::ListRemaining
            } else {
                let mut message = String::from_str("Error - no claans with id ");
                append_i32(&mut message, claan_id);
                AfterDelete::Refuse(message_response(message))
            }
        },
        Err(DbError::NotFound(error)) => {
            let mut message = String::from_str("Error deleting post with id ");
            append_i32(&mut message, claan_id);
            message.append(" - ");
            message.append(error.as_str());
            AfterDelete::Refuse(message_response(message))
        },
        Err(DbError::Other(_)) => {
            proof {
                assert(false);
            }
            AfterDelete::ListRemaining
        },
    }
}

} // verus!
