//! Updating a claan.

use vstd::prelude::*;
use crate::crud::db_error::{is_fatal, DbError};
use crate::models::claans::Claan;
use crate::models::response_models::{is_message, message_response, Response};

verus! {

/// The message of an update that found no claan.
pub open spec fn update_failed_message(error: Seq<char>) -> Seq<char> {
    "Error updating claan - "@ + error
}

/// The answer to an update of a claan, given what the database gave for it:
/// the updated row, or a not-found response.
pub fn update_claan(updated: Result<Claan, DbError>) -> (res: Result<Claan, Response>)
    requires
        !(updated matches Err(e) && is_fatal(e)),
    ensures
        updated matches Ok(c) ==> res == Ok::<Claan, Response>(c),
        updated matches Err(DbError::NotFound(m)) ==> res matches Err(r) && is_message(
            r,
            update_failed_message(m@),
        ),
{
    match updated {
        Ok(claan) => Ok(claan),
        Err(DbError::NotFound(error)) => {
            let mut message = String::from_str("Error updating claan - ");
            message.append(error.as_str());
            Err(message_response(message))
        },
        Err(DbError::Other(_)) => {
            proof {
                assert(false);
            }
            Err(message_response(String::new()))
        },
    }
}

} // verus!
