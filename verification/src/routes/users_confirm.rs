//! Confirming a user by the token that was mailed to them.

use vstd::prelude::*;
use crate::routes::failure::{INTERNAL_SERVER_ERROR, UNAUTHORIZED};

verus! {

/// The query of a confirmation request.
#[derive(Debug, Clone, PartialEq, Eq)]
pub struct Parameters {
    pub user_token: String,
}

/// Why a confirmation failed.
#[derive(Debug)]
pub enum ConfirmationError {
    /// A database call failed.
    UnexpectedError(anyhow::Error),
    /// No user holds the token.
    UnknownToken,
}

/// The text with which an unknown token is refused.
pub open spec fn unknown_token_message() -> Seq<char> {
    "There is not user associated with the provided token"@
}

impl ConfirmationError {
    /// The text of the failure where the library gives it: that of an unknown
    /// token. An unexpected failure is written as the `anyhow::Error` it
    /// carries, which the library does not read, so it gives none.
    pub fn message(&self) -> (m: Option<String>)
        ensures
            self is UnknownToken ==> (m matches Some(t) && t@ == unknown_token_message()),
            self is UnexpectedError ==> m is None,
    {
        match self {
            ConfirmationError::UnknownToken => Some(
                String::from_str("There is not user associated with the provided token"),
            ),
            ConfirmationError::UnexpectedError(_) => None,
        }
    }

    /// The HTTP status of the failure: `401` for an unknown token, `500` otherwise.
    pub fn status_code(&self) -> (code: u16)
        ensures
            self is UnknownToken ==> code == UNAUTHORIZED,
            self is UnexpectedError ==> code == INTERNAL_SERVER_ERROR,
    {
        match self {
            ConfirmationError::UnknownToken => UNAUTHORIZED,
            ConfirmationError::UnexpectedError(_) => INTERNAL_SERVER_ERROR,
        }
    }
}

/// The user to confirm, given what looking up the token found: that user,
/// or `UnknownToken` when no user holds the token.
pub fn confirmation_target<Id>(found: Option<Id>) -> (res: Result<Id, ConfirmationError>)
    ensures
        found matches Some(id) ==> res == Ok::<Id, ConfirmationError>(id),
        found is None ==> res matches Err(ConfirmationError::UnknownToken),
{
    match found {
        Some(id) => Ok(id),
        None => Err(ConfirmationError::UnknownToken),
    }
}

} // verus!
