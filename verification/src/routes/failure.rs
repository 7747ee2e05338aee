//! The error type that the handlers carry for failures they do not handle.

use vstd::prelude::*;

verus! {

/// `anyhow::Error`, carried unread to the application, which writes out its chain.
#[verifier::external_type_specification]
#[verifier::external_body]
pub struct ExAnyhowError(anyhow::Error);

/// The HTTP status `400 Bad Request`.
pub const BAD_REQUEST: u16 = 400;

/// The HTTP status `401 Unauthorized`.
pub const UNAUTHORIZED: u16 = 401;

/// The HTTP status `500 Internal Server Error`.
pub const INTERNAL_SERVER_ERROR: u16 = 500;

} // verus!
