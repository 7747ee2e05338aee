//! Creating a user.

use vstd::prelude::*;
use crate::models::response_models::{Response, ResponseBody};
use crate::models::users::User;

verus! {

/// The response to a created user: its stored row, which the application
/// sends as the body of `201 Created`.
pub fn create_user(inserted: User) -> (r: Response)
    ensures
        r.body == ResponseBody::User(inserted),
{
    Response { body: ResponseBody::User(inserted) }
}

} // verus!
