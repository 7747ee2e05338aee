//! Creating a claan.

use vstd::prelude::*;
use crate::models::claans::Claan;
use crate::models::response_models::{Response, ResponseBody};

verus! {

/// The response to a created claan: its stored row, which the application
/// sends as the body of `201 Created`.
pub fn create_claan(inserted: Claan) -> (r: Response)
    ensures
        r.body == ResponseBody::Claan(inserted),
{
    Response { body: ResponseBody::Claan(inserted) }
}

} // verus!
