//! The bodies that the handlers answer with.

use vstd::prelude::*;
use crate::models::claans::Claan;
use crate::models::records::Record;
use crate::models::seasons::Season;
use crate::models::tasks::Task;
use crate::models::users::User;

verus! {

/// What a response carries: a message, or one or more stored values.
#[derive(Debug)]
pub enum ResponseBody {
    Message(String),
    Claan(Claan),
    Claans(Vec<Claan>),
    Record(Record),
    Records(Vec<Record>),
    Season(Season),
    Seasons(Vec<Season>),
    Task(Task),
    Tasks(Vec<Task>),
    User(User),
    Users(Vec<User>),
}

/// A response, serialised to JSON by the application.
#[derive(Debug)]
pub struct Response {
    pub body: ResponseBody,
}

/// Whether `r` carries the message `m`.
pub open spec fn is_message(r: Response, m: Seq<char>) -> bool {
    r.body matches ResponseBody::Message(text) && text@ == m
}

/// A response that carries the message `message`.
pub fn message_response(message: String) -> (r: Response)
    ensures
        is_message(r, message@),
{
    Response { body: ResponseBody::Message(message) }
}

} // verus!
