//! Records: the score a user made on a task on a given day.

use vstd::prelude::*;
use chrono::NaiveDate;

verus! {

/// A stored record of a score.
#[derive(Debug, PartialEq, Eq, PartialOrd, Ord)]
pub struct Record {
    pub id: i32,
    pub score: i32,
    pub timestamp: NaiveDate,
    pub task_id: i32,
    pub user_id: i32,
}

/// A record that is yet to be stored.
#[derive(Debug, PartialEq, Eq)]
pub struct NewRecord {
    pub score: i32,
    pub timestamp: NaiveDate,
    pub task_id: i32,
    pub user_id: i32,
}

} // verus!
