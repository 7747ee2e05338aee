//! Tasks that users score on.

use vstd::prelude::*;
use chrono::NaiveDate;
use crate::models::dice::Dice;
use crate::models::tasktype::Tasktype;

verus! {

/// A stored task.
#[derive(Debug, PartialEq, Eq, PartialOrd, Ord)]
pub struct Task {
    pub id: i32,
    pub description: String,
    pub tasktype: Tasktype,
    pub dice: Dice,
    pub ephemeral: bool,
    pub active: bool,
    pub last: NaiveDate,
}

/// A task that is yet to be stored.
#[derive(Debug, PartialEq, Eq)]
pub struct NewTask {
    pub description: String,
    pub tasktype: Tasktype,
    pub dice: Dice,
    pub ephemeral: bool,
    pub active: bool,
    pub last: NaiveDate,
}

} // verus!
