//! The custom column types of the database schema.

use vstd::prelude::*;

verus! {

/// The column type `dice` of the table `tasks`.
#[derive(Debug, Clone, Copy, PartialEq, Eq)]
pub struct Dice;

/// The column type `tasktype` of the table `tasks`.
#[derive(Debug, Clone, Copy, PartialEq, Eq)]
pub struct Tasktype;

impl Dice {
    /// The name of the type in PostgreSQL.
    pub fn postgres_type_name() -> (name: &'static str)
        ensures
            name@ == "dice"@,
    {
        "dice"
    }
}

impl Tasktype {
    /// The name of the type in PostgreSQL.
    pub fn postgres_type_name() -> (name: &'static str)
        ensures
            name@ == "tasktype"@,
    {
        "tasktype"
    }
}

} // verus!
