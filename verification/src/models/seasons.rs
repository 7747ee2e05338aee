//! Seasons of play.

use vstd::prelude::*;
use chrono::NaiveDate;

verus! {

/// A stored season.
#[derive(Debug, PartialEq, Eq, PartialOrd, Ord)]
pub struct Season {
    pub id: i32,
    pub name: String,
    pub start_date: NaiveDate,
}

/// A season that is yet to be stored.
#[derive(Debug, PartialEq, Eq)]
pub struct NewSeason {
    pub name: String,
    pub start_date: NaiveDate,
}

} // verus!
