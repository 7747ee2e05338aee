//! The calendar types of `chrono` that the models carry.

use vstd::prelude::*;

verus! {

/// `chrono::NaiveDate`, carried through the models unread.
#[verifier::external_type_specification]
#[verifier::external_body]
pub struct ExNaiveDate(chrono::NaiveDate);

/// `chrono::NaiveDateTime`, carried through the models unread.
#[verifier::external_type_specification]
#[verifier::external_body]
pub struct ExNaiveDateTime(chrono::NaiveDateTime);

} // verus!
