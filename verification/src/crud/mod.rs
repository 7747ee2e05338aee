//! Handlers for creating, reading, updating and deleting stored values.

pub mod claans;
pub mod db_error;
pub mod users;
