//! The rules of the HTTP handlers: what they answer, and what they send.

pub mod email;
pub mod failure;
pub mod users;
pub mod users_confirm;
