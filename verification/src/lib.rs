//! Domain model and request-handling rules of the Claans web service.
//!
//! The HTTP server, the database access and the e-mail delivery live in the
//! application crate; this library holds the data types, their encodings,
//! and the decisions that the handlers take on the values they fetch.

pub mod bytes;
pub mod models;
pub mod bak;
pub mod text;
pub mod domain;
pub mod crud;
pub mod routes;
pub mod database;
