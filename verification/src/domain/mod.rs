pub mod user_email;

pub use user_email::UserEmail;
