pub mod claans;
pub mod dates;
pub mod dice;
pub mod records;
pub mod response_models;
pub mod seasons;
pub mod tasks;
pub mod tasktype;
pub mod users;
