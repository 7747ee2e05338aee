pub mod create;
