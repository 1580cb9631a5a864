pub mod command;
pub mod query;
