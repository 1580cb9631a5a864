pub mod command;
pub mod dashboard;
pub mod query;
pub mod statsbycard;
