pub mod command;
pub mod query;
pub mod stats;
pub mod statsbycard;
