pub mod command;
pub mod query;
pub mod stats;
pub mod statsbyapikey;
pub mod statsbymerchant;
pub mod transactions;
