pub mod balance;
pub mod transfer;
