pub mod balance;
pub mod total;
