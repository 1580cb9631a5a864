pub mod amount;
pub mod method;
pub mod status;
