pub mod calendar;
pub mod rows;
pub mod card;
pub mod merchant;
pub mod topup;
pub mod transaction;
pub mod transfer;
pub mod withdraw;
