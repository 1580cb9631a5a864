pub mod auth;
pub mod card;
pub mod merchant;
pub mod role;
pub mod saldo;
pub mod token;
pub mod topup;
