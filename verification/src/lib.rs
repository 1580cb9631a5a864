pub mod errors;
pub mod resilience;
pub mod text;
pub mod pagination;
pub mod response;
pub mod flow;
pub mod service;
pub mod context;
pub mod repository;
