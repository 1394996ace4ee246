pub mod gateway;
pub mod handlers;
pub mod models;
pub mod session;
