//! Core logic of the Rigel chat server: snowflake identifiers, signed
//! authentication tokens, gateway opcodes and flags, the registry of gateway
//! connections, and the decisions taken by the REST and gateway handlers.

pub mod db;
pub mod models;
pub mod routes;
pub mod services;
pub mod state;
pub mod utils;
pub mod ws;
