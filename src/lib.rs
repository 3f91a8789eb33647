//! A line-delimited JSON-RPC tool server: message envelopes, a tool registry and
//! the dispatcher that routes each message, all verified.
pub mod config;
pub mod error;
pub mod health_check;
pub mod json;
pub mod protocol;
pub mod registry;
pub mod server;
