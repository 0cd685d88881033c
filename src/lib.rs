//! A line-oriented chat relay: the client registry, the bounded chat history,
//! message formatting and the per-connection session protocol.

pub mod cache;
pub mod config;
pub mod error;
pub mod host;
pub mod message;
pub mod profiles;
pub mod session;
pub mod text;
pub mod user_cache;
