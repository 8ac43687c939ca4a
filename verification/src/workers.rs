//! The connection manager and the client that owns it.

pub mod ws;
pub mod client;
