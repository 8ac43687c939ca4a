//! Core of a realtime gateway client: endpoint discovery, the connection's
//! lifecycle and the decisions taken around each transport operation, plus the
//! decoding of snowflake identifiers.

pub mod constants;
pub mod utils;
pub mod workers;
