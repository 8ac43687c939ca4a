//! Fixed values shared by the discovery and connection code.

use vstd::prelude::*;

verus! {

/// Protocol version token, embedded in the query suffix of the gateway URL.
pub const API_VERSION: &'static str = "10";

/// Base URL of the REST API; the discovery path is appended to it.
pub const API_BASE_URL: &'static str = "https://discord.com/api/v10/";

/// Endpoint used when discovery answers without a usable `url` field.
pub const GATEWAY_URL: &'static str = "wss://gateway.discord.gg/?v=10&encoding=json";

} // verus!
