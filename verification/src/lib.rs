//! Verified building blocks for web-service middleware: permission bitmasks,
//! bearer-token extraction, response caching rules, idempotent replays,
//! sliding-window rate limiting, trusted-proxy client resolution and sessions.

pub mod claims;
pub mod text;
pub mod signing;
pub mod auth;
pub mod middleware;
pub mod net;
pub mod ids;
pub mod extractors;
pub mod session;
pub mod store_keys;
pub mod cache_registry;
