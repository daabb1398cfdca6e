//! Client core for the BitTorrent UDP tracker protocol (BEP 15).
//!
//! The crate frames the fixed-layout binary connect/announce messages,
//! correlates responses to outstanding requests by transaction id,
//! keeps the short-lived server-issued connection id, and drives the
//! retry/backoff schedule, all behind a small transport abstraction.

pub mod wire;
pub mod codec;
pub mod session;
pub mod retry;
pub mod client;
pub mod fake;
pub mod metainfo;
