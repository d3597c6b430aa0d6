//! Verified core of a distributed object-storage node: base64 helpers,
//! process-wide node settings and connection cache, expiry timestamps in
//! RFC 3339 or legacy form, and capacity scan records.

pub mod base64;
pub mod capacity;
pub mod globals;
pub mod serde_datetime;
