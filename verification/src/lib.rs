//! An in-memory, TTL-expiring counter store used to enforce per-key rate
//! limits. The store keeps one counter record per key in a reader/writer-split
//! map whose writes become visible to readers only after an explicit publish
//! step, and schedules every expiring record in a min-ordered expiry queue so
//! that a periodic eviction pass can drop expired records without scanning the
//! whole map.

pub mod config;
pub mod errors;
pub mod expiry_queue;
pub mod laws;
pub mod model;
pub mod record;
pub mod store;
pub mod store_map;
