//! A typed, persisted, extensible runtime configuration store.
//!
//! The store keeps the full application configuration as one typed aggregate,
//! persists it as flat key/value rows, encrypts credential-bearing fields on
//! the way out, and serves readers from a double-buffered, TTL-based cache.
//! Optional modules contribute named sub-sections through a registry, looked
//! up by identifier and type tag.

pub mod cache;
pub mod censor;
pub mod eggs;
pub mod error;
pub mod extensions;
pub mod kvmap;
pub mod model;
pub mod pipeline;
pub mod roundtrip;
pub mod scalar;
pub mod secret;
pub mod strutil;
