//! Key/record stores with partial-update semantics, the protocol that joins
//! an entity store and a property store into one combined resource, and the
//! pure parts of a forwarding proxy.

pub mod records;
pub mod store;
pub mod service;
pub mod combo;
pub mod trace;
pub mod config;
pub mod proxy;
