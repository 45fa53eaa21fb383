//! The `wasmcloud:keyvalue` contract on a NATS key-value store.

pub mod connection;
pub mod laws;
pub mod nkey;
pub mod provider;
pub mod store;
