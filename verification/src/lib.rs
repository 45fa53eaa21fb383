//! Capability providers for wasmCloud: what a provider is written with, its side of the host
//! protocol, and a key-value provider on NATS.

pub mod keyvalue;
pub mod lattice;
pub mod logging;
pub mod provider_sdk;
pub mod rpc;
pub mod text;
