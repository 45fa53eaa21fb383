//! A provider's side of the host protocol: its subscriptions, its links, and the answers it
//! gives.

pub mod bridge;
pub mod handler;
pub mod health;
pub mod host_data;
pub mod invocation;
pub mod laws;
pub mod links;
pub mod shutdown;
