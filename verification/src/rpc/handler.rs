//! What a provider implements to be reached through the bridge.

use crate::lattice::{HealthCheckRequest, HealthCheckResponse, LinkDefinition};
use crate::provider_sdk::context::Context;
use std::convert::Infallible;
use vstd::prelude::*;

verus! {

/// Why an operation of a provider failed.
#[derive(Debug, PartialEq, Eq)]
pub struct RpcError {
    pub message: String,
}

/// A call of an operation, or its result: the operation's name and its argument's bytes.
#[derive(Debug, PartialEq, Eq)]
pub struct Message {
    pub method: String,
    pub arg: Vec<u8>,
}

/// CapabilityProvider handling of messages from host. The bridge handles most messages and
/// forwards the remainder to this handler.
pub trait ProviderHandler: Sync {
    /// Provider should perform any operations needed for a new link, including setting up
    /// per-actor resources, and checking authorization. If the link is allowed, return true,
    /// otherwise return false to deny the link. This message is idempotent - provider must be
    /// able to handle duplicates.
    fn put_link(&self, ld: &LinkDefinition) -> (allowed: Result<bool, RpcError>)
        default_ensures
            allowed == Ok::<bool, RpcError>(true),
    {
        Ok(true)
    }

    /// Notify the provider that the link is dropped.
    fn delete_link(&self, actor_id: &str) {
    }

    /// Perform health check. Called at regular intervals by host.
    fn health_request(&self, arg: &HealthCheckRequest) -> Result<HealthCheckResponse, RpcError>;

    /// Handle system shutdown message.
    fn shutdown(&self) -> (stopped: Result<(), Infallible>)
        default_ensures
            stopped == Ok::<(), Infallible>(()),
    {
        Ok(())
    }
}

/// Handling of the operations that actors call.
pub trait MessageDispatch {
    /// Performs the operation that `message` names, in the context of its call, and
    /// returns its result.
    fn dispatch(&self, ctx: &Context, message: Message) -> Result<Message, RpcError>;
}

/// A provider that the bridge can serve.
pub trait ProviderDispatch: MessageDispatch + ProviderHandler {

}

} // verus!
