//! The traits that a provider implements to be driven by a wasmCloud host.

use crate::lattice::{HealthCheckRequest, HealthCheckResponse, HealthCheckResponseView};
use crate::provider_sdk::context::Context;
use crate::provider_sdk::wit::{WitFunction, WitInterface, WitNamespace, WitPackage};
use std::collections::HashMap;
use vstd::prelude::*;

verus! {

/// A link between two entities through interfaces of a WIT package.
#[derive(Debug, PartialEq, Eq)]
pub struct InterfaceLinkDefinition {
    pub source_id: String,
    pub target: String,
    pub name: String,
    pub wit_namespace: WitNamespace,
    pub wit_package: WitPackage,
    pub interfaces: Vec<WitInterface>,
    pub source_config: Vec<(String, String)>,
    pub target_config: Vec<(String, String)>,
}

/// Why a provider could not be started.
#[derive(Debug, PartialEq, Eq)]
pub struct ProviderInitError {
    pub message: String,
}

/// Why an invocation failed.
#[derive(Debug, PartialEq, Eq)]
pub struct InvocationError {
    pub message: String,
}

/// CapabilityProvider handling of messages from host.
pub trait ProviderHandler: Sync {
    /// Provider should perform any operations needed for a new link, including setting up
    /// per-actor resources, and checking authorization. If the link is allowed, return true,
    /// otherwise return false to deny the link or if there are errors. This message is
    /// idempotent - provider must be able to handle duplicates.
    fn put_link(&self, _ld: &InterfaceLinkDefinition) -> (allowed: bool)
        default_ensures
            allowed,
    {
        true
    }

    /// Notify the provider that the link is dropped.
    fn delete_link(&self, _actor_id: &str) {
    }

    /// Perform health check. Called at regular intervals by host. Default implementation
    /// always returns healthy.
    fn health_request(&self, _arg: &HealthCheckRequest) -> (report: HealthCheckResponse)
        default_ensures
            report@ == (HealthCheckResponseView { healthy: true, message: None }),
    {
        HealthCheckResponse { healthy: true, message: None }
    }

    /// Handle system shutdown message.
    fn shutdown(&self) {
    }
}

/// The type of an exported function, as `wrpc_types` gives it. The library carries such values
/// and reads nothing of them.
#[verifier::external_type_specification]
#[verifier::external_body]
pub struct ExDynamicFunction(wrpc_types::DynamicFunction);

/// A parameter of a call, as `wrpc_transport` gives it. The library carries such values and
/// reads nothing of them.
#[verifier::external_type_specification]
#[verifier::external_body]
pub struct ExValue(wrpc_transport::Value);

/// Human readable name of a key of a WIT world, which includes the interface ID if necessary.
pub type WorldKeyName = String;

/// A NATS subject which is used for wRPC, normally of the shape
/// `<lattice>.<target id>.wrpc.0.0.1.<interface>.<operation>`.
pub type WrpcNatsSubject = String;

/// The functions that a provider exports, by the subjects they are called on.
pub type WrpcInvocationLookup = HashMap<
    WrpcNatsSubject,
    (WorldKeyName, WitFunction, wrpc_types::DynamicFunction),
>;

/// A trait for providers that are powered by WIT contracts and communicate with wRPC.
///
/// It is up to the host to interpret the lookup and build necessary structures to negotiate
/// lattice operations on behalf of the provider.
pub trait WrpcNats {
    /// Given a lattice name, produces a mapping of wRPC-compatible subjects to functions that
    /// can be invoked by the provider.
    ///
    /// The target represents this provider (ex. a stringified public `nkey`); there may be
    /// other providers with the same target.
    fn incoming_wrpc_invocations_by_subject(
        &self,
        _lattice_name: &str,
        _target_id: &str,
        _wrpc_version: &str,
    ) -> (lookup: Result<WrpcInvocationLookup, ProviderInitError>)
        default_ensures
            lookup matches Ok(l) && l@ == Map::<
                WrpcNatsSubject,
                (WorldKeyName, WitFunction, wrpc_types::DynamicFunction),
            >::empty(),
    {
        Ok(HashMap::new())
    }
}

/// Handler for dispatching invocations that come via wRPC.
pub trait WrpcDispatch {
    /// Dispatch a single invocation that came in over wRPC.
    fn dispatch_wrpc_dynamic(
        &self,
        ctx: Context,
        operation: String,
        params: Vec<wrpc_transport::Value>,
    ) -> Result<Vec<u8>, InvocationError>;
}

/// The super trait containing all necessary traits for a provider.
pub trait Provider: ProviderHandler + WrpcNats + WrpcDispatch + Send + Sync + 'static {

}

} // verus!
