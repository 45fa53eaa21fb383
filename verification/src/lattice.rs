//! The values that a lattice host and its capability providers exchange.

use crate::text::clone_pairs;
use vstd::prelude::*;

verus! {

/// One end of an invocation. A provider has a public key and a link name; an actor has a
/// public key and an empty link name.
#[derive(Debug, PartialEq, Eq)]
pub struct WasmCloudEntity {
    pub public_key: String,
    pub link_name: String,
    pub contract_id: String,
}

impl Clone for WasmCloudEntity {
    fn clone(&self) -> (copy: Self)
        ensures
            copy == *self,
    {
        WasmCloudEntity {
            public_key: self.public_key.clone(),
            link_name: self.link_name.clone(),
            contract_id: self.contract_id.clone(),
        }
    }
}

impl Default for WasmCloudEntity {
    fn default() -> (entity: Self)
        ensures
            entity.public_key@ == Seq::<char>::empty(),
            entity.link_name@ == Seq::<char>::empty(),
            entity.contract_id@ == Seq::<char>::empty(),
    {
        WasmCloudEntity {
            public_key: String::new(),
            link_name: String::new(),
            contract_id: String::new(),
        }
    }
}

/// The link between an actor and a provider, with the settings it was made with.
#[derive(Debug, PartialEq, Eq)]
pub struct LinkDefinition {
    pub actor_id: String,
    pub provider_id: String,
    pub link_name: String,
    pub contract_id: String,
    pub values: Vec<(String, String)>,
}

/// What a [`LinkDefinition`] says.
#[verifier::ext_equal]
pub struct LinkDefinitionView {
    pub actor_id: Seq<char>,
    pub provider_id: Seq<char>,
    pub link_name: Seq<char>,
    pub contract_id: Seq<char>,
    pub values: Seq<(Seq<char>, Seq<char>)>,
}

impl View for LinkDefinition {
    type V = LinkDefinitionView;

    open spec fn view(&self) -> LinkDefinitionView {
        LinkDefinitionView {
            actor_id: self.actor_id@,
            provider_id: self.provider_id@,
            link_name: self.link_name@,
            contract_id: self.contract_id@,
            values: self.values.deep_view(),
        }
    }
}

impl Clone for LinkDefinition {
    fn clone(&self) -> (copy: Self)
        ensures
            copy@ == self@,
            copy.actor_id == self.actor_id,
            copy.provider_id == self.provider_id,
            copy.link_name == self.link_name,
            copy.contract_id == self.contract_id,
            copy.values@ == self.values@,
    {
        LinkDefinition {
            actor_id: self.actor_id.clone(),
            provider_id: self.provider_id.clone(),
            link_name: self.link_name.clone(),
            contract_id: self.contract_id.clone(),
            values: clone_pairs(&self.values),
        }
    }
}

impl Default for LinkDefinition {
    fn default() -> (ld: Self)
        ensures
            ld@.actor_id == Seq::<char>::empty(),
            ld@.provider_id == Seq::<char>::empty(),
            ld@.link_name == Seq::<char>::empty(),
            ld@.contract_id == Seq::<char>::empty(),
            ld@.values == Seq::<(Seq<char>, Seq<char>)>::empty(),
            ld.actor_id@ == Seq::<char>::empty(),
            ld.provider_id@ == Seq::<char>::empty(),
            ld.link_name@ == Seq::<char>::empty(),
            ld.contract_id@ == Seq::<char>::empty(),
            ld.values@ == Seq::<(String, String)>::empty(),
    {
        LinkDefinition {
            actor_id: String::new(),
            provider_id: String::new(),
            link_name: String::new(),
            contract_id: String::new(),
            values: Vec::new(),
        }
    }
}

/// The part of the host's start-up data that a provider acts on.
#[derive(Debug, PartialEq, Eq)]
pub struct HostData {
    /// The name of the lattice, which stands in the subjects of its messages.
    pub lattice_rpc_prefix: String,
    /// The provider's own configuration, as the host was given it.
    pub config_json: Option<String>,
}

/// A request for a health report. It carries nothing.
#[derive(Debug, Clone, Copy, PartialEq, Eq)]
pub struct HealthCheckRequest {}

/// A health report.
#[derive(Debug, PartialEq, Eq)]
pub struct HealthCheckResponse {
    pub healthy: bool,
    pub message: Option<String>,
}

/// What a [`HealthCheckResponse`] says.
#[verifier::ext_equal]
pub struct HealthCheckResponseView {
    pub healthy: bool,
    pub message: Option<Seq<char>>,
}

impl View for HealthCheckResponse {
    type V = HealthCheckResponseView;

    open spec fn view(&self) -> HealthCheckResponseView {
        HealthCheckResponseView { healthy: self.healthy, message: self.message.deep_view() }
    }
}

/// A link definition says what its fields hold, each setting with its name and its value, in
/// order.
pub proof fn law_link_definition_says_what_it_holds(ld: LinkDefinition)
    ensures
        ld@.actor_id == ld.actor_id@,
        ld@.provider_id == ld.provider_id@,
        ld@.link_name == ld.link_name@,
        ld@.contract_id == ld.contract_id@,
        ld@.values.len() == ld.values@.len(),
        forall|i: int|
            0 <= i < ld.values@.len() ==> #[trigger] ld@.values[i] == (
                ld.values@[i].0@,
                ld.values@[i].1@,
            ),
{
}

/// A health report says what its fields hold.
pub proof fn law_health_report_says_what_it_holds(report: HealthCheckResponse)
    ensures
        report@.healthy == report.healthy,
        report@.message is Some <==> report.message is Some,
        report.message is Some ==> report@.message->Some_0 == report.message->Some_0@,
{
}

} // verus!
