//! The bridge between a provider and the host: which actors are linked to the provider, and
//! which subjects it listens on.

use crate::lattice::{HostData, LinkDefinition, LinkDefinitionView};
use vstd::hash_map::StringHashMap;
use vstd::prelude::*;

verus! {

/// The kinds of message that a provider listens for, each on a subject of its own.
#[derive(Debug, Clone, Copy, PartialEq, Eq, Structural)]
pub enum Channel {
    /// An actor is no longer linked to the provider.
    LinkDelete,
    /// An actor is to be linked to the provider.
    LinkPut,
    /// The provider is to stop.
    Shutdown,
    /// The host asks whether the provider is well.
    Health,
    /// An actor calls the provider.
    Rpc,
}

/// The subject of the messages of one kind.
pub open spec fn topic_text(
    prefix: Seq<char>,
    provider_key: Seq<char>,
    link_name: Seq<char>,
    channel: Channel,
) -> Seq<char> {
    let rpc = "wasmbus.rpc."@ + prefix + "."@ + provider_key + "."@ + link_name;
    match channel {
        Channel::LinkDelete => rpc + ".linkdefs.del"@,
        Channel::LinkPut => rpc + ".linkdefs.put"@,
        Channel::Shutdown => rpc + ".shutdown"@,
        Channel::Health => "wasmbus.rpc."@ + provider_key + "."@ + link_name + ".health"@,
        Channel::Rpc => rpc,
    }
}

/// Subscriptions are made in this order, link deletion first.
pub open spec fn next_channel(channel: Channel) -> Option<Channel> {
    match channel {
        Channel::LinkDelete => Some(Channel::LinkPut),
        Channel::LinkPut => Some(Channel::Shutdown),
        Channel::Shutdown => Some(Channel::Health),
        Channel::Health => Some(Channel::Rpc),
        Channel::Rpc => None,
    }
}

/// Writes the subject of the messages of one kind.
pub fn topic(prefix: &str, provider_key: &str, link_name: &str, channel: Channel) -> (t: String)
    ensures
        t@ == topic_text(prefix@, provider_key@, link_name@, channel),
{
    let mut t = String::from_str("wasmbus.rpc.");
    if !matches!(channel, Channel::Health) {
        t.append(prefix);
        t.append(".");
    }
    t.append(provider_key);
    t.append(".");
    t.append(link_name);
    match channel {
        Channel::LinkDelete => t.append(".linkdefs.del"),
        Channel::LinkPut => t.append(".linkdefs.put"),
        Channel::Shutdown => t.append(".shutdown"),
        Channel::Health => t.append(".health"),
        Channel::Rpc => (),
    }
    t
}

/// How far the subscribing has come: the channel whose subscription is under way.
#[derive(Debug, PartialEq, Eq)]
pub struct Connecting {
    pub provider_key: String,
    pub link_name: String,
    pub channel: Channel,
}

/// What is to be done next to connect the provider to the host.
#[derive(Debug, PartialEq, Eq)]
pub enum ConnectStep {
    /// Subscribe to `topic`, and report how that went.
    Subscribe { connecting: Connecting, topic: String },
    /// The provider listens on every channel.
    Connected,
    /// A subscription failed, for this reason, and no further one is made.
    Failed(String),
}

/// What a [`ConnectStep`] says.
#[verifier::ext_equal]
pub enum ConnectStepView {
    Subscribe {
        provider_key: Seq<char>,
        link_name: Seq<char>,
        channel: Channel,
        topic: Seq<char>,
    },
    Connected,
    Failed(Seq<char>),
}

impl View for ConnectStep {
    type V = ConnectStepView;

    open spec fn view(&self) -> ConnectStepView {
        match *self {
            ConnectStep::Subscribe { connecting, topic } => ConnectStepView::Subscribe {
                provider_key: connecting.provider_key@,
                link_name: connecting.link_name@,
                channel: connecting.channel,
                topic: topic@,
            },
            ConnectStep::Connected => ConnectStepView::Connected,
            ConnectStep::Failed(reason) => ConnectStepView::Failed(reason@),
        }
    }
}

/// A provider's state towards the host. `S` is the handle of a subscription.
pub struct HostBridge<S> {
    subs: Vec<S>,
    /// The linked actors, by public key.
    links: StringHashMap<LinkDefinition>,
    lattice_prefix: String,
}

/// What a [`HostBridge`] holds.
#[verifier::ext_equal]
#[verifier::reject_recursive_types(S)]
pub struct HostBridgeView<S> {
    /// The recorded subscriptions, oldest first.
    pub subs: Seq<S>,
    /// The link definition of each linked actor.
    pub links: Map<Seq<char>, LinkDefinitionView>,
    pub lattice_prefix: Seq<char>,
}

impl<S> View for HostBridge<S> {
    type V = HostBridgeView<S>;

    closed spec fn view(&self) -> HostBridgeView<S> {
        HostBridgeView {
            subs: self.subs@,
            links: self.links@.map_values(|ld: LinkDefinition| ld@),
            lattice_prefix: self.lattice_prefix@,
        }
    }
}

impl<S> HostBridgeView<S> {
    /// Each definition stands under the actor it names.
    pub open spec fn wf(self) -> bool {
        forall|actor: Seq<char>| #[trigger]
            self.links.contains_key(actor) ==> self.links[actor].actor_id == actor
    }

    /// The bridge once `ld` is stored.
    pub open spec fn linked(self, ld: LinkDefinitionView) -> HostBridgeView<S> {
        HostBridgeView { links: self.links.insert(ld.actor_id, ld), ..self }
    }

    /// The bridge once the actor's link is gone.
    pub open spec fn unlinked(self, actor_id: Seq<char>) -> HostBridgeView<S> {
        HostBridgeView { links: self.links.remove(actor_id), ..self }
    }

    /// The bridge once `sub` listens on `channel`. The subscription to shutdown requests is
    /// not recorded: it has to outlive the others.
    pub open spec fn listening(self, channel: Channel, sub: S) -> HostBridgeView<S> {
        if channel == Channel::Shutdown {
            self
        } else {
            HostBridgeView { subs: self.subs.push(sub), ..self }
        }
    }

    /// The request to subscribe to `channel`.
    pub open spec fn subscribe_step(
        self,
        provider_key: Seq<char>,
        link_name: Seq<char>,
        channel: Channel,
    ) -> ConnectStepView {
        ConnectStepView::Subscribe {
            provider_key,
            link_name,
            channel,
            topic: topic_text(self.lattice_prefix, provider_key, link_name, channel),
        }
    }

    /// What follows once a subscription to `channel` was made.
    pub open spec fn step_after(
        self,
        provider_key: Seq<char>,
        link_name: Seq<char>,
        channel: Channel,
    ) -> ConnectStepView {
        match next_channel(channel) {
            Some(next) => self.subscribe_step(provider_key, link_name, next),
            None => ConnectStepView::Connected,
        }
    }
}

impl<S> HostBridge<S> {
    /// A bridge without links or subscriptions, for the lattice that `host_data` names.
    pub fn new(host_data: &HostData) -> (bridge: HostBridge<S>)
        ensures
            bridge@ == (HostBridgeView {
                subs: Seq::<S>::empty(),
                links: Map::<Seq<char>, LinkDefinitionView>::empty(),
                lattice_prefix: host_data.lattice_rpc_prefix@,
            }),
            bridge@.wf(),
            bridge@.subs.len() == 0,
            forall|actor: Seq<char>| !bridge@.links.contains_key(actor),
            bridge@.lattice_prefix == host_data.lattice_rpc_prefix@,
    {
        let bridge = HostBridge {
            subs: Vec::new(),
            links: StringHashMap::new(),
            lattice_prefix: host_data.lattice_rpc_prefix.clone(),
        };
        assert(bridge@.links == Map::<Seq<char>, LinkDefinitionView>::empty());
        bridge
    }

    /// The subscriptions that have to be drained to clear out all of them, oldest first.
    pub fn unsubscribe_all(&self) -> (subs: &[S])
        ensures
            subs@ == self@.subs,
    {
        self.subs.as_slice()
    }

    /// Stores actor with link definition.
    pub fn put_link(&mut self, ld: LinkDefinition)
        ensures
            final(self)@ == old(self)@.linked(ld@),
            old(self)@.wf() ==> final(self)@.wf(),
            final(self)@.links == old(self)@.links.insert(ld.actor_id@, ld@),
            final(self)@.subs == old(self)@.subs,
            final(self)@.lattice_prefix == old(self)@.lattice_prefix,
    {
        let ghost before = self.links@;
        self.links.insert(ld.actor_id.clone(), ld);
        assert(self@.links == before.map_values(|l: LinkDefinition| l@).insert(ld@.actor_id, ld@));
    }

    /// Deletes link.
    pub fn delete_link(&mut self, actor_id: &str)
        ensures
            final(self)@ == old(self)@.unlinked(actor_id@),
            old(self)@.wf() ==> final(self)@.wf(),
            final(self)@.links == old(self)@.links.remove(actor_id@),
            final(self)@.subs == old(self)@.subs,
            final(self)@.lattice_prefix == old(self)@.lattice_prefix,
    {
        let ghost before = self.links@;
        self.links.remove(actor_id);
        assert(self@.links == before.map_values(|l: LinkDefinition| l@).remove(actor_id@));
    }

    /// Returns true if the actor is linked.
    pub fn is_linked(&self, actor_id: &str) -> (linked: bool)
        ensures
            linked == self@.links.contains_key(actor_id@),
    {
        self.links.contains_key(actor_id)
    }

    /// Returns a copy of the actor's link definition, or `None` if the actor is not linked.
    pub fn get_link(&self, actor_id: &str) -> (found: Option<LinkDefinition>)
        ensures
            match found {
                Some(ld) => self@.links.contains_key(actor_id@) && ld@ == self@.links[actor_id@],
                None => !self@.links.contains_key(actor_id@),
            },
            self@.wf() && found is Some ==> found->Some_0@.actor_id == actor_id@,
    {
        match self.links.get(actor_id) {
            Some(ld) => Some(ld.clone()),
            None => None,
        }
    }

    /// Begins to connect the provider: the first subscription is to link deletions.
    pub fn connect(&self, provider_key: String, link_name: &str) -> (step: ConnectStep)
        ensures
            step@ == self@.subscribe_step(provider_key@, link_name@, Channel::LinkDelete),
            step matches ConnectStep::Subscribe { connecting, topic } && {
                &&& connecting.provider_key@ == provider_key@
                &&& connecting.link_name@ == link_name@
                &&& connecting.channel == Channel::LinkDelete
                &&& topic@ == "wasmbus.rpc."@ + self@.lattice_prefix + "."@ + provider_key@ + "."@
                    + link_name@ + ".linkdefs.del"@
            },
    {
        self.subscribe(provider_key, String::from_str(link_name), Channel::LinkDelete)
    }

    /// Goes on connecting after an attempt to subscribe. A subscription that was made is
    /// recorded, but for the one to shutdown requests; a failed one ends the connecting.
    pub fn subscribed(&mut self, connecting: Connecting, outcome: Result<S, String>) -> (step:
        ConnectStep)
        ensures
            match outcome {
                Ok(sub) => {
                    &&& final(self)@ == old(self)@.listening(connecting.channel, sub)
                    &&& step@ == old(self)@.step_after(
                        connecting.provider_key@,
                        connecting.link_name@,
                        connecting.channel,
                    )
                },
                Err(reason) => {
                    &&& final(self)@ == old(self)@
                    &&& step@ == ConnectStepView::Failed(reason@)
                    &&& step == ConnectStep::Failed(reason)
                },
            },
            final(self)@.links == old(self)@.links,
            final(self)@.lattice_prefix == old(self)@.lattice_prefix,
            outcome matches Ok(sub) ==> final(self)@.subs == match connecting.channel {
                Channel::Shutdown => old(self)@.subs,
                _ => old(self)@.subs.push(sub),
            },
            outcome is Ok && connecting.channel == Channel::Rpc ==> step == ConnectStep::Connected,
            outcome is Ok && connecting.channel != Channel::Rpc ==> {
                let rpc = "wasmbus.rpc."@ + old(self)@.lattice_prefix + "."@
                    + connecting.provider_key@ + "."@ + connecting.link_name@;
                &&& step matches ConnectStep::Subscribe { connecting: next, topic }
                &&& next.provider_key@ == connecting.provider_key@
                &&& next.link_name@ == connecting.link_name@
                &&& match connecting.channel {
                    Channel::LinkDelete => next.channel == Channel::LinkPut && topic@ == rpc
                        + ".linkdefs.put"@,
                    Channel::LinkPut => next.channel == Channel::Shutdown && topic@ == rpc
                        + ".shutdown"@,
                    Channel::Shutdown => next.channel == Channel::Health && topic@
                        == "wasmbus.rpc."@ + connecting.provider_key@ + "."@
                        + connecting.link_name@ + ".health"@,
                    _ => next.channel == Channel::Rpc && topic@ == rpc,
                }
            },
    {
        match outcome {
            Ok(sub) => {
                match connecting.channel {
                    Channel::Shutdown => (),
                    _ => self.subs.push(sub),
                }
                let next = match connecting.channel {
                    Channel::LinkDelete => Channel::LinkPut,
                    Channel::LinkPut => Channel::Shutdown,
                    Channel::Shutdown => Channel::Health,
                    Channel::Health => Channel::Rpc,
                    Channel::Rpc => {
                        return ConnectStep::Connected;
                    },
                };
                self.subscribe(connecting.provider_key, connecting.link_name, next)
            },
            Err(reason) => ConnectStep::Failed(reason),
        }
    }

    fn subscribe(&self, provider_key: String, link_name: String, channel: Channel) -> (step:
        ConnectStep)
        ensures
            step@ == self@.subscribe_step(provider_key@, link_name@, channel),
            step matches ConnectStep::Subscribe { connecting, topic } && {
                &&& connecting.provider_key@ == provider_key@
                &&& connecting.link_name@ == link_name@
                &&& connecting.channel == channel
                &&& topic@ == topic_text(self@.lattice_prefix, provider_key@, link_name@, channel)
            },
    {
        let topic = topic(
            self.lattice_prefix.as_str(),
            provider_key.as_str(),
            link_name.as_str(),
            channel,
        );
        ConnectStep::Subscribe { connecting: Connecting { provider_key, link_name, channel }, topic }
    }
}

} // verus!
