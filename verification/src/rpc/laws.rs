//! What holds of the bridge as a whole.

use crate::lattice::{HealthCheckResponse, HealthCheckResponseView, HostData, LinkDefinitionView};
use crate::logging::Level;
use crate::provider_sdk::topic::rpc_topic_text;
use crate::rpc::bridge::{
    next_channel, topic_text, Channel, ConnectStep, ConnectStepView, HostBridgeView,
};
use crate::rpc::handler::{Message, RpcError};
use crate::rpc::health::{
    health_after, health_answer, health_report, HealthAction, HealthActionView, HealthEvent,
    HealthStep,
};
use crate::rpc::host_data::{
    host_data_error_text, load_outcome, parse_outcome, HostDataError, HostDataErrorView,
    HOST_DATA_ENV,
};
use crate::rpc::invocation::{
    response_to, result_text, rpc_after, rpc_expects, Invocation, InvocationResponse,
    InvocationResponseView, PendingCallView, RpcAction, RpcActionView, RpcEvent, RpcState,
    RpcStateView, RpcStep,
};
use crate::rpc::links::{answer_text, put_answer_log, relink_warning};
use crate::rpc::shutdown::{shutdown_actions, ShutdownAction, ShutdownActionView};
use crate::text::lemma_split_last;
use vstd::prelude::*;

verus! {

/// A stored link is found again as it was stored, and no other actor's link changes.
pub proof fn law_stored_link_is_found<S>(
    bridge: HostBridgeView<S>,
    ld: LinkDefinitionView,
    other: Seq<char>,
)
    ensures
        bridge.linked(ld).links.contains_key(ld.actor_id),
        bridge.linked(ld).links[ld.actor_id] == ld,
        other != ld.actor_id ==> {
            &&& bridge.linked(ld).links.contains_key(other) == bridge.links.contains_key(other)
            &&& bridge.linked(ld).links[other] == bridge.links[other]
        },
        bridge.wf() ==> bridge.linked(ld).wf(),
        bridge.linked(ld).subs == bridge.subs,
        bridge.linked(ld).lattice_prefix == bridge.lattice_prefix,
{
}

/// Storing a link is idempotent: a duplicate of a put message, answered as the first was,
/// changes nothing.
pub proof fn law_put_link_is_idempotent<S>(
    bridge: HostBridgeView<S>,
    ld: LinkDefinitionView,
    answer: Result<bool, Seq<char>>,
)
    ensures
        bridge.linked(ld).linked(ld) == bridge.linked(ld),
        bridge.answered(ld, answer).answered(ld, answer) == bridge.answered(ld, answer),
{
    assert(bridge.linked(ld).linked(ld).links == bridge.linked(ld).links);
}

/// A deleted link is gone, other links stay, deleting it again changes nothing, and deleting
/// the link of an actor that was linked anew restores the links from before.
pub proof fn law_delete_link_undoes_put_link<S>(
    bridge: HostBridgeView<S>,
    ld: LinkDefinitionView,
    other: Seq<char>,
)
    ensures
        !bridge.unlinked(ld.actor_id).links.contains_key(ld.actor_id),
        other != ld.actor_id ==> {
            &&& bridge.unlinked(ld.actor_id).links.contains_key(other)
                == bridge.links.contains_key(other)
            &&& bridge.unlinked(ld.actor_id).links[other] == bridge.links[other]
        },
        bridge.unlinked(ld.actor_id).unlinked(ld.actor_id) == bridge.unlinked(ld.actor_id),
        !bridge.links.contains_key(ld.actor_id) ==> bridge.linked(ld).unlinked(ld.actor_id)
            == bridge,
        bridge.wf() ==> bridge.unlinked(ld.actor_id).wf(),
        bridge.unlinked(ld.actor_id).subs == bridge.subs,
        bridge.unlinked(ld.actor_id).lattice_prefix == bridge.lattice_prefix,
{
    assert(bridge.unlinked(ld.actor_id).unlinked(ld.actor_id).links == bridge.unlinked(
        ld.actor_id,
    ).links);
    if !bridge.links.contains_key(ld.actor_id) {
        assert(bridge.linked(ld).unlinked(ld.actor_id).links == bridge.links);
    }
}

/// An actor is linked by a put message if the provider allowed it, and only then: after any other
/// answer the bridge is as it was.
pub proof fn law_links_are_allowed<S>(
    bridge: HostBridgeView<S>,
    ld: LinkDefinitionView,
    answer: Result<bool, Seq<char>>,
    actor: Seq<char>,
)
    ensures
        answer == Ok::<bool, Seq<char>>(true) ==> {
            &&& bridge.answered(ld, answer).links == bridge.links.insert(ld.actor_id, ld)
            &&& bridge.answered(ld, answer).subs == bridge.subs
            &&& bridge.answered(ld, answer).lattice_prefix == bridge.lattice_prefix
        },
        answer != Ok::<bool, Seq<char>>(true) ==> bridge.answered(ld, answer) == bridge,
        bridge.answered(ld, answer).links.contains_key(actor) && !bridge.links.contains_key(actor)
            ==> answer == Ok::<bool, Seq<char>>(true) && actor == ld.actor_id,
        bridge.wf() ==> bridge.answered(ld, answer).wf(),
{
}

/// A message about links, as it was handled: a put with the provider's answer to it, or the
/// deletion of an actor's link.
pub enum LinkMessage {
    Put(LinkDefinitionView, Result<bool, Seq<char>>),
    Delete(Seq<char>),
}

/// The bridge once the messages were handled, in order.
pub open spec fn after_messages<S>(
    bridge: HostBridgeView<S>,
    messages: Seq<LinkMessage>,
) -> HostBridgeView<S>
    decreases messages.len(),
{
    if messages.len() == 0 {
        bridge
    } else {
        let before = after_messages(bridge, messages.drop_last());
        match messages.last() {
            LinkMessage::Put(ld, answer) => before.answered(ld, answer),
            LinkMessage::Delete(actor_id) => before.unlinked(actor_id),
        }
    }
}

/// The message settles whether the actor is linked: it deletes the link, or puts one that the
/// provider allowed.
pub open spec fn settles(message: LinkMessage, actor: Seq<char>) -> bool {
    match message {
        LinkMessage::Put(ld, answer) => ld.actor_id == actor && answer == Ok::<bool, Seq<char>>(
            true,
        ),
        LinkMessage::Delete(actor_id) => actor_id == actor,
    }
}

/// At any time, whether an actor is linked, and how, is what the latest message that settled it
/// says; an actor that no message settled is linked as it was at the start. Each definition
/// stands under its actor all along, and subscriptions are not touched.
pub proof fn law_latest_message_counts<S>(
    bridge: HostBridgeView<S>,
    messages: Seq<LinkMessage>,
    actor: Seq<char>,
)
    ensures
        ({
            let after = after_messages(bridge, messages);
            &&& bridge.wf() ==> after.wf()
            &&& after.subs == bridge.subs
            &&& forall|i: int|
                #![trigger messages[i]]
                0 <= i < messages.len() && settles(messages[i], actor) && (forall|j: int|
                    i < j < messages.len() ==> !settles(#[trigger] messages[j], actor)) ==> match messages[i] {
                    LinkMessage::Put(ld, _) => after.links.contains_key(actor) && after.links[actor]
                        == ld,
                    LinkMessage::Delete(_) => !after.links.contains_key(actor),
                }
            &&& (forall|j: int|
                0 <= j < messages.len() ==> !settles(#[trigger] messages[j], actor)) ==> {
                &&& after.links.contains_key(actor) == bridge.links.contains_key(actor)
                &&& after.links[actor] == bridge.links[actor]
            }
        }),
    decreases messages.len(),
{
    if messages.len() > 0 {
        let earlier = messages.drop_last();
        law_latest_message_counts(bridge, earlier, actor);
        let n = messages.len() - 1;
        let before = after_messages(bridge, earlier);
        let after = after_messages(bridge, messages);
        assert(forall|j: int| 0 <= j < n ==> #[trigger] messages[j] == earlier[j]);
        assert forall|i: int|
            #![trigger messages[i]]
            0 <= i < messages.len() && settles(messages[i], actor) && (forall|j: int|
                i < j < messages.len() ==> !settles(#[trigger] messages[j], actor)) implies match messages[i] {
            LinkMessage::Put(ld, _) => after.links.contains_key(actor) && after.links[actor] == ld,
            LinkMessage::Delete(_) => !after.links.contains_key(actor),
        } by {
            if i < n {
                assert(!settles(messages[n], actor));
                assert(earlier[i] == messages[i]);
                assert forall|j: int| i < j < earlier.len() implies !settles(
                    #[trigger] earlier[j],
                    actor,
                ) by {
                    assert(messages[j] == earlier[j]);
                }
            }
        }
        if forall|j: int| 0 <= j < messages.len() ==> !settles(#[trigger] messages[j], actor) {
            assert(!settles(messages[n], actor));
            assert forall|j: int| 0 <= j < earlier.len() implies !settles(
                #[trigger] earlier[j],
                actor,
            ) by {
                assert(messages[j] == earlier[j]);
            }
        }
    }
}

/// The bridge and the next step once the subscriptions `subs` were made, beginning with
/// `channel`.
pub open spec fn connect_run<S>(
    bridge: HostBridgeView<S>,
    provider_key: Seq<char>,
    link_name: Seq<char>,
    channel: Channel,
    subs: Seq<S>,
) -> (HostBridgeView<S>, ConnectStepView)
    decreases subs.len(),
{
    if subs.len() == 0 {
        (bridge, bridge.subscribe_step(provider_key, link_name, channel))
    } else {
        let after = bridge.listening(channel, subs[0]);
        match next_channel(channel) {
            Some(next) => connect_run(after, provider_key, link_name, next, subs.drop_first()),
            None => (after, bridge.step_after(provider_key, link_name, channel)),
        }
    }
}

/// Connecting takes five subscriptions. With them the provider is connected, and of the five
/// all but the third, the one to shutdown requests, are recorded, so that they are the ones
/// that are drained when the provider stops. Links are not touched.
pub proof fn law_connecting_records_all_but_shutdown<S>(
    bridge: HostBridgeView<S>,
    provider_key: Seq<char>,
    link_name: Seq<char>,
    subs: Seq<S>,
)
    requires
        subs.len() == 5,
    ensures
        ({
            let (after, step) = connect_run(
                bridge,
                provider_key,
                link_name,
                Channel::LinkDelete,
                subs,
            );
            &&& step == ConnectStepView::Connected
            &&& after.subs == bridge.subs + seq![subs[0], subs[1], subs[3], subs[4]]
            &&& after.links == bridge.links
            &&& after.lattice_prefix == bridge.lattice_prefix
        }),
{
    reveal_with_fuel(connect_run, 6);
    let (after, step) = connect_run(bridge, provider_key, link_name, Channel::LinkDelete, subs);
    assert(subs.drop_first()[0] == subs[1]);
    assert(subs.drop_first().drop_first()[0] == subs[2]);
    assert(subs.drop_first().drop_first().drop_first()[0] == subs[3]);
    assert(subs.drop_first().drop_first().drop_first().drop_first()[0] == subs[4]);
    assert(after.subs == bridge.subs.push(subs[0]).push(subs[1]).push(subs[3]).push(subs[4]));
    assert(after.subs == bridge.subs + seq![subs[0], subs[1], subs[3], subs[4]]);
}

/// The messages of one provider have a subject for each kind: no two kinds share one, but for
/// calls and health checks, of which [`law_health_subject_is_distinct`] speaks.
pub proof fn law_subjects_are_distinct(
    prefix: Seq<char>,
    provider_key: Seq<char>,
    link_name: Seq<char>,
    one: Channel,
    other: Channel,
)
    requires
        one != other,
        !(one == Channel::Rpc && other == Channel::Health),
        !(one == Channel::Health && other == Channel::Rpc),
    ensures
        topic_text(prefix, provider_key, link_name, one) != topic_text(
            prefix,
            provider_key,
            link_name,
            other,
        ),
{
    reveal_strlit(".linkdefs.del");
    reveal_strlit(".linkdefs.put");
    reveal_strlit(".shutdown");
    reveal_strlit(".health");
    let rpc = topic_text(prefix, provider_key, link_name, Channel::Rpc);
    let del = topic_text(prefix, provider_key, link_name, Channel::LinkDelete);
    let put = topic_text(prefix, provider_key, link_name, Channel::LinkPut);
    let shutdown = topic_text(prefix, provider_key, link_name, Channel::Shutdown);
    let health = topic_text(prefix, provider_key, link_name, Channel::Health);
    assert(del.len() == rpc.len() + 13);
    assert(put.len() == rpc.len() + 13);
    assert(shutdown.len() == rpc.len() + 9);
    assert(del.last() == 'l');
    assert(put.last() == 't');
    assert(shutdown.last() == 'n');
    assert(health.last() == 'h');
}

/// The subject of health checks does not name the lattice. Where neither the provider's key nor
/// the link's name holds a dot, it is also the subject of calls only if the lattice, the
/// provider and the link are all called `health`.
pub proof fn law_health_subject_is_distinct(
    prefix: Seq<char>,
    provider_key: Seq<char>,
    link_name: Seq<char>,
)
    requires
        !provider_key.contains('.'),
        !link_name.contains('.'),
    ensures
        topic_text(prefix, provider_key, link_name, Channel::Health) == topic_text(
            prefix,
            provider_key,
            link_name,
            Channel::Rpc,
        ) <==> prefix == "health"@ && provider_key == "health"@ && link_name == "health"@,
{
    reveal_strlit(".");
    reveal_strlit(".health");
    reveal_strlit("health");
    let name = "health"@;
    let dot = seq!['.'];
    let head = "wasmbus.rpc."@;
    let health = topic_text(prefix, provider_key, link_name, Channel::Health);
    let rpc = topic_text(prefix, provider_key, link_name, Channel::Rpc);
    assert("."@ == dot);
    assert(".health"@ == dot + name);
    let checked = head + provider_key + dot + link_name;
    let called = head + prefix + dot + provider_key;
    assert(health == checked + dot + name);
    assert(rpc == called + dot + link_name);
    assert(!name.contains('.'));
    if health == rpc {
        lemma_split_last(health, '.', checked, name);
        lemma_split_last(health, '.', called, link_name);
        assert(link_name == name && checked == called);
        lemma_split_last(checked, '.', head + provider_key, name);
        lemma_split_last(checked, '.', head + prefix, provider_key);
        assert(provider_key == name && head + provider_key == head + prefix);
        assert(provider_key == (head + provider_key).skip(head.len() as int));
        assert(prefix == (head + prefix).skip(head.len() as int));
    }
}

/// What is sent to a provider reaches it: the subject for sending to an entity with a link name
/// is the one on which the provider of that key and link name is called.
pub proof fn law_provider_is_reached(
    lattice: Seq<char>,
    public_key: Seq<char>,
    link_name: Seq<char>,
)
    requires
        link_name.len() > 0,
    ensures
        rpc_topic_text(public_key, link_name, lattice) == topic_text(
            lattice,
            public_key,
            link_name,
            Channel::Rpc,
        ),
{
}

/// A call is served: the provider is called with the invocation's operation and argument, in a
/// context whose actor is the one that the invocation comes from; what comes of that is written
/// out as the response to this invocation, what was written is sent, and then the next message
/// is awaited.
pub proof fn law_call_is_answered(
    inv: Invocation,
    result: Result<Message, RpcError>,
    bytes: Vec<u8>,
    sent: Result<(), String>,
)
    ensures
        ({
            let called = rpc_after(RpcStateView::Waiting, RpcEvent::Received(Ok(inv)));
            let finished = rpc_after(called.state, RpcEvent::Finished(result));
            let written = rpc_after(finished.state, RpcEvent::Serialized(Ok(bytes)));
            let done = rpc_after(written.state, RpcEvent::Sent(sent));
            &&& rpc_expects(called.state, RpcEvent::Finished(result))
            &&& rpc_expects(finished.state, RpcEvent::Serialized(Ok(bytes)))
            &&& rpc_expects(written.state, RpcEvent::Sent(sent))
            &&& called.action == (RpcActionView::Call {
                actor: Some(inv.origin.public_key@),
                tracing: Map::empty(),
                method: inv.operation@,
                arg: inv.msg@,
            })
            &&& finished.action == RpcActionView::Serialize(
                response_to(inv.id@, result_text(result)),
            )
            &&& finished.action == RpcActionView::Serialize(
                InvocationResponseView {
                    msg: match result {
                        Ok(message) => message.arg@,
                        Err(_) => Seq::empty(),
                    },
                    error: match result {
                        Ok(_) => None,
                        Err(error) => Some(error.message@),
                    },
                    invocation_id: inv.id@,
                },
            )
            &&& written.action == RpcActionView::Send(bytes@)
            &&& done.action == RpcActionView::Receive
            &&& done.state == RpcStateView::Waiting
        }),
{
}

/// Nothing is answered that was not called: a response is written only when an operation has
/// come to its end, bytes are sent only when a response was written, and the provider is called
/// only with an invocation that arrived. A message without an invocation is passed over.
pub proof fn law_only_calls_are_answered(state: RpcStateView, event: RpcEvent)
    ensures
        rpc_after(state, event).action is Serialize ==> state is Calling,
        rpc_after(state, event).action is Send ==> state is Writing,
        rpc_after(state, event).action is Call <==> event matches RpcEvent::Received(Ok(_)),
        event matches RpcEvent::Received(Err(_)) ==> rpc_after(state, event).action
            == RpcActionView::Receive && rpc_after(state, event).state == RpcStateView::Waiting,
{
}

/// A response names its invocation. It has the operation's result and no error where the
/// operation succeeded, and its error and no result where it failed.
pub proof fn law_response_names_its_invocation(id: Seq<char>, result: Result<Seq<u8>, Seq<char>>)
    ensures
        response_to(id, result).invocation_id == id,
        response_to(id, result).error is Some <==> result is Err,
        result matches Ok(msg) ==> response_to(id, result).msg == msg,
        result matches Err(error) ==> response_to(id, result).msg.len() == 0 && response_to(
            id,
            result,
        ).error == Some(error),
{
}

/// A health check is answered: the provider is asked, its report or its failure is written out,
/// what was written is sent, and then the next health check is awaited.
pub proof fn law_health_check_is_answered(
    answer: Result<HealthCheckResponse, RpcError>,
    bytes: Vec<u8>,
    sent: Result<(), String>,
)
    ensures
        health_after(HealthEvent::Received).action == HealthActionView::Ask,
        health_after(HealthEvent::Answered(answer)).action == HealthActionView::Serialize(
            health_report(health_answer(answer)),
        ),
        health_after(HealthEvent::Serialized(Ok(bytes))).action == HealthActionView::Send(bytes@),
        health_after(HealthEvent::Sent(sent)).action == HealthActionView::Receive,
{
}

/// A provider that cannot say how it is counts as not healthy, and the host learns why; a
/// report that it gives is passed on as it is.
pub proof fn law_failed_health_check_is_unhealthy(
    answer: Result<HealthCheckResponseView, Seq<char>>,
)
    ensures
        answer matches Err(error) ==> !health_report(answer).healthy && health_report(
            answer,
        ).message == Some(error),
        answer matches Ok(report) ==> health_report(answer) == report,
{
}

/// Connecting asks for one subscription after the other. Each is to the subject of the bridge's
/// lattice, the given provider key, the given link name and its own channel, and the next step
/// is about the same provider and link; after calls, which are the last, the provider is
/// connected. Calls are awaited where they are sent to.
pub proof fn law_connecting_names_its_subjects<S>(
    bridge: HostBridgeView<S>,
    provider_key: Seq<char>,
    link_name: Seq<char>,
)
    ensures
        ({
            let lattice = bridge.lattice_prefix;
            let calls = "wasmbus.rpc."@ + lattice + "."@ + provider_key + "."@ + link_name;
            let health = "wasmbus.rpc."@ + provider_key + "."@ + link_name + ".health"@;
            let ask = |channel: Channel, topic: Seq<char>|
                ConnectStepView::Subscribe { provider_key, link_name, channel, topic };
            let after = |channel: Channel| bridge.step_after(provider_key, link_name, channel);
            let first = bridge.subscribe_step(provider_key, link_name, Channel::LinkDelete);
            &&& first == ask(Channel::LinkDelete, calls + ".linkdefs.del"@)
            &&& after(Channel::LinkDelete) == ask(Channel::LinkPut, calls + ".linkdefs.put"@)
            &&& after(Channel::LinkPut) == ask(Channel::Shutdown, calls + ".shutdown"@)
            &&& after(Channel::Shutdown) == ask(Channel::Health, health)
            &&& after(Channel::Health) == ask(Channel::Rpc, calls)
            &&& after(Channel::Rpc) == ConnectStepView::Connected
            &&& link_name.len() > 0 ==> calls == rpc_topic_text(provider_key, link_name, lattice)
        }),
{
}

/// A subscription is recorded unless it is the one to shutdown requests, and nothing else of the
/// bridge changes with it.
pub proof fn law_subscription_is_recorded<S>(bridge: HostBridgeView<S>, channel: Channel, sub: S)
    ensures
        channel == Channel::Shutdown ==> bridge.listening(channel, sub) == bridge,
        channel != Channel::Shutdown ==> bridge.listening(channel, sub).subs == bridge.subs.push(
            sub,
        ),
        bridge.listening(channel, sub).links == bridge.links,
        bridge.listening(channel, sub).lattice_prefix == bridge.lattice_prefix,
{
}

/// The subject of each kind of message is made of the lattice, the provider's key, the link's
/// name and the kind's ending, in this order; that of health checks does not name the lattice.
pub proof fn law_subjects_of_the_channels(
    prefix: Seq<char>,
    provider_key: Seq<char>,
    link_name: Seq<char>,
)
    ensures
        ({
            let calls = "wasmbus.rpc."@ + prefix + "."@ + provider_key + "."@ + link_name;
            let of = |channel: Channel| topic_text(prefix, provider_key, link_name, channel);
            &&& of(Channel::Rpc) == calls
            &&& of(Channel::LinkDelete) == calls + ".linkdefs.del"@
            &&& of(Channel::LinkPut) == calls + ".linkdefs.put"@
            &&& of(Channel::Shutdown) == calls + ".shutdown"@
            &&& of(Channel::Health) == "wasmbus.rpc."@ + provider_key + "."@ + link_name
                + ".health"@
        }),
{
}

/// Two link names of one provider have two subjects, whatever the kind of message; so have two
/// lattices, except for health checks.
pub proof fn law_links_have_their_own_subjects(
    prefix: Seq<char>,
    provider_key: Seq<char>,
    link_name: Seq<char>,
    other_prefix: Seq<char>,
    other_link_name: Seq<char>,
    channel: Channel,
)
    ensures
        topic_text(prefix, provider_key, link_name, channel) == topic_text(
            prefix,
            provider_key,
            other_link_name,
            channel,
        ) <==> link_name == other_link_name,
        channel != Channel::Health ==> (topic_text(prefix, provider_key, link_name, channel)
            == topic_text(other_prefix, provider_key, link_name, channel) <==> prefix
            == other_prefix),
{
    let head = "wasmbus.rpc."@;
    let tail = match channel {
        Channel::LinkDelete => ".linkdefs.del"@,
        Channel::LinkPut => ".linkdefs.put"@,
        Channel::Shutdown => ".shutdown"@,
        Channel::Health => ".health"@,
        Channel::Rpc => Seq::empty(),
    };
    let start = if channel == Channel::Health {
        head + provider_key + "."@
    } else {
        head + prefix + "."@ + provider_key + "."@
    };
    lemma_same_surroundings(start, link_name, other_link_name, tail);
    assert(topic_text(prefix, provider_key, link_name, channel) == start + link_name + tail);
    assert(topic_text(prefix, provider_key, other_link_name, channel) == start + other_link_name
        + tail);
    if channel != Channel::Health {
        let rest = "."@ + provider_key + "."@ + link_name + tail;
        lemma_same_surroundings(head, prefix, other_prefix, rest);
        assert(topic_text(prefix, provider_key, link_name, channel) == head + prefix + rest);
        assert(topic_text(other_prefix, provider_key, link_name, channel) == head + other_prefix
            + rest);
    }
}

/// Texts that begin and end alike are the same only if they are in between.
proof fn lemma_same_surroundings(
    start: Seq<char>,
    one: Seq<char>,
    other: Seq<char>,
    end: Seq<char>,
)
    ensures
        start + one + end == start + other + end <==> one == other,
{
    let a = start + one + end;
    let b = start + other + end;
    if a == b {
        assert(a.len() == b.len());
        assert(a.skip(start.len() as int).take(one.len() as int) == one);
        assert(b.skip(start.len() as int).take(one.len() as int) == other);
    }
}

/// A step of connecting says what its fields hold.
pub proof fn law_connect_step_says_what_it_holds(step: ConnectStep)
    ensures
        match step {
            ConnectStep::Subscribe { connecting, topic } => step@ == (ConnectStepView::Subscribe {
                provider_key: connecting.provider_key@,
                link_name: connecting.link_name@,
                channel: connecting.channel,
                topic: topic@,
            }),
            ConnectStep::Connected => step@ == ConnectStepView::Connected,
            ConnectStep::Failed(reason) => step@ == ConnectStepView::Failed(reason@),
        },
{
}

/// A put message for a linked actor is warned of with the actor and the provider, and the
/// provider's answer to one is logged with the actor and, where it failed, with its own words.
pub proof fn law_links_are_logged(
    ld: LinkDefinitionView,
    actor_id: Seq<char>,
    allowed: bool,
    error: RpcError,
)
    ensures
        relink_warning(ld) == (
            Level::Warn,
            "Received LD put for existing link definition from "@ + ld.actor_id + " to "@
                + ld.provider_id + "\n"@,
        ),
        put_answer_log(actor_id, Ok(true)) == (Level::Info, "Linking "@ + actor_id + "\n"@),
        put_answer_log(actor_id, Ok(false)) == (
            Level::Warn,
            "put_link denied: "@ + actor_id + "\n"@,
        ),
        put_answer_log(actor_id, Err(error.message@)) == (
            Level::Error,
            "put_link "@ + actor_id + " failed: "@ + error.message@ + "\n"@,
        ),
        answer_text(Ok(allowed)) == Ok::<bool, Seq<char>>(allowed),
        answer_text(Err(error)) == Err::<bool, Seq<char>>(error.message@),
{
}

/// The response to a call carries all that the provider's operation came to: every byte of its
/// result and no error where it succeeded, no bytes and the words of its error where it failed.
/// Two operations of one call are therefore answered alike only if they came to the same.
pub proof fn law_response_carries_the_result(
    pending: PendingCallView,
    message: Message,
    error: RpcError,
    other: Message,
)
    ensures
        ({
            let calling = RpcStateView::Calling(pending);
            let succeeded = rpc_after(calling, RpcEvent::Finished(Ok(message)));
            let failed = rpc_after(calling, RpcEvent::Finished(Err(error)));
            let again = rpc_after(calling, RpcEvent::Finished(Ok(other)));
            &&& succeeded.action matches RpcActionView::Serialize(response)
            &&& response.msg == message.arg@
            &&& response.error is None
            &&& response.invocation_id == pending.invocation_id
            &&& succeeded.state == RpcStateView::Writing(pending)
            &&& failed.action matches RpcActionView::Serialize(refusal)
            &&& refusal.msg.len() == 0
            &&& refusal.error == Some(error.message@)
            &&& refusal.invocation_id == pending.invocation_id
            &&& failed.state == RpcStateView::Writing(pending)
            &&& succeeded.action == again.action <==> message.arg@ == other.arg@
            &&& succeeded.action != failed.action
        }),
{
    let calling = RpcStateView::Calling(pending);
    let succeeded = rpc_after(calling, RpcEvent::Finished(Ok(message)));
    let failed = rpc_after(calling, RpcEvent::Finished(Err(error)));
    assert(succeeded.action->Serialize_0.error != failed.action->Serialize_0.error);
}

/// The provider is called with the invocation's own operation and argument, in the name of the
/// actor that the invocation comes from. What was written out is sent whole, and what could not
/// be written is not sent.
pub proof fn law_call_is_passed_on(
    state: RpcStateView,
    inv: Invocation,
    pending: PendingCallView,
    bytes: Vec<u8>,
    error: String,
)
    ensures
        ({
            let called = rpc_after(state, RpcEvent::Received(Ok(inv)));
            let written = rpc_after(
                RpcStateView::Writing(pending),
                RpcEvent::Serialized(Ok(bytes)),
            );
            let unwritten = rpc_after(
                RpcStateView::Writing(pending),
                RpcEvent::Serialized(Err(error)),
            );
            &&& called.action == (RpcActionView::Call {
                actor: Some(inv.origin.public_key@),
                tracing: Map::empty(),
                method: inv.operation@,
                arg: inv.msg@,
            })
            &&& called.state matches RpcStateView::Calling(call)
            &&& call.operation == inv.operation@
            &&& call.invocation_id == inv.id@
            &&& written.action == RpcActionView::Send(bytes@)
            &&& written.state == RpcStateView::Sending(pending)
            &&& unwritten.action == RpcActionView::Receive
            &&& unwritten.state == RpcStateView::Waiting
        }),
{
}

/// Serving calls is logged: each message that arrives and each operation's end, and whatever
/// goes wrong, with the operation's name and the error's words.
pub proof fn law_calls_are_logged(
    state: RpcStateView,
    pending: PendingCallView,
    inv: Invocation,
    message: Message,
    failure: RpcError,
    bytes: Vec<u8>,
    error: String,
)
    ensures
        ({
            let arrival = (Level::Debug, "received an RPC message"@);
            let calling = RpcStateView::Calling(pending);
            let writing = RpcStateView::Writing(pending);
            let sending = RpcStateView::Sending(pending);
            &&& rpc_after(state, RpcEvent::Received(Ok(inv))).logs == seq![
                arrival,
                (
                    Level::Debug,
                    "Received RPC Invocation: op:"@ + inv.operation@ + " from:"@
                        + inv.origin.public_key@ + "\n"@,
                ),
            ]
            &&& rpc_after(state, RpcEvent::Received(Err(error))).logs == seq![
                arrival,
                (Level::Error, "received corrupt invocation: "@ + error@ + "\n"@),
            ]
            &&& rpc_after(calling, RpcEvent::Finished(Ok(message))).logs == seq![
                (
                    Level::Debug,
                    "operation "@ + pending.operation + " succeeded. returning response"@,
                ),
            ]
            &&& rpc_after(calling, RpcEvent::Finished(Err(failure))).logs == seq![
                (
                    Level::Error,
                    "operation "@ + pending.operation + " failed with error "@ + failure.message@
                        + "\n"@,
                ),
            ]
            &&& rpc_after(writing, RpcEvent::Serialized(Ok(bytes))).logs.len() == 0
            &&& rpc_after(writing, RpcEvent::Serialized(Err(error))).logs == seq![
                (
                    Level::Error,
                    "failed serializing InvocationResponse to op:"@ + pending.operation + " : "@
                        + error@ + "\n"@,
                ),
            ]
            &&& rpc_after(sending, RpcEvent::Sent(Ok(()))).logs.len() == 0
            &&& rpc_after(sending, RpcEvent::Sent(Err(error))).logs == seq![
                (
                    Level::Error,
                    "failed sending response to op "@ + pending.operation + ": "@ + error@,
                ),
            ]
        }),
{
}

/// A step of serving calls says what its fields hold: its state, its action and its log entries.
pub proof fn law_rpc_step_says_what_it_holds(step: RpcStep, response: InvocationResponse)
    ensures
        match step.state {
            RpcState::Waiting => step@.state == RpcStateView::Waiting,
            RpcState::Calling(p) => step@.state matches RpcStateView::Calling(v) && v.operation
                == p.operation@ && v.invocation_id == p.invocation_id@,
            RpcState::Writing(p) => step@.state matches RpcStateView::Writing(v) && v.operation
                == p.operation@ && v.invocation_id == p.invocation_id@,
            RpcState::Sending(p) => step@.state matches RpcStateView::Sending(v) && v.operation
                == p.operation@ && v.invocation_id == p.invocation_id@,
        },
        match step.action {
            RpcAction::Receive => step@.action == RpcActionView::Receive,
            RpcAction::Call { ctx, message } => step@.action == (RpcActionView::Call {
                actor: ctx.actor.deep_view(),
                tracing: ctx.tracing@,
                method: message.method@,
                arg: message.arg@,
            }),
            RpcAction::Serialize(r) => step@.action == RpcActionView::Serialize(r@),
            RpcAction::Send(bytes) => step@.action == RpcActionView::Send(bytes@),
        },
        step@.logs.len() == step.logs@.len(),
        forall|i: int|
            0 <= i < step.logs@.len() ==> #[trigger] step@.logs[i] == (
                step.logs@[i].level,
                step.logs@[i].message@,
            ),
        response@.msg == response.msg@,
        response@.error == response.error.deep_view(),
        response@.invocation_id == response.invocation_id@,
{
}

/// The host is told what the provider answered: its report with flag and message both, as they
/// are, or, where it failed to give one, that it is not well and the words of its error. Two
/// reports are therefore passed on alike only if they say the same.
pub proof fn law_health_report_is_passed_on(
    report: HealthCheckResponse,
    other: HealthCheckResponse,
    error: RpcError,
)
    ensures
        ({
            let told = health_after(HealthEvent::Answered(Ok(report)));
            let again = health_after(HealthEvent::Answered(Ok(other)));
            let failed = health_after(HealthEvent::Answered(Err(error)));
            &&& told.action matches HealthActionView::Serialize(sent)
            &&& sent.healthy == report.healthy
            &&& sent.message == report.message.deep_view()
            &&& told.log is None
            &&& told.action == again.action <==> report.healthy == other.healthy
                && report.message.deep_view() == other.message.deep_view()
            &&& failed.action matches HealthActionView::Serialize(refusal)
            &&& !refusal.healthy
            &&& refusal.message == Some(error.message@)
        }),
{
    let told = health_after(HealthEvent::Answered(Ok(report)));
    let again = health_after(HealthEvent::Answered(Ok(other)));
    if report.healthy == other.healthy && report.message.deep_view() == other.message.deep_view() {
        assert(told.action->Serialize_0 == again.action->Serialize_0);
    }
}

/// A report that was written out is sent whole, and one that could not be is not sent. Whatever
/// goes wrong is logged with the error's words.
pub proof fn law_health_checks_are_logged(bytes: Vec<u8>, failure: RpcError, error: String)
    ensures
        health_after(HealthEvent::Received).log == Some(
            (Level::Debug, "received health check request\n"@),
        ),
        health_after(HealthEvent::Answered(Err(failure))).log == Some(
            (Level::Error, "error generating health check response: "@ + failure.message@),
        ),
        health_after(HealthEvent::Serialized(Ok(bytes))).action == HealthActionView::Send(bytes@),
        health_after(HealthEvent::Serialized(Ok(bytes))).log is None,
        health_after(HealthEvent::Serialized(Err(error))).action == HealthActionView::Receive,
        health_after(HealthEvent::Serialized(Err(error))).log == Some(
            (Level::Error, "failed serializing HealthCheckResponse: "@ + error@),
        ),
        health_after(HealthEvent::Sent(Ok(()))).log is None,
        health_after(HealthEvent::Sent(Err(error))).log == Some(
            (Level::Error, "failed sending health check response: "@ + error@),
        ),
{
}

/// A step of answering health checks says what its fields hold.
pub proof fn law_health_step_says_what_it_holds(step: HealthStep)
    ensures
        match step.action {
            HealthAction::Receive => step@.action == HealthActionView::Receive,
            HealthAction::Ask => step@.action == HealthActionView::Ask,
            HealthAction::Serialize(report) => {
                &&& step@.action matches HealthActionView::Serialize(view)
                &&& view.healthy == report.healthy
                &&& view.message == report.message.deep_view()
            },
            HealthAction::Send(bytes) => step@.action == HealthActionView::Send(bytes@),
        },
        match step.log {
            Some(log) => step@.log == Some((log.level, log.message@)),
            None => step@.log is None,
        },
{
}

/// Stopping goes in order: no further message can reach the provider when it is stopped, it has
/// stopped when the host is told so, and the main thread is told last. Each step is taken once.
pub proof fn law_provider_stops_in_order()
    ensures
        ({
            let steps = shutdown_actions();
            &&& steps.len() == 5
            &&& steps[0] == ShutdownActionView::Log(
                (
                    Level::Info,
                    "Received termination signal. Shutting down capability provider."@,
                ),
            )
            &&& steps[1] == ShutdownActionView::UnsubscribeAll
            &&& steps[2] == ShutdownActionView::StopProvider
            &&& steps[3] == ShutdownActionView::Respond("Shutting down"@)
            &&& steps[4] == ShutdownActionView::Signal("bye"@)
        }),
{
}

/// A step of stopping says what its fields hold.
pub proof fn law_shutdown_action_says_what_it_holds(action: ShutdownAction)
    ensures
        action.deep_view() == match action {
            ShutdownAction::Log(log) => ShutdownActionView::Log((log.level, log.message@)),
            ShutdownAction::UnsubscribeAll => ShutdownActionView::UnsubscribeAll,
            ShutdownAction::StopProvider => ShutdownActionView::StopProvider,
            ShutdownAction::Respond(text) => ShutdownActionView::Respond(text@),
            ShutdownAction::Signal(event) => ShutdownActionView::Signal(event@),
        },
{
}

/// Host data that was parsed is returned as it was parsed, and each failure is reported as what
/// it is, with the words of its cause.
pub proof fn law_host_data_is_returned(data: HostData, reason: String)
    ensures
        parse_outcome(Ok(data)) == Ok::<HostData, HostDataErrorView>(data),
        parse_outcome(Err(reason)) == Err::<HostData, HostDataErrorView>(
            HostDataErrorView::InvalidJson(reason@),
        ),
        load_outcome(Ok(data)) == Ok::<HostData, HostDataErrorView>(data),
        load_outcome(Err(HostDataError::NotFound)) == Err::<HostData, HostDataErrorView>(
            HostDataErrorView::NotFound,
        ),
        load_outcome(Err(HostDataError::InvalidBase64(reason))) == Err::<
            HostData,
            HostDataErrorView,
        >(HostDataErrorView::InvalidBase64(reason@)),
        load_outcome(Err(HostDataError::InvalidJson(reason))) == Err::<
            HostData,
            HostDataErrorView,
        >(HostDataErrorView::InvalidJson(reason@)),
        host_data_error_text(HostDataErrorView::NotFound) == "env variable '"@ + HOST_DATA_ENV@
            + "' not found"@,
        host_data_error_text(HostDataErrorView::InvalidBase64(reason@)) == "env variable '"@
            + HOST_DATA_ENV@ + "' is invalid base64: "@ + reason@,
        host_data_error_text(HostDataErrorView::InvalidJson(reason@)) == "parsing '"@
            + HOST_DATA_ENV@ + "': "@ + reason@,
{
}

} // verus!
