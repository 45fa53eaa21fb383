//! The subjects and addresses of entities on the lattice.

use crate::lattice::WasmCloudEntity;
use crate::text::lemma_split_first;
use vstd::prelude::*;

verus! {

/// The scheme of a wasmbus URL.
pub const URL_SCHEME: &'static str = "wasmbus";

/// NATS address to use if not included in initial host data.
pub const DEFAULT_NATS_ADDR: &'static str = "nats://127.0.0.1:4222";

/// The default timeout for a request to the lattice, in milliseconds.
pub const DEFAULT_RPC_TIMEOUT_MILLIS: u64 = 2000;

/// The subject for sending to the entity with this key and link name. An empty link name
/// marks an actor.
pub open spec fn rpc_topic_text(
    public_key: Seq<char>,
    link_name: Seq<char>,
    lattice: Seq<char>,
) -> Seq<char> {
    let actor = "wasmbus.rpc."@ + lattice + "."@ + public_key;
    if link_name.len() == 0 {
        actor
    } else {
        actor + "."@ + link_name
    }
}

/// Returns the rpc topic (subject) name for sending to an actor or provider. A provider entity
/// must have the `public_key` and `link_name` fields filled in. An actor entity must have a
/// `public_key` and an empty `link_name`.
pub fn rpc_topic(entity: &WasmCloudEntity, lattice: &str) -> (topic: String)
    ensures
        topic@ == rpc_topic_text(entity.public_key@, entity.link_name@, lattice@),
{
    let mut topic = String::from_str("wasmbus.rpc.");
    topic.append(lattice);
    topic.append(".");
    topic.append(entity.public_key.as_str());
    if !entity.link_name.as_str().is_empty() {
        // provider target
        topic.append(".");
        topic.append(entity.link_name.as_str());
    }
    topic
}

/// Distinct targets have distinct subjects, in one lattice or in two.
///
/// Public keys with a dot are left out: the actor `a.b` has the subject of the provider `a` with
/// the link name `b`. So are two lattices of which one has a dot: the actor `b` in the lattice
/// `x.a` has the subject of that provider in the lattice `x`.
pub proof fn law_targets_have_distinct_subjects(
    key: Seq<char>,
    link_name: Seq<char>,
    lattice: Seq<char>,
    other_key: Seq<char>,
    other_link_name: Seq<char>,
    other_lattice: Seq<char>,
)
    requires
        !key.contains('.'),
        !other_key.contains('.'),
        lattice == other_lattice || (!lattice.contains('.') && !other_lattice.contains('.')),
    ensures
        rpc_topic_text(key, link_name, lattice) == rpc_topic_text(
            other_key,
            other_link_name,
            other_lattice,
        ) <==> key == other_key && link_name == other_link_name && lattice == other_lattice,
{
    reveal_strlit(".");
    let dot = seq!['.'];
    assert("."@ == dot);
    let head = "wasmbus.rpc."@;
    let target = target_text(key, link_name);
    let other = target_text(other_key, other_link_name);
    let one = rpc_topic_text(key, link_name, lattice);
    let two = rpc_topic_text(other_key, other_link_name, other_lattice);
    assert(one == head + (lattice + dot + target));
    assert(two == head + (other_lattice + dot + other));
    if one == two {
        assert(one.skip(head.len() as int) == lattice + dot + target);
        assert(two.skip(head.len() as int) == other_lattice + dot + other);
        let rest = lattice + dot + target;
        if lattice == other_lattice {
            assert(rest.skip(lattice.len() as int + 1) == target);
            assert((other_lattice + dot + other).skip(lattice.len() as int + 1) == other);
        } else {
            lemma_split_first(rest, '.', lattice, target);
            lemma_split_first(rest, '.', other_lattice, other);
        }
        assert(target == other);
        lemma_split_first(target, '.', key, link_name);
        lemma_split_first(target, '.', other_key, other_link_name);
        assert(link_name.len() == 0 ==> link_name == Seq::<char>::empty());
        assert(other_link_name.len() == 0 ==> other_link_name == Seq::<char>::empty());
    }
}

/// What stands in a subject for the entity itself.
spec fn target_text(public_key: Seq<char>, link_name: Seq<char>) -> Seq<char> {
    if link_name.len() == 0 {
        public_key
    } else {
        public_key + seq!['.'] + link_name
    }
}

/// The URL of an entity, with the method that is invoked on it where there is one.
pub open spec fn url_text(entity: WasmCloudEntity, method: Option<Seq<char>>) -> Seq<char> {
    let target = "wrpc://"@ + entity.contract_id@ + "/"@ + entity.link_name@ + "/"@
        + entity.public_key@;
    match method {
        Some(m) => target + "/"@ + m,
        None => target,
    }
}

/// Generates a fully qualified wasmbus URL for use in wascap claims. The optional method
/// parameter is used for generating URLs for targets being invoked.
pub fn url(entity: &WasmCloudEntity, method: Option<&str>) -> (text: String)
    ensures
        text@ == url_text(*entity, method.deep_view()),
{
    let mut text = String::from_str("wrpc://");
    text.append(entity.contract_id.as_str());
    text.append("/");
    text.append(entity.link_name.as_str());
    text.append("/");
    text.append(entity.public_key.as_str());
    if let Some(m) = method {
        text.append("/");
        text.append(m);
    }
    text
}

/// The subject of a target is made of the lattice, the target's public key and, where it has
/// one, its link name, in this order.
pub proof fn law_subject_names_its_target(
    public_key: Seq<char>,
    link_name: Seq<char>,
    lattice: Seq<char>,
)
    ensures
        link_name.len() == 0 ==> rpc_topic_text(public_key, link_name, lattice)
            == "wasmbus.rpc."@ + lattice + "."@ + public_key,
        link_name.len() > 0 ==> rpc_topic_text(public_key, link_name, lattice)
            == "wasmbus.rpc."@ + lattice + "."@ + public_key + "."@ + link_name,
{
}

/// The URL of an entity is made of its contract, its link name and its public key, in this
/// order; the URL for a method is that of the entity, a slash and the method.
pub proof fn law_url_names_its_entity(entity: WasmCloudEntity, method: Seq<char>)
    ensures
        url_text(entity, None) == "wrpc://"@ + entity.contract_id@ + "/"@ + entity.link_name@
            + "/"@ + entity.public_key@,
        url_text(entity, Some(method)) == url_text(entity, None) + "/"@ + method,
{
}

} // verus!
