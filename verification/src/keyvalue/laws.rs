//! What holds of the key-value provider as a whole.

use crate::keyvalue::connection::{
    setting, setting_values, ConfigError, ConnectionConfigView, DEFAULT_NATS_URI,
    SETTING_CLIENT_JWT, SETTING_CLIENT_SEED, SETTING_URI,
};
use crate::keyvalue::nkey::seed_error;
use crate::keyvalue::provider::{
    config_seed_error, config_text, connect_error_text, connection_for, link_config,
    link_connection, link_view, plan_view, ConnectError, ConnectErrorView, ConnectPlan,
    ConnectPlanView, LinkDenied, LinkDeniedView, NatsKeyvalueProviderView, CLIENT_NAME,
};
use crate::keyvalue::store::{
    get_answer, law_read_gives_back_written, Buckets, GetResponseView,
};
use crate::lattice::HostData;
use crate::provider_sdk::context::Context;
use crate::text::is_white_space;
use vstd::prelude::*;
use vstd::utf8::encode_utf8;

verus! {

/// Where both configurations speak of something, the second is heard, and where it is silent,
/// the first: merging with a silent configuration, on either side, changes nothing.
pub proof fn law_merge_prefers_the_second(one: ConnectionConfigView, two: ConnectionConfigView)
    ensures
        two.cluster_uris.len() > 0 ==> one.merged(two).cluster_uris == two.cluster_uris,
        two.auth_jwt is Some ==> one.merged(two).auth_jwt == two.auth_jwt,
        two.auth_seed is Some ==> one.merged(two).auth_seed == two.auth_seed,
        two.ping_interval_sec is Some ==> one.merged(two).ping_interval_sec
            == two.ping_interval_sec,
        two.cluster_uris.len() == 0 ==> one.merged(two).cluster_uris == one.cluster_uris,
        two.auth_jwt is None ==> one.merged(two).auth_jwt == one.auth_jwt,
        two.auth_seed is None ==> one.merged(two).auth_seed == one.auth_seed,
        two.ping_interval_sec is None ==> one.merged(two).ping_interval_sec
            == one.ping_interval_sec,
        one.merged(ConnectionConfigView::silent()) == one,
        ConnectionConfigView::silent().merged(two) == two,
{
    assert(ConnectionConfigView::silent().merged(two) =~= two);
}

/// Merging is associative, and merging a configuration with itself changes nothing.
pub proof fn law_merge_is_associative(
    one: ConnectionConfigView,
    two: ConnectionConfigView,
    three: ConnectionConfigView,
)
    ensures
        one.merged(two).merged(three) == one.merged(two.merged(three)),
        one.merged(one) == one,
{
}

/// Of a setting that is given more than once, either the last value counts or, where it is a
/// list, all do, in order. Settings of other names do not count.
pub proof fn law_repeated_settings(
    values: Seq<(Seq<char>, Seq<char>)>,
    name: Seq<char>,
    value: Seq<char>,
    other: Seq<char>,
)
    ensures
        setting(Seq::<(Seq<char>, Seq<char>)>::empty(), name) is None,
        setting_values(Seq::<(Seq<char>, Seq<char>)>::empty(), name).len() == 0,
        setting(values.push((name, value)), name) == Some(value),
        other != name ==> setting(values.push((name, value)), other) == setting(values, other),
        setting_values(values.push((name, value)), name) == setting_values(values, name).push(
            value,
        ),
        other != name ==> setting_values(values.push((name, value)), other) == setting_values(
            values,
            other,
        ),
{
    assert(values.push((name, value)).drop_last() == values);
}

/// Without settings a link gets the default configuration. With settings it gets the servers
/// they name, and if they name none, the standard one; it connects to the first.
pub proof fn law_link_has_a_server(
    default_config: ConnectionConfigView,
    values: Seq<(Seq<char>, Seq<char>)>,
)
    ensures
        values.len() == 0 ==> link_config(default_config, values) == Ok::<
            ConnectionConfigView,
            ConfigError,
        >(default_config),
        values.len() > 0 ==> (link_config(default_config, values) matches Ok(config) ==> {
            let named = setting_values(values, SETTING_URI@);
            config.cluster_uris == if named.len() > 0 {
                named
            } else {
                seq![DEFAULT_NATS_URI@]
            }
        }),
        values.len() > 0 ==> (link_connection(default_config, values) matches Ok(plan) ==> {
            let named = setting_values(values, SETTING_URI@);
            plan.url == Some(
                if named.len() > 0 {
                    named[0]
                } else {
                    DEFAULT_NATS_URI@
                },
            )
        }),
{
}

/// JWT authentication takes both the JWT and the seed. Settings that give one without the other
/// are refused; a connection authenticates only with a JWT and a seed that its configuration
/// gives, and only where the seed stands for a key pair.
pub proof fn law_jwt_takes_both(
    default_config: ConnectionConfigView,
    values: Seq<(Seq<char>, Seq<char>)>,
    cfg: ConnectionConfigView,
    seed_check: Option<Seq<char>>,
)
    ensures
        values.len() > 0 && (setting(values, SETTING_CLIENT_JWT@) is Some) != (setting(
            values,
            SETTING_CLIENT_SEED@,
        ) is Some) ==> link_connection(default_config, values) == Err::<ConnectPlanView, LinkDeniedView>(
            LinkDeniedView::Config(ConfigError::IncompleteAuth),
        ),
        connection_for(cfg, seed_check) is Ok ==> cfg.auth_complete(),
        connection_for(cfg, seed_check) matches Ok(plan) ==> match plan.auth {
            Some((jwt, seed)) => cfg.auth_jwt == Some(jwt) && cfg.auth_seed == Some(seed)
                && seed_check is None,
            None => cfg.auth_jwt is None && cfg.auth_seed is None,
        },
{
}

/// A linked actor is served from the store that was opened for its latest link, and from no
/// other; the stores of other actors stay.
pub proof fn law_actor_has_its_own_store<S>(
    provider: NatsKeyvalueProviderView<S>,
    actor: Seq<char>,
    store: S,
    ctx: Context,
)
    requires
        ctx.actor is Some,
    ensures
        ctx.actor->Some_0@ == actor ==> provider.with_store(actor, store).store_of(ctx) == Some(
            store,
        ),
        ctx.actor->Some_0@ != actor ==> provider.with_store(actor, store).store_of(ctx)
            == provider.store_of(ctx),
{
}

/// A provider handles a duplicate of a link: the store that was opened last takes the place of
/// the one before, and a duplicate with the same store changes nothing.
pub proof fn law_link_may_be_repeated<S>(
    provider: NatsKeyvalueProviderView<S>,
    actor: Seq<char>,
    one: S,
    two: S,
)
    ensures
        provider.with_store(actor, one).with_store(actor, two) == provider.with_store(actor, two),
        provider.with_store(actor, one).with_store(actor, one) == provider.with_store(actor, one),
{
    assert(provider.with_store(actor, one).with_store(actor, two).actors == provider.with_store(
        actor,
        two,
    ).actors);
    assert(provider.with_store(actor, one).with_store(actor, one).actors == provider.with_store(
        actor,
        one,
    ).actors);
}

/// An actor whose link was dropped has no store, and the stores of other actors stay. Dropping
/// a link again changes nothing, and dropping one that was made anew restores what was before.
pub proof fn law_dropped_link_leaves_no_store<S>(
    provider: NatsKeyvalueProviderView<S>,
    actor: Seq<char>,
    store: S,
    ctx: Context,
)
    requires
        ctx.actor is Some,
    ensures
        ctx.actor->Some_0@ == actor ==> provider.without_store(actor).store_of(ctx) is None,
        ctx.actor->Some_0@ != actor ==> provider.without_store(actor).store_of(ctx)
            == provider.store_of(ctx),
        provider.without_store(actor).without_store(actor) == provider.without_store(actor),
        !provider.actors.contains_key(actor) ==> provider.with_store(actor, store).without_store(
            actor,
        ) == provider,
{
    assert(provider.without_store(actor).without_store(actor).actors == provider.without_store(
        actor,
    ).actors);
    if !provider.actors.contains_key(actor) {
        assert(provider.with_store(actor, store).without_store(actor).actors == provider.actors);
    }
}

/// At any time each actor has the store of its own bucket, if each link is completed with the
/// store of the bucket that bears the actor's name: a fresh provider begins so, and completing
/// and dropping links keep it so. Two actors then have two buckets.
pub proof fn law_actors_have_their_own_buckets<S>(
    provider: NatsKeyvalueProviderView<S>,
    bucket_of: spec_fn(S) -> Seq<char>,
    default_config: ConnectionConfigView,
    actor: Seq<char>,
    store: S,
    one: Context,
    two: Context,
)
    requires
        provider.own_buckets(bucket_of),
    ensures
        NatsKeyvalueProviderView::<S>::fresh(default_config).own_buckets(bucket_of),
        bucket_of(store) == actor ==> provider.with_store(actor, store).own_buckets(bucket_of),
        provider.without_store(actor).own_buckets(bucket_of),
        provider.store_of(one) is Some && provider.store_of(two) is Some && one.actor->Some_0@
            != two.actor->Some_0@ ==> bucket_of(provider.store_of(one)->Some_0) != bucket_of(
            provider.store_of(two)->Some_0,
        ),
{
}

/// What an actor writes or deletes is seen by that actor alone, and under that key alone: the
/// actor reads back what it wrote, be it a value that was set or the text of an incremented
/// number, and nothing once it has deleted it, while a read by another actor, or of another key,
/// is answered as before.
pub proof fn law_actors_do_not_share_values<S>(
    provider: NatsKeyvalueProviderView<S>,
    bucket_of: spec_fn(S) -> Seq<char>,
    buckets: Buckets,
    writer: Context,
    key: Seq<char>,
    value: Seq<char>,
    reader: Context,
    read_key: Seq<char>,
)
    requires
        provider.own_buckets(bucket_of),
        provider.store_of(writer) is Some,
        provider.store_of(reader) is Some,
    ensures
        ({
            let written = bucket_of(provider.store_of(writer)->Some_0);
            let read = bucket_of(provider.store_of(reader)->Some_0);
            let stored = buckets.with_entry(written, key, encode_utf8(value));
            let deleted = buckets.without_entry(written, key);
            if reader.actor->Some_0@ == writer.actor->Some_0@ && read_key == key {
                &&& get_answer(stored.entry(read, read_key)) == (GetResponseView {
                    value,
                    exists: true,
                })
                &&& get_answer(deleted.entry(read, read_key)) == GetResponseView::missing()
            } else {
                let before = get_answer(buckets.entry(read, read_key));
                &&& get_answer(stored.entry(read, read_key)) == before
                &&& get_answer(deleted.entry(read, read_key)) == before
            }
        }),
{
    law_read_gives_back_written(value);
}

/// Once the provider is shut down no actor has a store.
pub proof fn law_shutdown_closes_every_store<S>(default_config: ConnectionConfigView, ctx: Context)
    ensures
        NatsKeyvalueProviderView::<S>::fresh(default_config).store_of(ctx) is None,
{
}

/// Whether a key has a value and what a read answers agree.
pub proof fn law_contains_agrees_with_get(bytes: Option<Seq<u8>>)
    ensures
        get_answer(bytes).exists == (bytes is Some),
        !get_answer(bytes).exists ==> get_answer(bytes).value.len() == 0,
{
}

/// A link that gives both the JWT and the seed connects with exactly these, whatever else it
/// gives and whatever the default configuration has, unless the seed stands for no key pair;
/// then it is denied with the reason. A link that gives neither keeps the credentials of the
/// default configuration.
pub proof fn law_link_connects_with_its_credentials(
    default_config: ConnectionConfigView,
    values: Seq<(Seq<char>, Seq<char>)>,
    jwt: Seq<char>,
    seed: Seq<char>,
)
    requires
        values.len() > 0,
    ensures
        setting(values, SETTING_CLIENT_JWT@) == Some(jwt) && setting(values, SETTING_CLIENT_SEED@)
            == Some(seed) ==> {
            &&& link_config(default_config, values) matches Ok(config)
            &&& config.auth_jwt == Some(jwt)
            &&& config.auth_seed == Some(seed)
            &&& config.ping_interval_sec == default_config.ping_interval_sec
            &&& seed_error(seed) is None ==> (link_connection(default_config, values) matches Ok(
                plan,
            ) && plan.auth == Some((jwt, seed)))
            &&& seed_error(seed) matches Some(reason) ==> link_connection(default_config, values)
                == Err::<ConnectPlanView, LinkDeniedView>(
                LinkDeniedView::Connect(ConnectErrorView::InvalidSeed(reason)),
            )
        },
        setting(values, SETTING_CLIENT_JWT@) is None && setting(values, SETTING_CLIENT_SEED@)
            is None ==> {
            &&& link_config(default_config, values) matches Ok(config)
            &&& config.auth_jwt == default_config.auth_jwt
            &&& config.auth_seed == default_config.auth_seed
            &&& config.ping_interval_sec == default_config.ping_interval_sec
            &&& link_connection(default_config, values) matches Ok(plan) ==> match plan.auth {
                Some((j, s)) => default_config.auth_jwt == Some(j) && default_config.auth_seed
                    == Some(s),
                None => default_config.auth_jwt is None && default_config.auth_seed is None,
            }
        },
{
}

/// A further server among the settings changes nothing about the credentials of a link: it is
/// made or denied as before, with the same JWT and seed.
pub proof fn law_servers_do_not_touch_credentials(
    default_config: ConnectionConfigView,
    values: Seq<(Seq<char>, Seq<char>)>,
    uri: Seq<char>,
)
    requires
        values.len() > 0,
    ensures
        ({
            let before = link_connection(default_config, values);
            let after = link_connection(default_config, values.push((SETTING_URI@, uri)));
            &&& before is Ok <==> after is Ok
            &&& before is Ok ==> before->Ok_0.auth == after->Ok_0.auth
            &&& before is Err ==> before == after
        }),
{
    reveal_strlit("URI");
    reveal_strlit("CLIENT_JWT");
    reveal_strlit("CLIENT_SEED");
    law_repeated_settings(values, SETTING_URI@, uri, SETTING_CLIENT_JWT@);
    law_repeated_settings(values, SETTING_URI@, uri, SETTING_CLIENT_SEED@);
    assert(SETTING_URI@.len() != SETTING_CLIENT_JWT@.len());
    assert(SETTING_URI@.len() != SETTING_CLIENT_SEED@.len());
}

/// A connection goes to the first server of its configuration, under the provider's name. It
/// authenticates with the JWT and the seed if the configuration has both, and not at all if it
/// has neither; one without the other, and a seed that stands for no key pair, are refused.
pub proof fn law_connection_follows_its_configuration(
    cfg: ConnectionConfigView,
    seed_check: Option<Seq<char>>,
)
    ensures
        (cfg.auth_jwt is Some) != (cfg.auth_seed is Some) ==> connection_for(cfg, seed_check)
            == Err::<ConnectPlanView, ConnectErrorView>(ConnectErrorView::IncompleteAuth),
        cfg.auth_jwt is Some && cfg.auth_seed is Some && seed_check is Some ==> connection_for(
            cfg,
            seed_check,
        ) == Err::<ConnectPlanView, ConnectErrorView>(
            ConnectErrorView::InvalidSeed(seed_check->Some_0),
        ),
        cfg.auth_jwt is Some && cfg.auth_seed is Some && seed_check is None ==> (connection_for(
            cfg,
            seed_check,
        ) matches Ok(plan) && plan.auth == Some((cfg.auth_jwt->Some_0, cfg.auth_seed->Some_0))),
        cfg.auth_jwt is None && cfg.auth_seed is None ==> (connection_for(cfg, seed_check)
            matches Ok(plan) && plan.auth is None),
        connection_for(cfg, seed_check) matches Ok(plan) ==> {
            &&& plan.name == CLIENT_NAME@
            &&& cfg.cluster_uris.len() > 0 ==> plan.url == Some(cfg.cluster_uris[0])
            &&& cfg.cluster_uris.len() == 0 ==> plan.url is None
        },
        cfg.auth_seed is Some ==> config_seed_error(cfg) == seed_error(cfg.auth_seed->Some_0),
{
}

/// A link without settings gets the connection of the default configuration, and a link with
/// settings that of the default configuration merged with theirs: what the settings say stands,
/// and of the default configuration what they do not speak of.
pub proof fn law_link_connects_as_configured(
    default_config: ConnectionConfigView,
    values: Seq<(Seq<char>, Seq<char>)>,
)
    ensures
        link_config(default_config, values) matches Ok(cfg) ==> match connection_for(
            cfg,
            config_seed_error(cfg),
        ) {
            Ok(plan) => link_connection(default_config, values) == Ok::<
                ConnectPlanView,
                LinkDeniedView,
            >(plan),
            Err(error) => link_connection(default_config, values) == Err::<
                ConnectPlanView,
                LinkDeniedView,
            >(LinkDeniedView::Connect(error)),
        },
        link_config(default_config, values) matches Err(error) ==> link_connection(
            default_config,
            values,
        ) == Err::<ConnectPlanView, LinkDeniedView>(LinkDeniedView::Config(error)),
        values.len() == 0 ==> link_config(default_config, values) == Ok::<
            ConnectionConfigView,
            ConfigError,
        >(default_config),
        values.len() > 0 ==> (link_config(default_config, values) is Ok <==> (setting(
            values,
            SETTING_CLIENT_JWT@,
        ) is Some <==> setting(values, SETTING_CLIENT_SEED@) is Some)),
{
}

/// A plan, and the reason why there is none, say what their fields hold.
pub proof fn law_plan_says_what_it_holds(
    plan: ConnectPlan,
    error: ConnectError,
    reason: String,
    config_error: ConfigError,
)
    ensures
        plan_view(Ok(plan)) == Ok::<ConnectPlanView, ConnectErrorView>(plan@),
        plan_view(Err(error)) == Err::<ConnectPlanView, ConnectErrorView>(error@),
        link_view(Ok(plan)) == Ok::<ConnectPlanView, LinkDeniedView>(plan@),
        link_view(Err(LinkDenied::Config(config_error))) == Err::<ConnectPlanView, LinkDeniedView>(
            LinkDeniedView::Config(config_error),
        ),
        link_view(Err(LinkDenied::Connect(error))) == Err::<ConnectPlanView, LinkDeniedView>(
            LinkDeniedView::Connect(error@),
        ),
        ConnectError::IncompleteAuth@ == ConnectErrorView::IncompleteAuth,
        ConnectError::InvalidSeed(reason)@ == ConnectErrorView::InvalidSeed(reason@),
        connect_error_text(ConnectErrorView::InvalidSeed(reason@)) == reason@,
        plan@.name == plan.name@,
        plan@.url == plan.url.deep_view(),
        match plan.auth {
            Some((jwt, seed)) => plan@.auth == Some((jwt@, seed@)),
            None => plan@.auth is None,
        },
{
}

/// A configuration text with any character that is not white space, wherever it stands, is read
/// whole; only a text that is absent, or white space throughout, is not read.
pub proof fn law_configuration_text_is_read_whole(host_data: HostData, i: int)
    ensures
        host_data.config_json is None ==> config_text(host_data) is None,
        host_data.config_json matches Some(text) ==> {
            &&& 0 <= i < text@.len() && !is_white_space(text@[i]) ==> config_text(host_data)
                == Some(text@)
            &&& (forall|j: int| 0 <= j < text@.len() ==> is_white_space(#[trigger] text@[j]))
                ==> config_text(host_data) is None
        },
{
}

/// White space before or after a configuration text does not decide whether it is read: a text
/// that is read without it is read with it.
pub proof fn law_white_space_does_not_hide_a_configuration(
    plain: HostData,
    padded: HostData,
    before: Seq<char>,
    after: Seq<char>,
)
    requires
        plain.config_json is Some,
        padded.config_json is Some,
        padded.config_json->Some_0@ == before + plain.config_json->Some_0@ + after,
        config_text(plain) is Some,
    ensures
        config_text(padded) == Some(padded.config_json->Some_0@),
{
    let text = plain.config_json->Some_0@;
    let whole = padded.config_json->Some_0@;
    let i = choose|i: int| 0 <= i < text.len() && !is_white_space(#[trigger] text[i]);
    assert(whole[before.len() + i] == text[i]);
}

/// The store that serves a call is the one that the provider has for the calling actor, and
/// there is none where it has none. Links change stores alone, never the configuration.
pub proof fn law_call_is_served_from_the_actors_store<S>(
    provider: NatsKeyvalueProviderView<S>,
    default_config: ConnectionConfigView,
    ctx: Context,
    actor: Seq<char>,
    store: S,
)
    ensures
        ctx.actor is None ==> provider.store_of(ctx) is None,
        ctx.actor matches Some(a) ==> {
            &&& provider.actors.contains_key(a@) ==> provider.store_of(ctx) == Some(
                provider.actors[a@],
            )
            &&& !provider.actors.contains_key(a@) ==> provider.store_of(ctx) is None
        },
        provider.with_store(actor, store).actors == provider.actors.insert(actor, store),
        provider.without_store(actor).actors == provider.actors.remove(actor),
        provider.with_store(actor, store).default_config == provider.default_config,
        provider.without_store(actor).default_config == provider.default_config,
        NatsKeyvalueProviderView::<S>::fresh(default_config).default_config == default_config,
        !NatsKeyvalueProviderView::<S>::fresh(default_config).actors.contains_key(actor),
{
}

} // verus!
