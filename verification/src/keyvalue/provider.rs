//! The provider: which actors have a store, and how each request is met.

use crate::keyvalue::connection::{
    config_of_settings, setting, ConfigError, ConnectionConfig, ConnectionConfigView,
    DEFAULT_NATS_URI, SETTING_CLIENT_JWT, SETTING_CLIENT_SEED,
};
use crate::keyvalue::nkey::{check_seed, seed_error};
use crate::keyvalue::store::{
    stored_bytes, GetResponse, GetResponseView, ListAddRequest, ListDelRequest, ListRangeRequest,
    PutEntry, SetAddRequest, SetDelRequest, SetRequest,
};
use crate::lattice::{HostData, LinkDefinition};
use crate::provider_sdk::context::Context;
use crate::text::{is_blank, is_blank_text, is_white_space};
use vstd::hash_map::StringHashMap;
use vstd::prelude::*;
use vstd::utf8::encode_utf8;

verus! {

/// The name under which the provider shows up in a list of NATS connections.
pub const CLIENT_NAME: &'static str = "NATS Keyvalue Provider";

/// A connection that is to be made.
#[derive(Debug, PartialEq, Eq)]
pub struct ConnectPlan {
    /// The JWT and the seed to authenticate with, where there are any.
    pub auth: Option<(String, String)>,
    /// The server, or `None` where the configuration names none.
    pub url: Option<String>,
    pub name: &'static str,
}

/// What a [`ConnectPlan`] says.
#[verifier::ext_equal]
pub struct ConnectPlanView {
    pub auth: Option<(Seq<char>, Seq<char>)>,
    pub url: Option<Seq<char>>,
    pub name: Seq<char>,
}

impl View for ConnectPlan {
    type V = ConnectPlanView;

    open spec fn view(&self) -> ConnectPlanView {
        ConnectPlanView {
            auth: self.auth.deep_view(),
            url: self.url.deep_view(),
            name: self.name@,
        }
    }
}

/// Why a connection cannot be made.
#[derive(Debug, PartialEq, Eq)]
pub enum ConnectError {
    /// Of the JWT and the seed, one is given without the other.
    IncompleteAuth,
    /// The seed stands for no key pair, for this reason.
    InvalidSeed(String),
}

/// What a [`ConnectError`] says.
#[verifier::ext_equal]
pub enum ConnectErrorView {
    IncompleteAuth,
    InvalidSeed(Seq<char>),
}

impl View for ConnectError {
    type V = ConnectErrorView;

    open spec fn view(&self) -> ConnectErrorView {
        match *self {
            ConnectError::IncompleteAuth => ConnectErrorView::IncompleteAuth,
            ConnectError::InvalidSeed(reason) => ConnectErrorView::InvalidSeed(reason@),
        }
    }
}

/// The words that a [`ConnectError`] is reported in.
pub open spec fn connect_error_text(error: ConnectErrorView) -> Seq<char> {
    match error {
        ConnectErrorView::IncompleteAuth =>
            "must provide both jwt and seed for jwt authentication"@,
        ConnectErrorView::InvalidSeed(reason) => reason,
    }
}

impl ConnectError {
    /// The error in words.
    pub fn message(&self) -> (text: String)
        ensures
            text@ == connect_error_text(self@),
            text@ == match *self {
                ConnectError::IncompleteAuth =>
                    "must provide both jwt and seed for jwt authentication"@,
                ConnectError::InvalidSeed(reason) => reason@,
            },
    {
        match self {
            ConnectError::IncompleteAuth => String::from_str(
                "must provide both jwt and seed for jwt authentication",
            ),
            ConnectError::InvalidSeed(reason) => reason.clone(),
        }
    }
}

/// Why a link is denied.
#[derive(Debug, PartialEq, Eq)]
pub enum LinkDenied {
    /// Its settings do not make up a configuration.
    Config(ConfigError),
    /// No connection can be made with its configuration.
    Connect(ConnectError),
}

/// What a [`LinkDenied`] says.
#[verifier::ext_equal]
pub enum LinkDeniedView {
    Config(ConfigError),
    Connect(ConnectErrorView),
}

impl View for LinkDenied {
    type V = LinkDeniedView;

    open spec fn view(&self) -> LinkDeniedView {
        match *self {
            LinkDenied::Config(error) => LinkDeniedView::Config(error),
            LinkDenied::Connect(error) => LinkDeniedView::Connect(error@),
        }
    }
}

/// The server that a configuration connects to: the first it names.
pub open spec fn first_uri(uris: Seq<Seq<char>>) -> Option<Seq<char>> {
    if uris.len() > 0 {
        Some(uris[0])
    } else {
        None
    }
}

/// The connection that a configuration asks for. `seed_check` is the error that its seed has,
/// which counts only where there is a JWT too.
pub open spec fn connection_for(
    cfg: ConnectionConfigView,
    seed_check: Option<Seq<char>>,
) -> Result<ConnectPlanView, ConnectErrorView> {
    let url = first_uri(cfg.cluster_uris);
    match (cfg.auth_jwt, cfg.auth_seed) {
        (Some(jwt), Some(seed)) => match seed_check {
            Some(reason) => Err(ConnectErrorView::InvalidSeed(reason)),
            None => Ok(
                ConnectPlanView { auth: Some((jwt, seed)), url, name: CLIENT_NAME@ },
            ),
        },
        (None, None) => Ok(ConnectPlanView { auth: None, url, name: CLIENT_NAME@ }),
        _ => Err(ConnectErrorView::IncompleteAuth),
    }
}

/// The error of a configuration's seed.
pub open spec fn config_seed_error(cfg: ConnectionConfigView) -> Option<Seq<char>> {
    match cfg.auth_seed {
        Some(seed) => seed_error(seed),
        None => None,
    }
}

/// The configuration for a link: the default one, with the link's settings, where it has any,
/// taking precedence.
pub open spec fn link_config(
    default_config: ConnectionConfigView,
    values: Seq<(Seq<char>, Seq<char>)>,
) -> Result<ConnectionConfigView, ConfigError> {
    if values.len() == 0 {
        Ok(default_config)
    } else {
        match config_of_settings(values) {
            Ok(config) => Ok(default_config.merged(config)),
            Err(error) => Err(error),
        }
    }
}

/// The connection that a link asks for.
pub open spec fn link_connection(
    default_config: ConnectionConfigView,
    values: Seq<(Seq<char>, Seq<char>)>,
) -> Result<ConnectPlanView, LinkDeniedView> {
    match link_config(default_config, values) {
        Err(error) => Err(LinkDeniedView::Config(error)),
        Ok(cfg) => match connection_for(cfg, config_seed_error(cfg)) {
            Err(error) => Err(LinkDeniedView::Connect(error)),
            Ok(plan) => Ok(plan),
        },
    }
}

/// A plan or an error, taken as what it says.
pub open spec fn plan_view(outcome: Result<ConnectPlan, ConnectError>) -> Result<
    ConnectPlanView,
    ConnectErrorView,
> {
    match outcome {
        Ok(plan) => Ok(plan@),
        Err(error) => Err(error@),
    }
}

/// A link's plan or the reason for its denial, taken as what it says.
pub open spec fn link_view(outcome: Result<ConnectPlan, LinkDenied>) -> Result<
    ConnectPlanView,
    LinkDeniedView,
> {
    match outcome {
        Ok(plan) => Ok(plan@),
        Err(denied) => Err(denied@),
    }
}

/// Plans the connection that a configuration asks for, once its seed has been checked.
/// `seed_check` is the error that the seed has; it counts only where there is a JWT too.
pub fn plan_connection(cfg: ConnectionConfig, seed_check: Option<String>) -> (outcome: Result<
    ConnectPlan,
    ConnectError,
>)
    ensures
        plan_view(outcome) == connection_for(cfg@, seed_check.deep_view()),
        cfg.auth_jwt is Some && cfg.auth_seed is Some ==> match seed_check {
            None => outcome matches Ok(plan) && plan.auth == Some(
                (cfg.auth_jwt->Some_0, cfg.auth_seed->Some_0),
            ),
            Some(why) => outcome matches Err(ConnectError::InvalidSeed(reason)) && reason == why,
        },
        cfg.auth_jwt is None && cfg.auth_seed is None ==> (outcome matches Ok(plan) && plan.auth
            is None),
        (cfg.auth_jwt is Some) != (cfg.auth_seed is Some) ==> outcome matches Err(
            ConnectError::IncompleteAuth,
        ),
        outcome matches Ok(plan) ==> {
            &&& plan.name@ == CLIENT_NAME@
            &&& cfg.cluster_uris@.len() == 0 ==> plan.url is None
            &&& cfg.cluster_uris@.len() > 0 ==> (plan.url matches Some(url) && url@
                == cfg.cluster_uris@[0]@)
        },
{
    let url = match cfg.cluster_uris.as_slice().first() {
        Some(uri) => Some(uri.clone()),
        None => None,
    };
    match (cfg.auth_jwt, cfg.auth_seed) {
        (Some(jwt), Some(seed)) => match seed_check {
            Some(reason) => Err(ConnectError::InvalidSeed(reason)),
            None => Ok(ConnectPlan { auth: Some((jwt, seed)), url, name: CLIENT_NAME }),
        },
        (None, None) => Ok(ConnectPlan { auth: None, url, name: CLIENT_NAME }),
        _ => Err(ConnectError::IncompleteAuth),
    }
}

/// NATS implementation for wasmcloud:keyvalue. `S` is the handle of an actor's store.
#[verifier::reject_recursive_types(S)]
pub struct NatsKeyvalueProvider<S> {
    actors: StringHashMap<S>,
    default_config: ConnectionConfig,
}

/// What a [`NatsKeyvalueProvider`] holds.
#[verifier::ext_equal]
#[verifier::reject_recursive_types(S)]
pub struct NatsKeyvalueProviderView<S> {
    /// The store of each linked actor.
    pub actors: Map<Seq<char>, S>,
    pub default_config: ConnectionConfigView,
}

impl<S> View for NatsKeyvalueProvider<S> {
    type V = NatsKeyvalueProviderView<S>;

    closed spec fn view(&self) -> NatsKeyvalueProviderView<S> {
        NatsKeyvalueProviderView {
            actors: self.actors@,
            default_config: self.default_config@,
        }
    }
}

impl<S> NatsKeyvalueProviderView<S> {
    /// The provider without links.
    pub open spec fn fresh(default_config: ConnectionConfigView) -> NatsKeyvalueProviderView<S> {
        NatsKeyvalueProviderView { actors: Map::empty(), default_config }
    }

    /// The provider once `store` was opened for the actor.
    pub open spec fn with_store(self, actor: Seq<char>, store: S) -> NatsKeyvalueProviderView<S> {
        NatsKeyvalueProviderView { actors: self.actors.insert(actor, store), ..self }
    }

    /// The provider once the actor's store is gone.
    pub open spec fn without_store(self, actor: Seq<char>) -> NatsKeyvalueProviderView<S> {
        NatsKeyvalueProviderView { actors: self.actors.remove(actor), ..self }
    }

    /// Each actor's store is that of the bucket which bears the actor's name. `bucket_of` tells
    /// which bucket a store is that of.
    pub open spec fn own_buckets(self, bucket_of: spec_fn(S) -> Seq<char>) -> bool {
        forall|actor: Seq<char>| #[trigger]
            self.actors.contains_key(actor) ==> bucket_of(self.actors[actor]) == actor
    }

    /// The store of the actor in whose name a call is made.
    pub open spec fn store_of(self, ctx: Context) -> Option<S> {
        if ctx.actor is Some && self.actors.contains_key(ctx.actor->Some_0@) {
            Some(self.actors[ctx.actor->Some_0@])
        } else {
            None
        }
    }
}

/// The text that the provider's configuration is read from: what the host was given, unless
/// that is blank.
pub open spec fn config_text(host_data: HostData) -> Option<Seq<char>> {
    match host_data.config_json {
        Some(text) => if is_blank_text(text@) {
            None
        } else {
            Some(text@)
        },
        None => None,
    }
}

/// There is no store for the actor.
#[derive(Debug, Clone, Copy, PartialEq, Eq, Structural)]
pub struct NoStore {}

impl NoStore {
    /// The error in words.
    pub fn message(self) -> (text: &'static str)
        ensures
            text@ == "Failed to get KV Store for actor"@,
    {
        "Failed to get KV Store for actor"
    }
}

/// How a request that reads from a store begins.
pub enum Lookup<'a, S, A> {
    /// Read `key` from `store`, and go on with its reply.
    Fetch { store: &'a S, key: String },
    /// The answer, as the actor has no store.
    Answer(A),
}

impl<S> Default for NatsKeyvalueProvider<S> {
    fn default() -> (provider: Self)
        ensures
            provider@ == NatsKeyvalueProviderView::<S>::fresh(ConnectionConfigView::standard()),
    {
        NatsKeyvalueProvider {
            actors: StringHashMap::new(),
            default_config: ConnectionConfig::default(),
        }
    }
}

impl<S> NatsKeyvalueProvider<S> {
    /// Builds a provider from [`HostData`]. `parse` reads a configuration from its JSON; it is
    /// asked unless there is no text or a blank one, which becomes the default configuration.
    pub fn from_host_data<F: FnOnce(&str) -> ConnectionConfig>(
        host_data: &HostData,
        parse: F,
    ) -> (provider: NatsKeyvalueProvider<S>)
        requires
            forall|text: &str|
                config_text(*host_data) == Some(text@) ==> #[trigger] parse.requires((text,)),
        ensures
            match config_text(*host_data) {
                Some(json) => exists|text: &str, config: ConnectionConfig|
                    {
                        &&& text@ == json
                        &&& #[trigger] parse.ensures((text,), config)
                        &&& provider@ == NatsKeyvalueProviderView::<S>::fresh(config@)
                    },
                None => provider@ == NatsKeyvalueProviderView::<S>::fresh(
                    ConnectionConfigView::standard(),
                ),
            },
            forall|actor: Seq<char>| !provider@.actors.contains_key(actor),
            match host_data.config_json {
                Some(json) => {
                    &&& (exists|i: int|
                        0 <= i < json@.len() && !is_white_space(#[trigger] json@[i])) ==> exists|
                        text: &str,
                        config: ConnectionConfig,
                    |
                        {
                            &&& text@ == json@
                            &&& #[trigger] parse.ensures((text,), config)
                            &&& provider@.default_config == config@
                        }
                    &&& (forall|i: int|
                        0 <= i < json@.len() ==> is_white_space(#[trigger] json@[i])) ==> {
                        &&& provider@.default_config.cluster_uris == seq![DEFAULT_NATS_URI@]
                        &&& provider@.default_config.auth_jwt is None
                        &&& provider@.default_config.auth_seed is None
                        &&& provider@.default_config.ping_interval_sec is None
                    }
                },
                None => {
                    &&& provider@.default_config.cluster_uris == seq![DEFAULT_NATS_URI@]
                    &&& provider@.default_config.auth_jwt is None
                    &&& provider@.default_config.auth_seed is None
                    &&& provider@.default_config.ping_interval_sec is None
                },
            },
    {
        match &host_data.config_json {
            Some(text) => {
                let text = text.as_str();
                if is_blank(text) {
                    NatsKeyvalueProvider::default()
                } else {
                    NatsKeyvalueProvider {
                        actors: StringHashMap::new(),
                        default_config: parse(text),
                    }
                }
            },
            None => NatsKeyvalueProvider::default(),
        }
    }

    /// The store of the actor in whose name a call is made.
    pub fn get_store(&self, ctx: &Context) -> (found: Result<&S, NoStore>)
        requires
            ctx.actor is Some,
        ensures
            match found {
                Ok(store) => self@.store_of(*ctx) == Some(*store),
                Err(_) => self@.store_of(*ctx) is None,
            },
            match found {
                Ok(store) => self@.actors.contains_key(ctx.actor->Some_0@) && *store
                    == self@.actors[ctx.actor->Some_0@],
                Err(_) => !self@.actors.contains_key(ctx.actor->Some_0@),
            },
    {
        let actor_id = ctx.actor.as_ref().unwrap();
        match self.actors.get(actor_id.as_str()) {
            Some(store) => Ok(store),
            None => Err(NoStore {  }),
        }
    }

    /// Plans the connection that a configuration asks for, with JWT credentials, if provided.
    pub fn connect(&self, cfg: ConnectionConfig) -> (outcome: Result<ConnectPlan, ConnectError>)
        ensures
            plan_view(outcome) == connection_for(cfg@, config_seed_error(cfg@)),
            cfg.auth_jwt is Some && cfg.auth_seed is Some ==> match seed_error(
                cfg.auth_seed->Some_0@,
            ) {
                None => outcome matches Ok(plan) && plan.auth == Some(
                    (cfg.auth_jwt->Some_0, cfg.auth_seed->Some_0),
                ),
                Some(why) => outcome matches Err(ConnectError::InvalidSeed(reason)) && reason@
                    == why,
            },
            cfg.auth_jwt is None && cfg.auth_seed is None ==> (outcome matches Ok(plan)
                && plan.auth is None),
            (cfg.auth_jwt is Some) != (cfg.auth_seed is Some) ==> outcome matches Err(
                ConnectError::IncompleteAuth,
            ),
            outcome matches Ok(plan) ==> {
                &&& plan.name@ == CLIENT_NAME@
                &&& cfg.cluster_uris@.len() == 0 ==> plan.url is None
                &&& cfg.cluster_uris@.len() > 0 ==> (plan.url matches Some(url) && url@
                    == cfg.cluster_uris@[0]@)
            },
    {
        let seed_check = match (&cfg.auth_jwt, &cfg.auth_seed) {
            (Some(_), Some(seed)) => match check_seed(seed.as_str()) {
                Ok(_) => None,
                Err(reason) => Some(reason),
            },
            _ => None,
        };
        plan_connection(cfg, seed_check)
    }

    /// Decides on a new link: the connection that is to be made for it, or why it is denied.
    /// Where the connection was made, and the bucket of
    /// [`link_bucket`](NatsKeyvalueProvider::link_bucket) opened on it,
    /// [`link_connected`](NatsKeyvalueProvider::link_connected) completes the link.
    pub fn put_link(&self, ld: &LinkDefinition) -> (outcome: Result<ConnectPlan, LinkDenied>)
        ensures
            link_view(outcome) == link_connection(self@.default_config, ld@.values),
            ld.values@.len() > 0 ==> ({
                let jwt = setting(ld.values.deep_view(), SETTING_CLIENT_JWT@);
                let seed = setting(ld.values.deep_view(), SETTING_CLIENT_SEED@);
                &&& (jwt is Some) != (seed is Some) ==> (outcome matches Err(
                    LinkDenied::Config(ConfigError::IncompleteAuth),
                ))
                &&& jwt is Some && seed is Some ==> match seed_error(seed->Some_0) {
                    None => {
                        &&& outcome matches Ok(plan)
                        &&& plan.auth matches Some((used_jwt, used_seed))
                        &&& used_jwt@ == jwt->Some_0
                        &&& used_seed@ == seed->Some_0
                    },
                    Some(why) => (outcome matches Err(
                        LinkDenied::Connect(ConnectError::InvalidSeed(reason)),
                    ) && reason@ == why),
                }
            }),
    {
        // If the link definition values are empty, use the default connection configuration
        let config = if ld.values.is_empty() {
            self.default_config.clone()
        } else {
            // create a config from the supplied values and merge that with the existing default
            match ConnectionConfig::from_tuples(&ld.values) {
                Ok(cc) => self.default_config.merge(&cc),
                Err(error) => {
                    return Err(LinkDenied::Config(error));
                },
            }
        };
        match self.connect(config) {
            Ok(plan) => Ok(plan),
            Err(error) => Err(LinkDenied::Connect(error)),
        }
    }

    /// The bucket in which the values of a link's actor are kept. It bears the actor's name.
    pub fn link_bucket(&self, ld: &LinkDefinition) -> (bucket: String)
        ensures
            bucket@ == ld@.actor_id,
            bucket@ == ld.actor_id@,
    {
        ld.actor_id.clone()
    }

    /// Completes a link with the store of its bucket, or denies it where there is none: the
    /// connection failed, or the bucket could not be created.
    pub fn link_connected(&mut self, ld: &LinkDefinition, store: Option<S>) -> (allowed: bool)
        ensures
            allowed == (store is Some),
            final(self)@ == (match store {
                Some(s) => old(self)@.with_store(ld@.actor_id, s),
                None => old(self)@,
            }),
            final(self)@.default_config == old(self)@.default_config,
            store matches Some(s) ==> final(self)@.actors == old(self)@.actors.insert(
                ld.actor_id@,
                s,
            ),
            store is None ==> final(self)@.actors == old(self)@.actors,
    {
        match store {
            Some(s) => {
                self.actors.insert(ld.actor_id.clone(), s);
                true
            },
            None => false,
        }
    }

    /// Drops a link: the actor's store is removed, and with it the connection that it held.
    pub fn delete_link(&mut self, actor_id: &str)
        ensures
            final(self)@ == old(self)@.without_store(actor_id@),
            final(self)@.actors == old(self)@.actors.remove(actor_id@),
            final(self)@.default_config == old(self)@.default_config,
    {
        self.actors.remove(actor_id);
    }

    /// Closes all stores.
    pub fn shutdown(&mut self)
        ensures
            final(self)@ == NatsKeyvalueProviderView::<S>::fresh(old(self)@.default_config),
            forall|actor: Seq<char>| !final(self)@.actors.contains_key(actor),
            final(self)@.default_config == old(self)@.default_config,
    {
        self.actors.clear();
    }

    /// Begins to store a value. Without a store the request is dropped.
    pub fn set(&self, ctx: &Context, arg: SetRequest) -> (put: Option<PutEntry<'_, S>>)
        requires
            ctx.actor is Some,
        ensures
            match self@.store_of(*ctx) {
                Some(store) => {
                    &&& put matches Some(p)
                    &&& *p.store == store
                    &&& p.key == arg.key
                    &&& p.value@ == encode_utf8(arg.value@)
                },
                None => put is None,
            },
    {
        match self.get_store(ctx) {
            Ok(store) => Some(PutEntry { store, key: arg.key, value: stored_bytes(&arg.value) }),
            Err(_) => None,
        }
    }

    /// Begins to answer a request for a value.
    pub fn get(&self, ctx: &Context, arg: String) -> (lookup: Lookup<'_, S, GetResponse>)
        requires
            ctx.actor is Some,
        ensures
            match lookup {
                Lookup::Fetch { store, key } => self@.store_of(*ctx) == Some(*store) && key == arg,
                Lookup::Answer(response) => self@.store_of(*ctx) is None && response@
                    == GetResponseView::missing() && response.value@.len() == 0
                    && !response.exists,
            },
    {
        match self.get_store(ctx) {
            Ok(store) => Lookup::Fetch { store, key: arg },
            Err(_) => Lookup::Answer(GetResponse { value: String::new(), exists: false }),
        }
    }

    /// Begins to answer whether a key has a value.
    pub fn contains(&self, ctx: &Context, arg: String) -> (lookup: Lookup<'_, S, bool>)
        requires
            ctx.actor is Some,
        ensures
            match lookup {
                Lookup::Fetch { store, key } => self@.store_of(*ctx) == Some(*store) && key == arg,
                Lookup::Answer(contained) => self@.store_of(*ctx) is None && !contained,
            },
    {
        match self.get_store(ctx) {
            Ok(store) => Lookup::Fetch { store, key: arg },
            Err(_) => Lookup::Answer(false),
        }
    }

    /// Begins to delete a key: whether it has a value is looked up first.
    pub fn del(&self, ctx: &Context, arg: String) -> (lookup: Lookup<'_, S, bool>)
        requires
            ctx.actor is Some,
        ensures
            match lookup {
                Lookup::Fetch { store, key } => self@.store_of(*ctx) == Some(*store) && key == arg,
                Lookup::Answer(deleted) => self@.store_of(*ctx) is None && !deleted,
            },
    {
        match self.get_store(ctx) {
            Ok(store) => Lookup::Fetch { store, key: arg },
            Err(_) => Lookup::Answer(false),
        }
    }

    /// Begins to increment a number: its current value is looked up first, and the number that
    /// the increment comes to is then put to the same store, under the same key. Without a store
    /// the answer is `zero`.
    pub fn increment<N>(&self, ctx: &Context, key: String, zero: N) -> (lookup: Lookup<'_, S, N>)
        requires
            ctx.actor is Some,
        ensures
            match lookup {
                Lookup::Fetch { store, key: k } => self@.store_of(*ctx) == Some(*store) && k
                    == key,
                Lookup::Answer(number) => self@.store_of(*ctx) is None && number == zero,
            },
    {
        match self.get_store(ctx) {
            Ok(store) => Lookup::Fetch { store, key },
            Err(_) => Lookup::Answer(zero),
        }
    }

    // The following methods are not implemented as they are not relevant to the NATS KV Store

    /// Not implemented: no list has any items.
    pub fn list_add(&self, _ctx: &Context, _arg: ListAddRequest) -> (len: u32)
        ensures
            len == 0,
    {
        0
    }

    /// Not implemented: there is no list to clear.
    pub fn list_clear(&self, _ctx: &Context, _arg: String) -> (cleared: bool)
        ensures
            !cleared,
    {
        false
    }

    /// Not implemented: there is no item to remove.
    pub fn list_del(&self, _ctx: &Context, _arg: ListDelRequest) -> (removed: bool)
        ensures
            !removed,
    {
        false
    }

    /// Not implemented: no list has any items.
    pub fn list_range(&self, _ctx: &Context, _arg: ListRangeRequest) -> (items: Vec<String>)
        ensures
            items@ == Seq::<String>::empty(),
    {
        Vec::new()
    }

    /// Not implemented: nothing is added.
    pub fn set_add(&self, _ctx: &Context, _arg: SetAddRequest) -> (added: u32)
        ensures
            added == 0,
    {
        0
    }

    /// Not implemented: there is no set to clear.
    pub fn set_clear(&self, _ctx: &Context, _arg: String) -> (cleared: bool)
        ensures
            !cleared,
    {
        false
    }

    /// Not implemented: nothing is removed.
    pub fn set_del(&self, _ctx: &Context, _arg: SetDelRequest) -> (removed: u32)
        ensures
            removed == 0,
    {
        0
    }

    /// Not implemented: no set has any items.
    pub fn set_intersection(&self, _ctx: &Context, _arg: Vec<String>) -> (items: Vec<String>)
        ensures
            items@ == Seq::<String>::empty(),
    {
        Vec::new()
    }

    /// Not implemented: no set has any items.
    pub fn set_query(&self, _ctx: &Context, _arg: String) -> (items: Vec<String>)
        ensures
            items@ == Seq::<String>::empty(),
    {
        Vec::new()
    }

    /// Not implemented: no set has any items.
    pub fn set_union(&self, _ctx: &Context, _arg: Vec<String>) -> (items: Vec<String>)
        ensures
            items@ == Seq::<String>::empty(),
    {
        Vec::new()
    }
}

} // verus!
