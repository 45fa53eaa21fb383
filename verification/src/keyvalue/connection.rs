//! How a provider connects to its NATS server.

use vstd::prelude::*;

verus! {

/// The server that is used where no other is named.
pub const DEFAULT_NATS_URI: &'static str = "0.0.0.0:4222";

/// The setting that names a server. It may be given more than once.
pub const SETTING_URI: &'static str = "URI";

/// The setting that holds the JWT auth token.
pub const SETTING_CLIENT_JWT: &'static str = "CLIENT_JWT";

/// The setting that holds the private seed for JWT authentication.
pub const SETTING_CLIENT_SEED: &'static str = "CLIENT_SEED";

/// Configuration for connecting a NATS client.
#[derive(Debug, PartialEq, Eq)]
pub struct ConnectionConfig {
    /// The servers, of which the first is connected to.
    pub cluster_uris: Vec<String>,
    pub auth_jwt: Option<String>,
    pub auth_seed: Option<String>,
    /// Ping interval in seconds.
    pub ping_interval_sec: Option<u16>,
}

/// What a [`ConnectionConfig`] says.
#[verifier::ext_equal]
pub struct ConnectionConfigView {
    pub cluster_uris: Seq<Seq<char>>,
    pub auth_jwt: Option<Seq<char>>,
    pub auth_seed: Option<Seq<char>>,
    pub ping_interval_sec: Option<u16>,
}

impl View for ConnectionConfig {
    type V = ConnectionConfigView;

    open spec fn view(&self) -> ConnectionConfigView {
        ConnectionConfigView {
            cluster_uris: self.cluster_uris.deep_view(),
            auth_jwt: self.auth_jwt.deep_view(),
            auth_seed: self.auth_seed.deep_view(),
            ping_interval_sec: self.ping_interval_sec,
        }
    }
}

/// Settings that do not make up a configuration.
#[derive(Debug, Clone, Copy, PartialEq, Eq, Structural)]
pub enum ConfigError {
    /// Of the JWT and the seed, one is given without the other.
    IncompleteAuth,
}

impl ConfigError {
    /// The error in words.
    pub fn message(self) -> (text: &'static str)
        ensures
            text@ == "must provide both jwt and seed for jwt authentication"@,
    {
        "must provide both jwt and seed for jwt authentication"
    }
}

impl ConnectionConfigView {
    /// The configuration without any settings.
    pub open spec fn standard() -> ConnectionConfigView {
        ConnectionConfigView {
            cluster_uris: seq![DEFAULT_NATS_URI@],
            auth_jwt: None,
            auth_seed: None,
            ping_interval_sec: None,
        }
    }

    /// This configuration, but for what `extra` says: that replaces it, part by part.
    pub open spec fn merged(self, extra: ConnectionConfigView) -> ConnectionConfigView {
        ConnectionConfigView {
            cluster_uris: if extra.cluster_uris.len() > 0 {
                extra.cluster_uris
            } else {
                self.cluster_uris
            },
            auth_jwt: if extra.auth_jwt is Some {
                extra.auth_jwt
            } else {
                self.auth_jwt
            },
            auth_seed: if extra.auth_seed is Some {
                extra.auth_seed
            } else {
                self.auth_seed
            },
            ping_interval_sec: if extra.ping_interval_sec is Some {
                extra.ping_interval_sec
            } else {
                self.ping_interval_sec
            },
        }
    }

    /// A configuration that says nothing.
    pub open spec fn silent() -> ConnectionConfigView {
        ConnectionConfigView {
            cluster_uris: Seq::empty(),
            auth_jwt: None,
            auth_seed: None,
            ping_interval_sec: None,
        }
    }

    /// The JWT and the seed are there together or not at all.
    pub open spec fn auth_complete(self) -> bool {
        self.auth_jwt is Some <==> self.auth_seed is Some
    }
}

/// The value of the setting `key`. Where it is given more than once, the last counts.
pub open spec fn setting(values: Seq<(Seq<char>, Seq<char>)>, key: Seq<char>) -> Option<Seq<char>>
    decreases values.len(),
{
    if values.len() == 0 {
        None
    } else if values.last().0 == key {
        Some(values.last().1)
    } else {
        setting(values.drop_last(), key)
    }
}

/// The values of the setting `key`, in the order in which they are given.
pub open spec fn setting_values(values: Seq<(Seq<char>, Seq<char>)>, key: Seq<char>) -> Seq<Seq<char>>
    decreases values.len(),
{
    if values.len() == 0 {
        Seq::empty()
    } else if values.last().0 == key {
        setting_values(values.drop_last(), key).push(values.last().1)
    } else {
        setting_values(values.drop_last(), key)
    }
}

/// The configuration that settings ask for.
pub open spec fn config_of_settings(values: Seq<(Seq<char>, Seq<char>)>) -> Result<
    ConnectionConfigView,
    ConfigError,
> {
    let named = setting_values(values, SETTING_URI@);
    let config = ConnectionConfigView {
        cluster_uris: if named.len() > 0 {
            named
        } else {
            seq![DEFAULT_NATS_URI@]
        },
        auth_jwt: setting(values, SETTING_CLIENT_JWT@),
        auth_seed: setting(values, SETTING_CLIENT_SEED@),
        ping_interval_sec: None,
    };
    if config.auth_complete() {
        Ok(config)
    } else {
        Err(ConfigError::IncompleteAuth)
    }
}

/// What [`ConnectionConfig::from_tuples`] returned, taken as what it says.
pub open spec fn config_view(config: Result<ConnectionConfig, ConfigError>) -> Result<
    ConnectionConfigView,
    ConfigError,
> {
    match config {
        Ok(c) => Ok(c@),
        Err(e) => Err(e),
    }
}

fn find_setting(values: &Vec<(String, String)>, key: &str) -> (found: Option<String>)
    ensures
        found.deep_view() == setting(values.deep_view(), key@),
{
    let wanted = String::from_str(key);
    let mut i: usize = values.len();
    assert(values.deep_view().take(i as int) == values.deep_view());
    while i > 0
        invariant
            i <= values.len(),
            wanted@ == key@,
            setting(values.deep_view(), key@) == setting(values.deep_view().take(i as int), key@),
        decreases i,
    {
        i = i - 1;
        let ghost upto = values.deep_view().take(i + 1);
        assert(upto.last() == (values@[i as int].0@, values@[i as int].1@));
        assert(upto.drop_last() == values.deep_view().take(i as int));
        if values[i].0 == wanted {
            return Some(values[i].1.clone());
        }
    }
    None
}

fn find_settings(values: &Vec<(String, String)>, key: &str) -> (found: Vec<String>)
    ensures
        found.deep_view() == setting_values(values.deep_view(), key@),
{
    let wanted = String::from_str(key);
    let mut found: Vec<String> = Vec::new();
    let mut i: usize = 0;
    while i < values.len()
        invariant
            i <= values.len(),
            wanted@ == key@,
            found.deep_view() == setting_values(values.deep_view().take(i as int), key@),
        decreases values.len() - i,
    {
        let ghost upto = values.deep_view().take(i + 1);
        assert(upto.last() == (values@[i as int].0@, values@[i as int].1@));
        assert(upto.drop_last() == values.deep_view().take(i as int));
        if values[i].0 == wanted {
            let ghost before = found.deep_view();
            found.push(values[i].1.clone());
            assert(found.deep_view() == before.push(values@[i as int].1@));
        }
        i = i + 1;
    }
    assert(values.deep_view().take(i as int) == values.deep_view());
    found
}

impl ConnectionConfig {
    /// Merges this configuration with another, whose parts replace those of this one where it
    /// has them. A list is replaced, not extended.
    pub fn merge(&self, extra: &ConnectionConfig) -> (out: ConnectionConfig)
        ensures
            out@ == self@.merged(extra@),
            out.cluster_uris@ == if extra.cluster_uris@.len() > 0 {
                extra.cluster_uris@
            } else {
                self.cluster_uris@
            },
            out.auth_jwt.deep_view() == if extra.auth_jwt is Some {
                extra.auth_jwt.deep_view()
            } else {
                self.auth_jwt.deep_view()
            },
            out.auth_seed.deep_view() == if extra.auth_seed is Some {
                extra.auth_seed.deep_view()
            } else {
                self.auth_seed.deep_view()
            },
            out.ping_interval_sec == if extra.ping_interval_sec is Some {
                extra.ping_interval_sec
            } else {
                self.ping_interval_sec
            },
    {
        let mut out = self.clone();
        if !extra.cluster_uris.is_empty() {
            out.cluster_uris = clone_strings(&extra.cluster_uris);
        }
        if extra.auth_jwt.is_some() {
            out.auth_jwt = extra.auth_jwt.clone();
        }
        if extra.auth_seed.is_some() {
            out.auth_seed = extra.auth_seed.clone();
        }
        if extra.ping_interval_sec.is_some() {
            out.ping_interval_sec = extra.ping_interval_sec;
        }
        out
    }

    /// Builds a configuration from the settings of a link.
    pub fn from_tuples(values: &Vec<(String, String)>) -> (config: Result<
        ConnectionConfig,
        ConfigError,
    >)
        ensures
            config_view(config) == config_of_settings(values.deep_view()),
            config is Ok <==> (setting(values.deep_view(), SETTING_CLIENT_JWT@) is Some <==> setting(
                values.deep_view(),
                SETTING_CLIENT_SEED@,
            ) is Some),
            config matches Ok(c) ==> {
                let named = setting_values(values.deep_view(), SETTING_URI@);
                &&& c.auth_jwt.deep_view() == setting(values.deep_view(), SETTING_CLIENT_JWT@)
                &&& c.auth_seed.deep_view() == setting(values.deep_view(), SETTING_CLIENT_SEED@)
                &&& c.ping_interval_sec is None
                &&& named.len() > 0 ==> c.cluster_uris.deep_view() == named
                &&& named.len() == 0 ==> c.cluster_uris.deep_view() == seq![DEFAULT_NATS_URI@]
            },
    {
        let mut config = ConnectionConfig::default();
        let uris = find_settings(values, SETTING_URI);
        if !uris.is_empty() {
            config.cluster_uris = uris;
        }
        config.auth_jwt = find_setting(values, SETTING_CLIENT_JWT);
        config.auth_seed = find_setting(values, SETTING_CLIENT_SEED);
        if config.auth_jwt.is_some() != config.auth_seed.is_some() {
            return Err(ConfigError::IncompleteAuth);
        }
        assert(config@ == config_of_settings(values.deep_view())->Ok_0);
        Ok(config)
    }
}

fn clone_strings(strings: &Vec<String>) -> (copy: Vec<String>)
    ensures
        copy@ == strings@,
{
    let copy = strings.clone();
    assert(copy@ =~= strings@);
    copy
}

impl Clone for ConnectionConfig {
    fn clone(&self) -> (copy: Self)
        ensures
            copy@ == self@,
            copy.cluster_uris@ == self.cluster_uris@,
            copy.auth_jwt.deep_view() == self.auth_jwt.deep_view(),
            copy.auth_seed.deep_view() == self.auth_seed.deep_view(),
            copy.ping_interval_sec == self.ping_interval_sec,
    {
        ConnectionConfig {
            cluster_uris: clone_strings(&self.cluster_uris),
            auth_jwt: self.auth_jwt.clone(),
            auth_seed: self.auth_seed.clone(),
            ping_interval_sec: self.ping_interval_sec,
        }
    }
}

impl Default for ConnectionConfig {
    fn default() -> (config: Self)
        ensures
            config@ == ConnectionConfigView::standard(),
            config.cluster_uris.deep_view() == seq![DEFAULT_NATS_URI@],
            config.auth_jwt is None,
            config.auth_seed is None,
            config.ping_interval_sec is None,
    {
        let mut cluster_uris: Vec<String> = Vec::new();
        cluster_uris.push(String::from_str(DEFAULT_NATS_URI));
        let config = ConnectionConfig {
            cluster_uris,
            auth_jwt: None,
            auth_seed: None,
            ping_interval_sec: None,
        };
        assert(config@ == ConnectionConfigView::standard());
        config
    }
}

/// A configuration says what its fields hold, and settings that make up none are refused as
/// what they are.
pub proof fn law_configuration_says_what_it_holds(config: ConnectionConfig, error: ConfigError)
    ensures
        config@.cluster_uris.len() == config.cluster_uris@.len(),
        forall|i: int|
            0 <= i < config.cluster_uris@.len() ==> #[trigger] config@.cluster_uris[i]
                == config.cluster_uris@[i]@,
        config@.auth_jwt == config.auth_jwt.deep_view(),
        config@.auth_seed == config.auth_seed.deep_view(),
        config@.ping_interval_sec == config.ping_interval_sec,
        config_view(Ok(config)) == Ok::<ConnectionConfigView, ConfigError>(config@),
        config_view(Err(error)) == Err::<ConnectionConfigView, ConfigError>(error),
        ConnectionConfigView::standard() == (ConnectionConfigView {
            cluster_uris: seq![DEFAULT_NATS_URI@],
            auth_jwt: None,
            auth_seed: None,
            ping_interval_sec: None,
        }),
{
}

/// The value of a setting is that of its last occurrence, and there is none exactly if the
/// setting does not occur.
pub proof fn law_setting_is_its_last_occurrence(
    values: Seq<(Seq<char>, Seq<char>)>,
    key: Seq<char>,
    i: int,
)
    ensures
        setting(values, key) is None <==> forall|j: int|
            0 <= j < values.len() ==> (#[trigger] values[j]).0 != key,
        0 <= i < values.len() && values[i].0 == key && (forall|j: int|
            i < j < values.len() ==> (#[trigger] values[j]).0 != key) ==> setting(values, key)
            == Some(values[i].1),
    decreases values.len(),
{
    if values.len() > 0 {
        let earlier = values.drop_last();
        let n = values.len() - 1;
        law_setting_is_its_last_occurrence(earlier, key, i);
        assert(forall|j: int| 0 <= j < n ==> #[trigger] values[j] == earlier[j]);
        assert(values[n] == values.last());
        if forall|j: int| 0 <= j < earlier.len() ==> (#[trigger] earlier[j]).0 != key {
            if values.last().0 != key {
                assert forall|j: int| 0 <= j < values.len() implies (#[trigger] values[j]).0
                    != key by {
                    if j < n {
                        assert(values[j] == earlier[j]);
                    }
                }
            }
        } else {
            let j = choose|j: int| 0 <= j < earlier.len() && (#[trigger] earlier[j]).0 == key;
            assert(values[j].0 == key);
        }
        if 0 <= i < n && values[i].0 == key && (forall|j: int|
            i < j < values.len() ==> (#[trigger] values[j]).0 != key) {
            assert(values[n].0 != key);
            assert forall|j: int| i < j < earlier.len() implies (#[trigger] earlier[j]).0
                != key by {
                assert(values[j] == earlier[j]);
            }
        }
    }
}

/// The values of a setting are those of all its occurrences, in order: those of two lists, one
/// after the other, are the values of the first and then those of the second.
pub proof fn law_setting_values_are_all_occurrences(
    one: Seq<(Seq<char>, Seq<char>)>,
    other: Seq<(Seq<char>, Seq<char>)>,
    key: Seq<char>,
    name: Seq<char>,
    value: Seq<char>,
)
    ensures
        setting_values(one + other, key) == setting_values(one, key) + setting_values(other, key),
        setting_values(seq![(name, value)], key) == if name == key {
            seq![value]
        } else {
            Seq::<Seq<char>>::empty()
        },
        setting_values(Seq::<(Seq<char>, Seq<char>)>::empty(), key).len() == 0,
    decreases other.len(),
{
    reveal_with_fuel(setting_values, 2);
    assert(seq![(name, value)].drop_last() == Seq::<(Seq<char>, Seq<char>)>::empty());
    if other.len() == 0 {
        assert(one + other == one);
    } else {
        law_setting_values_are_all_occurrences(one, other.drop_last(), key, name, value);
        assert((one + other).drop_last() == one + other.drop_last());
        assert((one + other).last() == other.last());
    }
}

/// Settings make up a configuration exactly if they give both the JWT and the seed or neither.
/// It has the JWT and the seed that they give, whatever else they give, and the servers that
/// they name, or else the standard one.
pub proof fn law_settings_make_a_configuration(values: Seq<(Seq<char>, Seq<char>)>)
    ensures
        config_of_settings(values) is Ok <==> (setting(values, SETTING_CLIENT_JWT@) is Some
            <==> setting(values, SETTING_CLIENT_SEED@) is Some),
        config_of_settings(values) matches Err(error) ==> error == ConfigError::IncompleteAuth,
        config_of_settings(values) matches Ok(config) ==> {
            let named = setting_values(values, SETTING_URI@);
            &&& config.auth_jwt == setting(values, SETTING_CLIENT_JWT@)
            &&& config.auth_seed == setting(values, SETTING_CLIENT_SEED@)
            &&& config.ping_interval_sec is None
            &&& named.len() > 0 ==> config.cluster_uris == named
            &&& named.len() == 0 ==> config.cluster_uris == seq![DEFAULT_NATS_URI@]
        },
{
}

} // verus!
