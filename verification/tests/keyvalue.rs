use std::collections::HashMap;
use wasmcloud_provider::keyvalue::connection::{ConfigError, ConnectionConfig, DEFAULT_NATS_URI};
use wasmcloud_provider::keyvalue::nkey::sign_nonce;
use wasmcloud_provider::keyvalue::provider::{
    plan_connection, ConnectError, ConnectPlan, LinkDenied, Lookup, NatsKeyvalueProvider,
    CLIENT_NAME,
};
use wasmcloud_provider::keyvalue::store::{
    contains_fetched, del_deleted, del_fetched, get_fetched, increment_fetched, increment_stored,
    increment_summed, stored_bytes, DelStep, GetResponse, ListAddRequest, ListDelRequest, ListRangeRequest,
    SetAddRequest, SetDelRequest, SetRequest,
};
use wasmcloud_provider::lattice::{HostData, LinkDefinition};
use wasmcloud_provider::provider_sdk::context::Context;

fn text(s: &str) -> String {
    s.to_string()
}

fn settings(values: &[(&str, &str)]) -> Vec<(String, String)> {
    values.iter().map(|(k, v)| (text(k), text(v))).collect()
}

fn ctx(actor: &str) -> Context {
    Context { actor: Some(text(actor)), ..Context::default() }
}

fn link(actor_id: &str, values: &[(&str, &str)]) -> LinkDefinition {
    LinkDefinition {
        actor_id: text(actor_id),
        values: settings(values),
        ..LinkDefinition::default()
    }
}

fn provider() -> NatsKeyvalueProvider<u32> {
    NatsKeyvalueProvider::default()
}

fn plan(auth: Option<(&str, &str)>, url: &str) -> ConnectPlan {
    ConnectPlan {
        auth: auth.map(|(j, s)| (text(j), text(s))),
        url: Some(text(url)),
        name: "NATS Keyvalue Provider",
    }
}

#[test]
fn test_connectionconfig_merge() {
    // the second wins, individual vec fields are replaced, not extended
    let cc1 = ConnectionConfig {
        cluster_uris: vec!["old_server".to_string()],
        ..Default::default()
    };
    let cc2 = ConnectionConfig {
        cluster_uris: vec!["server1".to_string(), "server2".to_string()],
        auth_jwt: Some("jawty".to_string()),
        ..Default::default()
    };
    let cc3 = cc1.merge(&cc2);
    assert_eq!(cc3.cluster_uris, cc2.cluster_uris);
    assert_eq!(cc3.auth_jwt, Some("jawty".to_string()))
}

#[test]
fn test_put_link() {
    let mut prov: NatsKeyvalueProvider<u32> = NatsKeyvalueProvider::default();
    let link_definition = LinkDefinition {
        actor_id: String::from("test_actor_id"),
        link_name: String::from("test_link_name"),
        contract_id: String::from("test_contract_id"),
        values: vec![(String::from("URI"), String::from("0.0.0.0:4222"))],
        ..Default::default()
    };

    assert_eq!(prov.put_link(&link_definition), Ok(plan(None, "0.0.0.0:4222")));
    assert!(prov.link_connected(&link_definition, Some(1)), "put_link succeeded");

    let _ = prov.shutdown();
}

fn config(uris: &[&str], jwt: Option<&str>, seed: Option<&str>, ping: Option<u16>) -> ConnectionConfig {
    ConnectionConfig {
        cluster_uris: uris.iter().map(|u| text(u)).collect(),
        auth_jwt: jwt.map(text),
        auth_seed: seed.map(text),
        ping_interval_sec: ping,
    }
}

#[test]
fn merge_with_a_silent_configuration_changes_nothing() {
    let c = config(&["a", "b"], Some("j"), Some("s"), Some(5));
    let silent = config(&[], None, None, None);
    assert_eq!(c.merge(&silent), c);
    assert_eq!(silent.merge(&c), c);
    assert_eq!(c.clone(), c);
}

#[test]
fn merge_is_associative() {
    let a = config(&["a"], Some("ja"), None, Some(1));
    let b = config(&[], Some("jb"), Some("sb"), None);
    let c = config(&["c"], None, Some("sc"), Some(3));
    assert_eq!(a.merge(&b).merge(&c), a.merge(&b.merge(&c)));
    assert_eq!(a.merge(&a), a);
    assert_eq!(a.merge(&b).merge(&c), config(&["c"], Some("jb"), Some("sc"), Some(3)));
}

#[test]
fn default_configuration() {
    assert_eq!(DEFAULT_NATS_URI, "0.0.0.0:4222");
    assert_eq!(ConnectionConfig::default(), config(&["0.0.0.0:4222"], None, None, None));
}

#[test]
fn settings_make_a_configuration() {
    let from = |values: &[(&str, &str)]| ConnectionConfig::from_tuples(&settings(values));
    assert_eq!(from(&[]), Ok(config(&["0.0.0.0:4222"], None, None, None)));
    assert_eq!(from(&[("URI", "u")]), Ok(config(&["u"], None, None, None)));
    assert_eq!(
        from(&[("CLIENT_SEED", "s"), ("CLIENT_JWT", "j")]),
        Ok(config(&["0.0.0.0:4222"], Some("j"), Some("s"), None))
    );
    assert_eq!(from(&[("uri", "u"), ("X", "y")]), Ok(ConnectionConfig::default()));
    assert_eq!(from(&[("CLIENT_JWT", "j")]), Err(ConfigError::IncompleteAuth));
    assert_eq!(from(&[("CLIENT_SEED", "s")]), Err(ConfigError::IncompleteAuth));
    assert_eq!(
        ConfigError::IncompleteAuth.message(),
        "must provide both jwt and seed for jwt authentication"
    );
}

#[test]
fn repeated_settings() {
    let values = settings(&[("URI", "one"), ("X", "y"), ("URI", "two"), ("Z", "")]);
    assert_eq!(
        ConnectionConfig::from_tuples(&values),
        Ok(config(&["one", "two"], None, None, None))
    );
    let values = settings(&[
        ("CLIENT_JWT", "j1"),
        ("CLIENT_SEED", "s1"),
        ("CLIENT_SEED", "s2"),
        ("CLIENT_JWT", "j2"),
    ]);
    assert_eq!(
        ConnectionConfig::from_tuples(&values),
        Ok(config(&["0.0.0.0:4222"], Some("j2"), Some("s2"), None))
    );
}

#[test]
fn link_connects_to_the_first_server_it_names() {
    assert_eq!(
        provider().put_link(&link("a", &[("URI", "one"), ("URI", "two")])),
        Ok(plan(None, "one"))
    );
}

fn seed() -> String {
    nkeys::KeyPair::new_user().seed().unwrap()
}

#[test]
fn connection_with_jwt() {
    let s = seed();
    let p = provider();
    assert_eq!(
        p.connect(config(&["u", "v"], Some("j"), Some(&s), None)),
        Ok(plan(Some(("j", &s)), "u"))
    );
    assert_eq!(CLIENT_NAME, "NATS Keyvalue Provider");
}

#[test]
fn connection_errors() {
    let p = provider();
    assert_eq!(
        p.connect(config(&["u"], Some("j"), None, None)),
        Err(ConnectError::IncompleteAuth)
    );
    assert_eq!(
        p.connect(config(&["u"], None, Some("s"), None)),
        Err(ConnectError::IncompleteAuth)
    );
    assert_eq!(
        p.connect(config(&["u"], Some("j"), Some("short"), None)),
        Err(ConnectError::InvalidSeed(text("Invalid key length: Bad seed length: 5")))
    );
    assert_eq!(
        p.connect(config(&[], None, None, None)),
        Ok(ConnectPlan { auth: None, url: None, name: "NATS Keyvalue Provider" })
    );
}

#[test]
fn connection_errors_in_words() {
    let cfg = ConnectionConfig {
        cluster_uris: vec!["nats://127.0.0.1:4222".to_string()],
        auth_jwt: Some("authy".to_string()),
        auth_seed: None,
        ..Default::default()
    };
    assert_eq!(
        provider().connect(cfg).unwrap_err().message(),
        "must provide both jwt and seed for jwt authentication"
    );
    assert_eq!(ConnectError::InvalidSeed(text("why")).message(), "why");
}

#[test]
fn connection_planned_with_checked_seed() {
    let c = || config(&["u"], Some("j"), Some("s"), None);
    assert_eq!(plan_connection(c(), None), Ok(plan(Some(("j", "s")), "u")));
    assert_eq!(
        plan_connection(c(), Some(text("why"))),
        Err(ConnectError::InvalidSeed(text("why")))
    );
    assert_eq!(
        plan_connection(config(&["u"], None, None, None), Some(text("why"))),
        Ok(plan(None, "u"))
    );
}

#[test]
fn nonce_is_signed() {
    let s = seed();
    let signature = sign_nonce(&s, b"nonce").unwrap();
    assert_eq!(signature.len(), 64);
    let pair = nkeys::KeyPair::from_seed(&s).unwrap();
    assert!(pair.verify(b"nonce", &signature).is_ok());
    assert!(pair.verify(b"other", &signature).is_err());
    assert_eq!(sign_nonce(&s, b"nonce").unwrap(), signature);
    assert_eq!(
        sign_nonce("short", b"nonce"),
        Err(text("Invalid key length: Bad seed length: 5"))
    );
}

#[test]
fn host_configuration_becomes_the_default() {
    let host = |json: Option<&str>| HostData {
        lattice_rpc_prefix: text("lat"),
        config_json: json.map(text),
    };
    let parse = |json: &str| {
        let v: serde_json::Value = serde_json::from_str(json).unwrap();
        config(&[v["cluster_uris"][0].as_str().unwrap()], None, None, None)
    };
    let p: NatsKeyvalueProvider<u32> = NatsKeyvalueProvider::from_host_data(
        &host(Some("{\"cluster_uris\": [\"nats://soyvuh\"]}")),
        parse,
    );
    assert_eq!(p.put_link(&link("a", &[])), Ok(plan(None, "nats://soyvuh")));
    let unasked = |_: &str| -> ConnectionConfig { panic!("parsed") };
    for json in [None, Some(""), Some(" \n\t ")] {
        let p: NatsKeyvalueProvider<u32> =
            NatsKeyvalueProvider::from_host_data(&host(json), unasked);
        assert_eq!(p.put_link(&link("a", &[])), Ok(plan(None, "0.0.0.0:4222")));
    }
}

#[test]
fn link_settings_take_precedence() {
    let s = seed();
    let host = HostData { lattice_rpc_prefix: text("lat"), config_json: Some(text("x")) };
    let p: NatsKeyvalueProvider<u32> = NatsKeyvalueProvider::from_host_data(&host, |_: &str| {
        config(&["host"], Some("j"), Some(&s), None)
    });
    assert_eq!(p.put_link(&link("a", &[])), Ok(plan(Some(("j", &s)), "host")));
    assert_eq!(
        p.put_link(&link("a", &[("URI", "mine")])),
        Ok(plan(Some(("j", &s)), "mine"))
    );
    assert_eq!(
        p.put_link(&link("a", &[("X", "y")])),
        Ok(plan(Some(("j", &s)), "0.0.0.0:4222"))
    );
}

#[test]
fn denied_links() {
    let p = provider();
    assert_eq!(
        p.put_link(&link("a", &[("CLIENT_JWT", "j")])),
        Err(LinkDenied::Config(ConfigError::IncompleteAuth))
    );
    assert_eq!(
        p.put_link(&link("a", &[("CLIENT_JWT", "j"), ("CLIENT_SEED", "short")])),
        Err(LinkDenied::Connect(ConnectError::InvalidSeed(text(
            "Invalid key length: Bad seed length: 5"
        ))))
    );
    let host = HostData { lattice_rpc_prefix: text("lat"), config_json: Some(text("x")) };
    let p: NatsKeyvalueProvider<u32> = NatsKeyvalueProvider::from_host_data(&host, |_: &str| {
        config(&["host"], Some("j"), None, None)
    });
    assert_eq!(
        p.put_link(&link("a", &[])),
        Err(LinkDenied::Connect(ConnectError::IncompleteAuth))
    );
}

#[test]
fn actor_has_its_own_store() {
    let mut p = provider();
    assert!(p.get_store(&ctx("a")).is_err());
    assert!(p.link_connected(&link("a", &[]), Some(1)));
    assert!(p.link_connected(&link("b", &[]), Some(2)));
    assert!(!p.link_connected(&link("c", &[]), None));
    assert_eq!(p.get_store(&ctx("a")), Ok(&1));
    assert_eq!(p.get_store(&ctx("b")), Ok(&2));
    assert_eq!(
        p.get_store(&ctx("c")).unwrap_err().message(),
        "Failed to get KV Store for actor"
    );
    assert!(p.link_connected(&link("a", &[]), Some(3)));
    assert_eq!(p.get_store(&ctx("a")), Ok(&3));
    assert!(!p.link_connected(&link("a", &[]), None));
    assert_eq!(p.get_store(&ctx("a")), Ok(&3));
}

#[test]
fn dropped_link_leaves_no_store() {
    let mut p = provider();
    p.link_connected(&link("a", &[]), Some(1));
    p.link_connected(&link("b", &[]), Some(2));
    p.delete_link("a");
    assert_eq!(
        p.get_store(&ctx("a")).unwrap_err().message(),
        "Failed to get KV Store for actor"
    );
    assert!(matches!(p.contains(&ctx("a"), text("k")), Lookup::Answer(false)));
    assert_eq!(p.get_store(&ctx("b")), Ok(&2));
    p.delete_link("a");
    p.delete_link("unknown");
    assert_eq!(p.get_store(&ctx("b")), Ok(&2));
    p.link_connected(&link("a", &[]), Some(3));
    assert_eq!(p.get_store(&ctx("a")), Ok(&3));
}

#[test]
fn dropped_link_releases_its_store() {
    let store = std::rc::Rc::new(());
    let mut p: NatsKeyvalueProvider<std::rc::Rc<()>> = NatsKeyvalueProvider::default();
    p.link_connected(&link("a", &[]), Some(store.clone()));
    assert_eq!(std::rc::Rc::strong_count(&store), 2);
    p.delete_link("a");
    assert_eq!(std::rc::Rc::strong_count(&store), 1);
}

#[test]
fn repeated_link_takes_the_last_store() {
    let mut p = provider();
    p.link_connected(&link("a", &[]), Some(1));
    p.link_connected(&link("a", &[]), Some(2));
    p.link_connected(&link("a", &[]), Some(2));
    assert_eq!(p.get_store(&ctx("a")), Ok(&2));
}

#[test]
fn bucket_bears_the_actors_name() {
    let p = provider();
    assert_eq!(p.link_bucket(&link("Mkey", &[("URI", "u")])), "Mkey");
    assert_ne!(p.link_bucket(&link("a", &[])), p.link_bucket(&link("b", &[])));
}

#[test]
fn actors_do_not_share_values() {
    // a server's buckets, with their names for handles
    let mut server: HashMap<(String, String), Vec<u8>> = HashMap::new();
    let mut p: NatsKeyvalueProvider<String> = NatsKeyvalueProvider::default();
    for actor in ["a", "b"] {
        let bucket = p.link_bucket(&link(actor, &[]));
        p.link_connected(&link(actor, &[]), Some(bucket));
    }
    for (actor, value) in [("a", "one"), ("b", "two")] {
        let put = p
            .set(&ctx(actor), SetRequest { key: text("k"), value: text(value) })
            .unwrap();
        server.insert((put.store.clone(), put.key), put.value);
    }
    for (actor, value) in [("a", "one"), ("b", "two")] {
        match p.get(&ctx(actor), text("k")) {
            Lookup::Fetch { store, key } => assert_eq!(
                get_fetched(Ok(server.get(&(store.clone(), key)).cloned())).value,
                value
            ),
            Lookup::Answer(_) => panic!("answered"),
        }
    }
}

#[test]
fn shutdown_closes_every_store() {
    let mut p = provider();
    p.link_connected(&link("a", &[]), Some(1));
    p.shutdown();
    assert!(p.get_store(&ctx("a")).is_err());
    assert!(p
        .set(&ctx("a"), SetRequest { key: text("k"), value: text("v") })
        .is_none());
    match p.get(&ctx("a"), text("k")) {
        Lookup::Answer(r) => assert_eq!(r, GetResponse { value: text(""), exists: false }),
        Lookup::Fetch { .. } => panic!("fetched"),
    }
    assert!(matches!(p.contains(&ctx("a"), text("k")), Lookup::Answer(false)));
    assert!(matches!(p.del(&ctx("a"), text("k")), Lookup::Answer(false)));
    match p.increment(&ctx("a"), text("k"), 0.0f32) {
        Lookup::Answer(number) => assert_eq!(number, 0.0),
        Lookup::Fetch { .. } => panic!("fetched"),
    }
}

#[test]
fn requests_go_to_the_actors_store() {
    let mut p = provider();
    p.link_connected(&link("a", &[]), Some(1));
    p.link_connected(&link("b", &[]), Some(2));
    let put = p.set(&ctx("b"), SetRequest { key: text("k"), value: text("vä") }).unwrap();
    assert_eq!((*put.store, put.key, put.value), (2, text("k"), "vä".as_bytes().to_vec()));
    fn fetch<A>(lookup: Lookup<'_, u32, A>) -> (u32, String) {
        match lookup {
            Lookup::Fetch { store, key } => (*store, key),
            Lookup::Answer(_) => panic!("answered"),
        }
    }
    assert_eq!(fetch(p.get(&ctx("a"), text("k"))), (1, text("k")));
    assert_eq!(fetch(p.contains(&ctx("b"), text("l"))), (2, text("l")));
    assert_eq!(fetch(p.del(&ctx("a"), text("m"))), (1, text("m")));
    assert_eq!(fetch(p.increment(&ctx("b"), text("n"), 0.0f32)), (2, text("n")));
}

#[test]
fn read_gives_back_what_was_written() {
    for value in ["", "v", "ä漢😀", "\u{0}"] {
        let bytes = stored_bytes(&text(value));
        assert_eq!(
            get_fetched(Ok(Some(bytes.clone()))),
            GetResponse { value: text(value), exists: true }
        );
        let parse = |t: &str| Some(t.to_string());
        assert_eq!(increment_fetched(Ok(Some(bytes)), parse, text("none")), value);
    }
}

#[test]
fn bytes_that_are_no_text_are_replaced() {
    assert_eq!(
        get_fetched(Ok(Some(vec![0x66, 0xff, 0x67]))),
        GetResponse { value: text("f\u{FFFD}g"), exists: true }
    );
}

#[test]
fn contains_agrees_with_get() {
    for reply in [Ok(Some(vec![1])), Ok(Some(vec![])), Ok(None), Err(text("down"))] {
        assert_eq!(contains_fetched(&reply), get_fetched(reply).exists);
    }
    assert_eq!(get_fetched(Ok(None)), GetResponse { value: text(""), exists: false });
    assert_eq!(get_fetched(Err(text("down"))), GetResponse { value: text(""), exists: false });
}

#[test]
fn only_existing_keys_are_deleted() {
    assert_eq!(del_fetched(text("k"), &Ok(Some(vec![1]))), DelStep::Delete(text("k")));
    assert_eq!(del_fetched(text("k"), &Ok(None)), DelStep::Answer(false));
    assert_eq!(del_fetched(text("k"), &Err(text("down"))), DelStep::Answer(false));
    assert!(del_deleted(Ok(())));
    assert!(!del_deleted(Err(text("down"))));
}

#[test]
fn increment_starts_from_the_stored_number() {
    let current = |reply| increment_fetched(reply, |t: &str| t.parse::<f32>().ok(), 0.0);
    assert_eq!(current(Ok(Some(b"1.5".to_vec()))), 1.5);
    assert_eq!(current(Ok(Some(b"one".to_vec()))), 0.0);
    assert_eq!(current(Ok(Some(vec![0xff]))), 0.0);
    assert_eq!(current(Ok(None)), 0.0);
    assert_eq!(current(Err(text("down"))), 0.0);
}

#[test]
fn increment_stores_the_sum_where_it_was_read() {
    let mut p = provider();
    p.link_connected(&link("a", &[]), Some(1));
    p.link_connected(&link("b", &[]), Some(2));
    let (store, key) = match p.increment(&ctx("b"), text("n"), 0.0f32) {
        Lookup::Fetch { store, key } => (store, key),
        Lookup::Answer(_) => panic!("answered"),
    };
    let sum: f32 = 1.5 + 2.0;
    let put = increment_summed(store, key, sum.to_string());
    assert_eq!((*put.store, put.key, put.value), (2, text("n"), b"3.5".to_vec()));
    assert_eq!(increment_stored(Ok(()), sum, 0.0), 3.5);
    assert_eq!(increment_stored(Err(text("down")), sum, 0.0), 0.0);
}

#[test]
fn lists_and_sets_are_not_implemented() {
    let p = provider();
    let c = ctx("a");
    let pair = || (text("l"), text("v"));
    let (list_name, value) = pair();
    assert_eq!(p.list_add(&c, ListAddRequest { list_name, value }), 0);
    let (list_name, value) = pair();
    assert!(!p.list_del(&c, ListDelRequest { list_name, value }));
    assert!(!p.list_clear(&c, text("l")));
    let range = ListRangeRequest { list_name: text("l"), start: 0, stop: 1 };
    assert_eq!(p.list_range(&c, range), Vec::<String>::new());
    let (set_name, value) = pair();
    assert_eq!(p.set_add(&c, SetAddRequest { set_name, value }), 0);
    let (set_name, value) = pair();
    assert_eq!(p.set_del(&c, SetDelRequest { set_name, value }), 0);
    assert!(!p.set_clear(&c, text("s")));
    assert_eq!(p.set_intersection(&c, vec![text("s")]), Vec::<String>::new());
    assert_eq!(p.set_query(&c, text("s")), Vec::<String>::new());
    assert_eq!(p.set_union(&c, vec![text("s")]), Vec::<String>::new());
}
