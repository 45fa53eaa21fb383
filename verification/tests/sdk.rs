use std::collections::HashMap;
use wasmcloud_provider::lattice::{HealthCheckRequest, HealthCheckResponse, WasmCloudEntity};
use wasmcloud_provider::logging::{Level, LogEntry};
use wasmcloud_provider::provider_sdk::context::Context;
use wasmcloud_provider::provider_sdk::events::{connection_event_log, ConnectionEvent};
use wasmcloud_provider::provider_sdk::handler::{
    InterfaceLinkDefinition, InvocationError, Provider, ProviderHandler, WrpcDispatch, WrpcNats,
};
use wasmcloud_provider::provider_sdk::topic::{
    rpc_topic, url, DEFAULT_NATS_ADDR, DEFAULT_RPC_TIMEOUT_MILLIS, URL_SCHEME,
};
use wasmcloud_provider::provider_sdk::wit::{parse_wit_meta_from_operation, OperationError};
use wasmcloud_provider::text::{decimal, is_blank, rsplit_once, split_once};

fn parts(
    ns: &str,
    pkg: &str,
    iface: &str,
    func: Option<&str>,
) -> Result<(String, String, String, Option<String>), OperationError> {
    Ok((
        ns.to_string(),
        pkg.to_string(),
        iface.to_string(),
        func.map(|f| f.to_string()),
    ))
}

fn entity(public_key: &str, link_name: &str, contract_id: &str) -> WasmCloudEntity {
    WasmCloudEntity {
        public_key: public_key.to_string(),
        link_name: link_name.to_string(),
        contract_id: contract_id.to_string(),
    }
}

#[test]
fn operation_is_taken_apart() {
    assert_eq!(
        parse_wit_meta_from_operation("wasmcloud:bus/guest-config.get"),
        parts("wasmcloud", "bus", "guest-config", Some("get"))
    );
    assert_eq!(
        parse_wit_meta_from_operation("wasmcloud:bus/guest-config."),
        parts("wasmcloud", "bus", "guest-config", None)
    );
}

#[test]
fn operation_is_split_at_the_right_separators() {
    assert_eq!(
        parse_wit_meta_from_operation("a:b:c/d/e.f.g:h"),
        parts("a:b", "c/d", "e", Some("f.g:h"))
    );
    assert_eq!(
        parse_wit_meta_from_operation("übung:größe/äpfel.ölen"),
        parts("übung", "größe", "äpfel", Some("ölen"))
    );
    assert_eq!(parse_wit_meta_from_operation(":/."), parts("", "", "", None));
}

#[test]
fn operation_errors() {
    assert_eq!(
        parse_wit_meta_from_operation("wasmcloud:bus"),
        Err(OperationError::MissingInterface)
    );
    assert_eq!(
        parse_wit_meta_from_operation("wasmcloud:bus/guest-config"),
        Err(OperationError::MissingFunction)
    );
    assert_eq!(
        parse_wit_meta_from_operation("wasm.cloud:bus/guest-config"),
        Err(OperationError::MissingFunction)
    );
    assert_eq!(
        parse_wit_meta_from_operation("bus/guest-config.get:x"),
        Err(OperationError::MissingPackage)
    );
    assert_eq!(OperationError::MissingInterface.message(), "failed to parse operation");
    assert_eq!(
        OperationError::MissingFunction.message(),
        "interface and function should be specified"
    );
    assert_eq!(
        OperationError::MissingPackage.message(),
        "failed to parse operation for WIT ns/pkg"
    );
}

#[test]
fn parsed_operation_is_put_together_again() {
    for op in ["a:b/c.d", "a:b:c/d/e.f.g", ":/.", "x:y/z."] {
        let (ns, pkg, iface, func) = parse_wit_meta_from_operation(op).unwrap();
        assert_eq!(format!("{}:{}/{}.{}", ns, pkg, iface, func.unwrap_or_default()), op);
    }
}

#[test]
fn splitting_agrees_with_std() {
    for s in ["", "/", "a/b", "a/b/c", "//", "abc", "é/ü/", "/x"] {
        assert_eq!(split_once(s, '/'), s.split_once('/'));
        assert_eq!(rsplit_once(s, '/'), s.rsplit_once('/'));
    }
}

#[test]
fn topics_of_providers_and_actors() {
    assert_eq!(rpc_topic(&entity("Vkey", "default", ""), "lat"), "wasmbus.rpc.lat.Vkey.default");
    assert_eq!(rpc_topic(&entity("Mkey", "", "c"), "lat"), "wasmbus.rpc.lat.Mkey");
    assert_eq!(rpc_topic(&WasmCloudEntity::default(), ""), "wasmbus.rpc..");
}

#[test]
fn targets_have_distinct_subjects() {
    let targets = [
        ("x", "a", ""),
        ("x", "a", "b"),
        ("x", "a", "b.c"),
        ("x", "b", "a"),
        ("y", "a", "b"),
    ];
    for (i, (lattice, key, link_name)) in targets.iter().enumerate() {
        for (other_lattice, other_key, other_link_name) in &targets[i + 1..] {
            assert_ne!(
                rpc_topic(&entity(key, link_name, ""), lattice),
                rpc_topic(&entity(other_key, other_link_name, ""), other_lattice)
            );
        }
    }
    assert_eq!(
        rpc_topic(&entity("a.b", "", ""), "x"),
        rpc_topic(&entity("a", "b", ""), "x")
    );
}

#[test]
fn urls_of_entities() {
    let e = entity("Vkey", "default", "wasmcloud:keyvalue");
    assert_eq!(url(&e, None), "wrpc://wasmcloud:keyvalue/default/Vkey");
    assert_eq!(url(&e, Some("get")), "wrpc://wasmcloud:keyvalue/default/Vkey/get");
    assert_eq!(url(&e, Some("")), "wrpc://wasmcloud:keyvalue/default/Vkey/");
    assert_eq!(e.clone(), e);
}

#[test]
fn constants() {
    assert_eq!(URL_SCHEME, "wasmbus");
    assert_eq!(DEFAULT_NATS_ADDR, "nats://127.0.0.1:4222");
    assert_eq!(DEFAULT_RPC_TIMEOUT_MILLIS, 2000);
}

#[test]
fn connection_events_are_logged() {
    let log = |event: ConnectionEvent| -> LogEntry { connection_event_log(&event) };
    let entry = |level: Level, text: &str| LogEntry { level, message: text.to_string() };
    assert_eq!(
        log(ConnectionEvent::Disconnected),
        entry(Level::Warn, "nats client disconnected")
    );
    assert_eq!(log(ConnectionEvent::Connected), entry(Level::Info, "nats client connected"));
    assert_eq!(
        log(ConnectionEvent::ClientError("Other(\"x\")".to_string())),
        entry(Level::Error, "nats client error: 'Other(\"x\")'")
    );
    assert_eq!(
        log(ConnectionEvent::ServerError("slow".to_string())),
        entry(Level::Error, "nats server error: 'slow'")
    );
    assert_eq!(
        log(ConnectionEvent::SlowConsumer(1024)),
        entry(Level::Warn, "nats slow consumer detected (1024)")
    );
    assert_eq!(log(ConnectionEvent::LameDuckMode), entry(Level::Warn, "nats lame duck mode"));
}

#[test]
fn decimal_agrees_with_std() {
    for n in [0, 1, 9, 10, 99, 100, 12345, u64::MAX] {
        assert_eq!(decimal(n), n.to_string());
    }
}

#[test]
fn white_space_agrees_with_std() {
    for c in '\u{0}'..=char::MAX {
        let s = c.to_string();
        assert_eq!(is_blank(&s), s.trim().is_empty(), "{:?}", c);
    }
    assert!(is_blank(""));
    assert!(is_blank(" \t\n\u{3000}"));
    assert!(!is_blank("  x "));
}

struct Plain {}

impl ProviderHandler for Plain {}

impl WrpcNats for Plain {}

impl WrpcDispatch for Plain {
    fn dispatch_wrpc_dynamic(
        &self,
        ctx: Context,
        operation: String,
        params: Vec<wrpc_transport::Value>,
    ) -> Result<Vec<u8>, InvocationError> {
        let _ = ctx;
        Err(InvocationError { message: format!("{} {}", operation, params.len()) })
    }
}

impl Provider for Plain {}

fn check<P: Provider>(provider: P) {
    let ld = InterfaceLinkDefinition {
        source_id: "a".to_string(),
        target: "b".to_string(),
        name: "default".to_string(),
        wit_namespace: "wasi".to_string(),
        wit_package: "keyvalue".to_string(),
        interfaces: vec!["atomic".to_string()],
        source_config: Vec::new(),
        target_config: Vec::new(),
    };
    assert!(provider.put_link(&ld));
    provider.delete_link("a");
    assert_eq!(
        provider.health_request(&HealthCheckRequest {}),
        HealthCheckResponse { healthy: true, message: None }
    );
    provider.shutdown();
    let lookup = provider.incoming_wrpc_invocations_by_subject("l", "t", "0.0.1").unwrap();
    assert!(lookup.is_empty());
    let params = vec![wrpc_transport::Value::Bool(true)];
    assert_eq!(
        provider.dispatch_wrpc_dynamic(Context::default(), "op".to_string(), params),
        Err(InvocationError { message: "op 1".to_string() })
    );
}

#[test]
fn provider_defaults() {
    check(Plain {});
}

#[test]
fn context_defaults_and_copies() {
    let mut ctx = Context::default();
    assert_eq!(ctx.actor, None);
    assert_eq!(ctx.tracing, HashMap::new());
    ctx.actor = Some("Mkey".to_string());
    ctx.tracing.insert("k".to_string(), "v".to_string());
    let copy = ctx.clone();
    assert_eq!(copy.actor, ctx.actor);
    assert_eq!(copy.tracing, ctx.tracing);
}
