use std::convert::Infallible;
use wasmcloud_provider::lattice::{
    HealthCheckRequest, HealthCheckResponse, HostData, LinkDefinition, WasmCloudEntity,
};
use wasmcloud_provider::logging::{Level, LogEntry};
use wasmcloud_provider::provider_sdk::context::Context;
use wasmcloud_provider::provider_sdk::topic::rpc_topic;
use wasmcloud_provider::rpc::bridge::{topic, Channel, ConnectStep, HostBridge};
use wasmcloud_provider::rpc::handler::{
    Message, MessageDispatch, ProviderDispatch, ProviderHandler, RpcError,
};
use wasmcloud_provider::rpc::health::{health_step, HealthAction, HealthEvent};
use wasmcloud_provider::rpc::host_data::{
    host_data_decoded, load_host_data, HostDataError, HOST_DATA_ENV,
};
use wasmcloud_provider::rpc::invocation::{
    rpc_step, Invocation, InvocationResponse, RpcAction, RpcEvent, RpcState,
};
use wasmcloud_provider::rpc::shutdown::{
    shutdown_signal_failed, shutdown_wait_ended, ShutdownAction,
};

fn host_data(prefix: &str) -> HostData {
    HostData { lattice_rpc_prefix: prefix.to_string(), config_json: None }
}

fn bridge() -> HostBridge<u32> {
    HostBridge::new(&host_data("lat"))
}

fn link(actor_id: &str, provider_id: &str) -> LinkDefinition {
    LinkDefinition {
        actor_id: actor_id.to_string(),
        provider_id: provider_id.to_string(),
        values: vec![("k".to_string(), "v".to_string())],
        ..LinkDefinition::default()
    }
}

fn entry(level: Level, text: &str) -> LogEntry {
    LogEntry { level, message: text.to_string() }
}

fn rpc_error(text: &str) -> RpcError {
    RpcError { message: text.to_string() }
}

#[test]
fn stored_link_is_found() {
    let mut b = bridge();
    assert!(!b.is_linked("a"));
    assert_eq!(b.get_link("a"), None);
    b.put_link(link("a", "p"));
    b.put_link(link("b", "p"));
    assert!(b.is_linked("a"));
    assert_eq!(b.get_link("a"), Some(link("a", "p")));
    b.put_link(link("a", "q"));
    assert_eq!(b.get_link("a"), Some(link("a", "q")));
    assert_eq!(b.get_link("b"), Some(link("b", "p")));
}

#[test]
fn put_link_twice_is_put_link_once() {
    let mut b = bridge();
    b.put_link(link("a", "p"));
    b.put_link(link("a", "p"));
    assert_eq!(b.get_link("a"), Some(link("a", "p")));
    b.delete_link("a");
    assert!(!b.is_linked("a"));
}

#[test]
fn deleted_link_is_gone() {
    let mut b = bridge();
    b.put_link(link("a", "p"));
    b.put_link(link("b", "p"));
    b.delete_link("a");
    b.delete_link("a");
    b.delete_link("c");
    assert!(!b.is_linked("a"));
    assert!(b.is_linked("b"));
}

#[test]
fn delete_message_drops_the_link() {
    let mut b = bridge();
    b.put_link(link("a", "p"));
    assert_eq!(b.link_delete_received(Ok(link("a", "p"))), (Some("a".to_string()), vec![]));
    assert!(!b.is_linked("a"));
    assert_eq!(b.link_delete_received(Ok(link("a", "p"))), (Some("a".to_string()), vec![]));
}

#[test]
fn unreadable_delete_message_changes_nothing() {
    let mut b = bridge();
    b.put_link(link("a", "p"));
    assert_eq!(
        b.link_delete_received(Err("bad".to_string())),
        (None, vec![entry(Level::Error, "error deserializing link-delete parameter: bad")])
    );
    assert!(b.is_linked("a"));
}

#[test]
fn put_message_asks_the_provider() {
    let mut b = bridge();
    assert_eq!(b.link_put_received(Ok(link("a", "p"))), (Some(link("a", "p")), vec![]));
    assert!(!b.is_linked("a"));
    b.put_link(link("a", "p"));
    assert_eq!(
        b.link_put_received(Ok(link("a", "p"))),
        (
            Some(link("a", "p")),
            vec![entry(
                Level::Warn,
                "Received LD put for existing link definition from a to p\n"
            )]
        )
    );
    assert_eq!(
        b.link_put_received(Err("bad".to_string())),
        (None, vec![entry(Level::Error, "error serializing put-link parameter: bad")])
    );
}

#[test]
fn only_allowed_links_are_stored() {
    let mut b = bridge();
    assert_eq!(
        b.link_put_answered(link("a", "p"), Ok(false)),
        entry(Level::Warn, "put_link denied: a\n")
    );
    assert!(!b.is_linked("a"));
    assert_eq!(
        b.link_put_answered(link("a", "p"), Err(rpc_error("no"))),
        entry(Level::Error, "put_link a failed: no\n")
    );
    assert!(!b.is_linked("a"));
    assert_eq!(b.link_put_answered(link("a", "p"), Ok(true)), entry(Level::Info, "Linking a\n"));
    assert_eq!(b.get_link("a"), Some(link("a", "p")));
    b.link_put_answered(link("a", "q"), Ok(false));
    assert_eq!(b.get_link("a"), Some(link("a", "p")));
}

#[test]
fn latest_message_counts() {
    let mut b = bridge();
    b.link_put_answered(link("a", "p"), Ok(true));
    b.link_delete_received(Ok(link("a", "p")));
    b.link_put_answered(link("a", "q"), Ok(true));
    b.link_put_answered(link("a", "r"), Ok(false));
    b.link_delete_received(Ok(link("b", "p")));
    assert_eq!(b.get_link("a"), Some(link("a", "q")));
    assert!(!b.is_linked("b"));
}

#[test]
fn topics_of_the_channels() {
    let t = |channel: Channel| topic("lat", "Vkey", "default", channel);
    assert_eq!(t(Channel::LinkDelete), "wasmbus.rpc.lat.Vkey.default.linkdefs.del");
    assert_eq!(t(Channel::LinkPut), "wasmbus.rpc.lat.Vkey.default.linkdefs.put");
    assert_eq!(t(Channel::Shutdown), "wasmbus.rpc.lat.Vkey.default.shutdown");
    assert_eq!(t(Channel::Health), "wasmbus.rpc.Vkey.default.health");
    assert_eq!(t(Channel::Rpc), "wasmbus.rpc.lat.Vkey.default");
}

#[test]
fn subjects_are_distinct() {
    let channels = [
        Channel::LinkDelete,
        Channel::LinkPut,
        Channel::Shutdown,
        Channel::Health,
        Channel::Rpc,
    ];
    for (i, one) in channels.iter().enumerate() {
        for other in &channels[i + 1..] {
            assert_ne!(
                topic("health", "health", "default", *one),
                topic("health", "health", "default", *other)
            );
        }
    }
}

#[test]
fn health_subject_may_be_the_call_subject() {
    assert_eq!(
        topic("health", "health", "health", Channel::Health),
        topic("health", "health", "health", Channel::Rpc)
    );
}

#[test]
fn provider_is_reached() {
    let target = WasmCloudEntity {
        public_key: "Vkey".to_string(),
        link_name: "default".to_string(),
        contract_id: String::new(),
    };
    assert_eq!(rpc_topic(&target, "lat"), topic("lat", "Vkey", "default", Channel::Rpc));
}

#[test]
fn connecting_subscribes_in_order_and_records_all_but_shutdown() {
    let mut b = bridge();
    let mut step = b.connect("Vkey".to_string(), "default");
    let channels = [
        Channel::LinkDelete,
        Channel::LinkPut,
        Channel::Shutdown,
        Channel::Health,
        Channel::Rpc,
    ];
    for (i, channel) in channels.iter().enumerate() {
        match step {
            ConnectStep::Subscribe { connecting, topic: t } => {
                assert_eq!(connecting.channel, *channel);
                assert_eq!(t, topic("lat", "Vkey", "default", *channel));
                step = b.subscribed(connecting, Ok(i as u32));
            }
            other => panic!("{:?}", other),
        }
    }
    assert_eq!(step, ConnectStep::Connected);
    assert_eq!(b.unsubscribe_all(), &[0, 1, 3, 4]);
    assert_eq!(b.unsubscribe_all(), &[0, 1, 3, 4]);
}

#[test]
fn failed_subscription_ends_the_connecting() {
    let mut b = bridge();
    let mut step = b.connect("Vkey".to_string(), "default");
    for i in 0..2 {
        match step {
            ConnectStep::Subscribe { connecting, .. } => {
                let outcome = if i == 0 { Ok(7) } else { Err("no route".to_string()) };
                step = b.subscribed(connecting, outcome);
            }
            other => panic!("{:?}", other),
        }
    }
    assert_eq!(step, ConnectStep::Failed("no route".to_string()));
    assert_eq!(b.unsubscribe_all(), &[7]);
}

fn invocation() -> Invocation {
    Invocation {
        origin: WasmCloudEntity {
            public_key: "Mkey".to_string(),
            ..WasmCloudEntity::default()
        },
        operation: "Get".to_string(),
        msg: vec![1, 2, 3],
        id: "id-1".to_string(),
        ..Invocation::default()
    }
}

#[test]
fn call_is_answered() {
    let step = rpc_step(RpcState::Waiting, RpcEvent::Received(Ok(invocation())));
    assert_eq!(
        step.action,
        RpcAction::Call {
            ctx: Context { actor: Some("Mkey".to_string()), ..Context::default() },
            message: Message { method: "Get".to_string(), arg: vec![1, 2, 3] },
        }
    );
    assert_eq!(
        step.logs,
        vec![
            entry(Level::Debug, "received an RPC message"),
            entry(Level::Debug, "Received RPC Invocation: op:Get from:Mkey\n"),
        ]
    );
    let result = Message { method: "Get".to_string(), arg: vec![9] };
    let step = rpc_step(step.state, RpcEvent::Finished(Ok(result)));
    assert_eq!(
        step.action,
        RpcAction::Serialize(InvocationResponse {
            msg: vec![9],
            error: None,
            invocation_id: "id-1".to_string(),
        })
    );
    assert_eq!(
        step.logs,
        vec![entry(Level::Debug, "operation Get succeeded. returning response")]
    );
    let step = rpc_step(step.state, RpcEvent::Serialized(Ok(vec![5, 6])));
    assert_eq!(step.action, RpcAction::Send(vec![5, 6]));
    assert_eq!(step.logs, vec![]);
    let step = rpc_step(step.state, RpcEvent::Sent(Ok(())));
    assert_eq!(step.action, RpcAction::Receive);
    assert_eq!(step.state, RpcState::Waiting);
    assert_eq!(step.logs, vec![]);
}

#[test]
fn failed_call_is_answered_with_its_error() {
    let step = rpc_step(RpcState::Waiting, RpcEvent::Received(Ok(invocation())));
    let step = rpc_step(step.state, RpcEvent::Finished(Err(rpc_error("boom"))));
    assert_eq!(
        step.action,
        RpcAction::Serialize(InvocationResponse {
            msg: vec![],
            error: Some("boom".to_string()),
            invocation_id: "id-1".to_string(),
        })
    );
    assert_eq!(
        step.logs,
        vec![entry(Level::Error, "operation Get failed with error boom\n")]
    );
    let step = rpc_step(step.state, RpcEvent::Serialized(Ok(vec![])));
    let step = rpc_step(step.state, RpcEvent::Sent(Err("gone".to_string())));
    assert_eq!(step.logs, vec![entry(Level::Error, "failed sending response to op Get: gone")]);
    assert_eq!(step.action, RpcAction::Receive);
}

#[test]
fn unwritten_response_is_not_sent() {
    let step = rpc_step(RpcState::Waiting, RpcEvent::Received(Ok(invocation())));
    let step = rpc_step(step.state, RpcEvent::Finished(Err(rpc_error("boom"))));
    let step = rpc_step(step.state, RpcEvent::Serialized(Err("big".to_string())));
    assert_eq!(step.action, RpcAction::Receive);
    assert_eq!(step.state, RpcState::Waiting);
    assert_eq!(
        step.logs,
        vec![entry(Level::Error, "failed serializing InvocationResponse to op:Get : big\n")]
    );
}

#[test]
fn corrupt_invocation_gets_no_answer() {
    let step = rpc_step(RpcState::Waiting, RpcEvent::Received(Err("eof".to_string())));
    assert_eq!(step.action, RpcAction::Receive);
    assert_eq!(step.state, RpcState::Waiting);
    assert_eq!(
        step.logs,
        vec![
            entry(Level::Debug, "received an RPC message"),
            entry(Level::Error, "received corrupt invocation: eof\n"),
        ]
    );
}

#[test]
fn event_out_of_turn_is_passed_over() {
    for event in [RpcEvent::Serialized(Ok(vec![1])), RpcEvent::Sent(Err("gone".to_string()))] {
        let step = rpc_step(RpcState::Waiting, event);
        assert_eq!(step.state, RpcState::Waiting);
        assert_eq!(step.action, RpcAction::Receive);
        assert_eq!(step.logs, vec![]);
    }
}

#[test]
fn invocation_values_copy_and_default() {
    assert_eq!(invocation().clone(), invocation());
    assert_eq!(Invocation::default().msg, Vec::<u8>::new());
    let response = InvocationResponse {
        msg: vec![1],
        error: Some("e".to_string()),
        invocation_id: "i".to_string(),
    };
    assert_eq!(response.clone(), response);
    assert_eq!(
        InvocationResponse::default(),
        InvocationResponse { msg: vec![], error: None, invocation_id: String::new() }
    );
}

#[test]
fn health_check_is_answered() {
    let step = health_step(HealthEvent::Received);
    assert_eq!(step.action, HealthAction::Ask);
    assert_eq!(step.log, Some(entry(Level::Debug, "received health check request\n")));
    let report = || HealthCheckResponse { healthy: true, message: Some("fine".to_string()) };
    let step = health_step(HealthEvent::Answered(Ok(report())));
    assert_eq!(step.action, HealthAction::Serialize(report()));
    assert_eq!(step.log, None);
    let step = health_step(HealthEvent::Serialized(Ok(vec![1])));
    assert_eq!(step.action, HealthAction::Send(vec![1]));
    let step = health_step(HealthEvent::Sent(Ok(())));
    assert_eq!(step.action, HealthAction::Receive);
    assert_eq!(step.log, None);
}

#[test]
fn failed_health_check_is_unhealthy() {
    let step = health_step(HealthEvent::Answered(Err(rpc_error("ill"))));
    assert_eq!(
        step.action,
        HealthAction::Serialize(HealthCheckResponse {
            healthy: false,
            message: Some("ill".to_string()),
        })
    );
    assert_eq!(
        step.log,
        Some(entry(Level::Error, "error generating health check response: ill"))
    );
    let step = health_step(HealthEvent::Serialized(Err("x".to_string())));
    assert_eq!(step.action, HealthAction::Receive);
    assert_eq!(
        step.log,
        Some(entry(Level::Error, "failed serializing HealthCheckResponse: x"))
    );
    let step = health_step(HealthEvent::Sent(Err("y".to_string())));
    assert_eq!(step.action, HealthAction::Receive);
    assert_eq!(
        step.log,
        Some(entry(Level::Error, "failed sending health check response: y"))
    );
}

#[test]
fn shutdown_goes_in_order() {
    assert_eq!(
        shutdown_wait_ended(true),
        vec![
            ShutdownAction::Log(entry(
                Level::Info,
                "Received termination signal. Shutting down capability provider."
            )),
            ShutdownAction::UnsubscribeAll,
            ShutdownAction::StopProvider,
            ShutdownAction::Respond("Shutting down".to_string()),
            ShutdownAction::Signal("bye".to_string()),
        ]
    );
    assert_eq!(shutdown_wait_ended(false), vec![]);
    assert_eq!(
        shutdown_signal_failed("bye".to_string()),
        entry(Level::Error, "Problem shutting down:  failure to send signal: bye\n")
    );
}

#[test]
fn host_data_is_loaded() {
    let json = "{\"lattice_rpc_prefix\":\"lat\",\"config_json\":\"{}\"}";
    let value = base64::encode(json);
    let loaded = load_host_data(Some(value), |bytes: Vec<u8>| {
        let v: serde_json::Value = serde_json::from_slice(&bytes).map_err(|e| e.to_string())?;
        Ok(HostData {
            lattice_rpc_prefix: v["lattice_rpc_prefix"].as_str().unwrap().to_string(),
            config_json: v["config_json"].as_str().map(|s| s.to_string()),
        })
    });
    assert_eq!(
        loaded,
        Ok(HostData {
            lattice_rpc_prefix: "lat".to_string(),
            config_json: Some("{}".to_string()),
        })
    );
}

#[test]
fn host_data_errors() {
    assert_eq!(HOST_DATA_ENV, "WASMCLOUD_HOST_DATA");
    let parse = |bytes: Vec<u8>| Err(format!("{} bytes", bytes.len()));
    let missing = load_host_data(None, parse).unwrap_err();
    assert_eq!(missing, HostDataError::NotFound);
    assert_eq!(missing.message(), "env variable 'WASMCLOUD_HOST_DATA' not found");
    let garbled = load_host_data(Some("aGVs!G8=".to_string()), parse).unwrap_err();
    assert_eq!(garbled, HostDataError::InvalidBase64("Invalid byte 33, offset 4.".to_string()));
    assert_eq!(
        garbled.message(),
        "env variable 'WASMCLOUD_HOST_DATA' is invalid base64: Invalid byte 33, offset 4."
    );
    let unparsed = load_host_data(Some("aGVsbG8=".to_string()), parse).unwrap_err();
    assert_eq!(unparsed, HostDataError::InvalidJson("5 bytes".to_string()));
    assert_eq!(unparsed.message(), "parsing 'WASMCLOUD_HOST_DATA': 5 bytes");
}

#[test]
fn host_data_from_decoded_bytes() {
    let parse = |bytes: Vec<u8>| {
        assert_eq!(bytes, vec![1, 2]);
        Ok(host_data("x"))
    };
    assert_eq!(host_data_decoded(Ok(vec![1, 2]), parse), Ok(host_data("x")));
    assert_eq!(
        host_data_decoded(Err("bad".to_string()), |_: Vec<u8>| Ok(host_data("x"))),
        Err(HostDataError::InvalidBase64("bad".to_string()))
    );
}

struct Echo {}

impl ProviderHandler for Echo {
    fn health_request(&self, _arg: &HealthCheckRequest) -> Result<HealthCheckResponse, RpcError> {
        Err(rpc_error("unknown"))
    }
}

impl MessageDispatch for Echo {
    fn dispatch(&self, _ctx: &Context, message: Message) -> Result<Message, RpcError> {
        Ok(message)
    }
}

impl ProviderDispatch for Echo {}

fn drive<P: ProviderDispatch>(provider: &P) -> HostBridge<u32> {
    let mut b = bridge();
    let (asked, _) = b.link_put_received(Ok(link("a", "p")));
    let ld = asked.unwrap();
    let answer = provider.put_link(&ld);
    assert_eq!(answer, Ok(true));
    b.link_put_answered(ld, answer);
    provider.delete_link("other");
    assert_eq!(provider.shutdown(), Ok::<(), Infallible>(()));
    let message = Message { method: "m".to_string(), arg: vec![1] };
    assert_eq!(
        provider.dispatch(&Context::default(), message),
        Ok(Message { method: "m".to_string(), arg: vec![1] })
    );
    b
}

#[test]
fn provider_defaults_allow_links() {
    assert!(drive(&Echo {}).is_linked("a"));
}
