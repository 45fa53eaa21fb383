//! An actor's call of a provider, from the message that carries it to the answer.

use crate::lattice::WasmCloudEntity;
use crate::logging::{entry, entry_with_tail, failure, Level, LogEntry};
use crate::provider_sdk::context::Context;
use crate::rpc::handler::{Message, RpcError};
use std::collections::HashMap;
use vstd::prelude::*;

verus! {

/// A call of an operation of `target` by `origin`.
#[derive(Debug, PartialEq, Eq)]
pub struct Invocation {
    pub origin: WasmCloudEntity,
    pub target: WasmCloudEntity,
    pub operation: String,
    pub msg: Vec<u8>,
    pub id: String,
    pub encoded_claims: String,
    pub host_id: String,
}

impl Clone for Invocation {
    fn clone(&self) -> (copy: Self)
        ensures
            copy.origin == self.origin,
            copy.target == self.target,
            copy.operation == self.operation,
            copy.msg@ == self.msg@,
            copy.id == self.id,
            copy.encoded_claims == self.encoded_claims,
            copy.host_id == self.host_id,
    {
        let copy = Invocation {
            origin: self.origin.clone(),
            target: self.target.clone(),
            operation: self.operation.clone(),
            msg: self.msg.clone(),
            id: self.id.clone(),
            encoded_claims: self.encoded_claims.clone(),
            host_id: self.host_id.clone(),
        };
        assert(copy.msg@ =~= self.msg@);
        copy
    }
}

impl Default for Invocation {
    fn default() -> (inv: Self)
        ensures
            inv.operation@ == Seq::<char>::empty(),
            inv.msg@ == Seq::<u8>::empty(),
            inv.id@ == Seq::<char>::empty(),
            inv.encoded_claims@ == Seq::<char>::empty(),
            inv.host_id@ == Seq::<char>::empty(),
            inv.origin.public_key@ == Seq::<char>::empty(),
            inv.origin.link_name@ == Seq::<char>::empty(),
            inv.origin.contract_id@ == Seq::<char>::empty(),
            inv.target.public_key@ == Seq::<char>::empty(),
            inv.target.link_name@ == Seq::<char>::empty(),
            inv.target.contract_id@ == Seq::<char>::empty(),
    {
        Invocation {
            origin: WasmCloudEntity::default(),
            target: WasmCloudEntity::default(),
            operation: String::new(),
            msg: Vec::new(),
            id: String::new(),
            encoded_claims: String::new(),
            host_id: String::new(),
        }
    }
}

/// The response to an invocation.
#[derive(Debug, PartialEq, Eq)]
pub struct InvocationResponse {
    pub msg: Vec<u8>,
    pub error: Option<String>,
    pub invocation_id: String,
}

/// What an [`InvocationResponse`] says.
#[verifier::ext_equal]
pub struct InvocationResponseView {
    pub msg: Seq<u8>,
    pub error: Option<Seq<char>>,
    pub invocation_id: Seq<char>,
}

impl View for InvocationResponse {
    type V = InvocationResponseView;

    open spec fn view(&self) -> InvocationResponseView {
        InvocationResponseView {
            msg: self.msg@,
            error: self.error.deep_view(),
            invocation_id: self.invocation_id@,
        }
    }
}

impl Clone for InvocationResponse {
    fn clone(&self) -> (copy: Self)
        ensures
            copy@ == self@,
            copy.msg@ == self.msg@,
            copy.error.deep_view() == self.error.deep_view(),
            copy.invocation_id == self.invocation_id,
    {
        let copy = InvocationResponse {
            msg: self.msg.clone(),
            error: self.error.clone(),
            invocation_id: self.invocation_id.clone(),
        };
        assert(copy.msg@ =~= self.msg@);
        copy
    }
}

impl Default for InvocationResponse {
    fn default() -> (response: Self)
        ensures
            response@ == (InvocationResponseView {
                msg: Seq::empty(),
                error: None,
                invocation_id: Seq::empty(),
            }),
            response.msg@.len() == 0,
            response.error is None,
            response.invocation_id@.len() == 0,
    {
        InvocationResponse { msg: Vec::new(), error: None, invocation_id: String::new() }
    }
}

/// The response to the invocation `id`, once the provider has performed it or failed to.
pub open spec fn response_to(
    id: Seq<char>,
    result: Result<Seq<u8>, Seq<char>>,
) -> InvocationResponseView {
    match result {
        Ok(msg) => InvocationResponseView { msg, error: None, invocation_id: id },
        Err(error) => InvocationResponseView {
            msg: Seq::empty(),
            error: Some(error),
            invocation_id: id,
        },
    }
}

/// The bytes of an operation's result, or the text of its error.
pub open spec fn result_text(result: Result<Message, RpcError>) -> Result<Seq<u8>, Seq<char>> {
    match result {
        Ok(message) => Ok(message.arg@),
        Err(error) => Err(error.message@),
    }
}

/// A call that is being served: what its answer and its log entries need.
#[derive(Debug, PartialEq, Eq)]
pub struct PendingCall {
    pub operation: String,
    pub invocation_id: String,
}

/// What a [`PendingCall`] says.
#[verifier::ext_equal]
pub struct PendingCallView {
    pub operation: Seq<char>,
    pub invocation_id: Seq<char>,
}

impl View for PendingCall {
    type V = PendingCallView;

    open spec fn view(&self) -> PendingCallView {
        PendingCallView { operation: self.operation@, invocation_id: self.invocation_id@ }
    }
}

/// How far the serving of calls has come.
#[derive(Debug, PartialEq, Eq)]
pub enum RpcState {
    /// The next message is awaited.
    Waiting,
    /// The provider performs the operation.
    Calling(PendingCall),
    /// The response is written out.
    Writing(PendingCall),
    /// The response is sent.
    Sending(PendingCall),
}

/// What an [`RpcState`] says.
#[verifier::ext_equal]
pub enum RpcStateView {
    Waiting,
    Calling(PendingCallView),
    Writing(PendingCallView),
    Sending(PendingCallView),
}

impl View for RpcState {
    type V = RpcStateView;

    open spec fn view(&self) -> RpcStateView {
        match *self {
            RpcState::Waiting => RpcStateView::Waiting,
            RpcState::Calling(pending) => RpcStateView::Calling(pending@),
            RpcState::Writing(pending) => RpcStateView::Writing(pending@),
            RpcState::Sending(pending) => RpcStateView::Sending(pending@),
        }
    }
}

/// What the last action came to.
#[derive(Debug, PartialEq, Eq)]
pub enum RpcEvent {
    /// A message arrived; this is the invocation in it, or why there is none.
    Received(Result<Invocation, String>),
    /// The provider has performed the operation or failed to.
    Finished(Result<Message, RpcError>),
    /// The response was written out or not.
    Serialized(Result<Vec<u8>, String>),
    /// The response was sent or not.
    Sent(Result<(), String>),
}

/// What is to be done next.
#[derive(Debug, PartialEq, Eq)]
pub enum RpcAction {
    /// Wait for a message.
    Receive,
    /// Let the provider perform an operation, in the name of the actor that called it.
    Call { ctx: Context, message: Message },
    /// Write the response out.
    Serialize(InvocationResponse),
    /// Send these bytes to the caller.
    Send(Vec<u8>),
}

/// What an [`RpcAction`] says.
#[verifier::ext_equal]
pub enum RpcActionView {
    Receive,
    Call {
        actor: Option<Seq<char>>,
        tracing: Map<String, String>,
        method: Seq<char>,
        arg: Seq<u8>,
    },
    Serialize(InvocationResponseView),
    Send(Seq<u8>),
}

impl View for RpcAction {
    type V = RpcActionView;

    open spec fn view(&self) -> RpcActionView {
        match *self {
            RpcAction::Receive => RpcActionView::Receive,
            RpcAction::Call { ctx, message } => RpcActionView::Call {
                actor: ctx.actor.deep_view(),
                tracing: ctx.tracing@,
                method: message.method@,
                arg: message.arg@,
            },
            RpcAction::Serialize(response) => RpcActionView::Serialize(response@),
            RpcAction::Send(bytes) => RpcActionView::Send(bytes@),
        }
    }
}

/// A step of serving calls.
#[derive(Debug, PartialEq, Eq)]
pub struct RpcStep {
    pub state: RpcState,
    pub action: RpcAction,
    pub logs: Vec<LogEntry>,
}

/// What an [`RpcStep`] says.
#[verifier::ext_equal]
pub struct RpcStepView {
    pub state: RpcStateView,
    pub action: RpcActionView,
    pub logs: Seq<(Level, Seq<char>)>,
}

impl View for RpcStep {
    type V = RpcStepView;

    open spec fn view(&self) -> RpcStepView {
        RpcStepView { state: self.state@, action: self.action@, logs: self.logs.deep_view() }
    }
}

/// The event answers the action that the state stands for.
pub open spec fn rpc_expects(state: RpcStateView, event: RpcEvent) -> bool {
    match state {
        RpcStateView::Waiting => event is Received,
        RpcStateView::Calling(_) => event is Finished,
        RpcStateView::Writing(_) => event is Serialized,
        RpcStateView::Sending(_) => event is Sent,
    }
}

/// The wait for the next message, after these log entries.
pub open spec fn rpc_waiting(logs: Seq<(Level, Seq<char>)>) -> RpcStepView {
    RpcStepView { state: RpcStateView::Waiting, action: RpcActionView::Receive, logs }
}

/// The call that an invocation asks for: its operation on its argument, in the name of the actor
/// it comes from.
pub open spec fn call_of(inv: Invocation) -> RpcActionView {
    RpcActionView::Call {
        actor: Some(inv.origin.public_key@),
        tracing: Map::empty(),
        method: inv.operation@,
        arg: inv.msg@,
    }
}

/// What follows the arrival of a message: the call of its operation, or, where there is no
/// invocation in it, the wait for the next.
pub open spec fn after_received(parsed: Result<Invocation, String>) -> RpcStepView {
    let arrival = (Level::Debug, "received an RPC message"@);
    match parsed {
        Ok(inv) => RpcStepView {
            state: RpcStateView::Calling(
                PendingCallView { operation: inv.operation@, invocation_id: inv.id@ },
            ),
            action: call_of(inv),
            logs: seq![
                arrival,
                (
                    Level::Debug,
                    "Received RPC Invocation: op:"@ + inv.operation@ + " from:"@
                        + inv.origin.public_key@ + "\n"@,
                ),
            ],
        },
        Err(error) => rpc_waiting(
            seq![
                arrival,
                (Level::Error, "received corrupt invocation: "@ + error@ + "\n"@),
            ],
        ),
    }
}

/// What follows an operation: its response, be it a result or an error, is written out.
pub open spec fn after_finished(
    pending: PendingCallView,
    result: Result<Seq<u8>, Seq<char>>,
) -> RpcStepView {
    RpcStepView {
        state: RpcStateView::Writing(pending),
        action: RpcActionView::Serialize(response_to(pending.invocation_id, result)),
        logs: seq![
            match result {
                Ok(_) => (
                    Level::Debug,
                    "operation "@ + pending.operation + " succeeded. returning response"@,
                ),
                Err(error) => (
                    Level::Error,
                    "operation "@ + pending.operation + " failed with error "@ + error + "\n"@,
                ),
            },
        ],
    }
}

/// What follows the writing of a response: it is sent, or, where it could not be written, the
/// call goes without an answer.
pub open spec fn after_serialized(
    pending: PendingCallView,
    bytes: Result<Vec<u8>, String>,
) -> RpcStepView {
    match bytes {
        Ok(b) => RpcStepView {
            state: RpcStateView::Sending(pending),
            action: RpcActionView::Send(b@),
            logs: Seq::empty(),
        },
        Err(error) => rpc_waiting(
            seq![
                (
                    Level::Error,
                    "failed serializing InvocationResponse to op:"@ + pending.operation + " : "@
                        + error@ + "\n"@,
                ),
            ],
        ),
    }
}

/// What follows the sending of a response: the wait for the next message.
pub open spec fn after_sent(pending: PendingCallView, sent: Result<(), String>) -> RpcStepView {
    match sent {
        Ok(_) => rpc_waiting(Seq::empty()),
        Err(error) => rpc_waiting(
            seq![
                (
                    Level::Error,
                    "failed sending response to op "@ + pending.operation + ": "@ + error@,
                ),
            ],
        ),
    }
}

/// What follows an event. A message that arrives is taken up whatever the state; any other event
/// that does not answer the state's action is passed over, and the next message awaited.
pub open spec fn rpc_after(state: RpcStateView, event: RpcEvent) -> RpcStepView {
    match (state, event) {
        (RpcStateView::Calling(pending), RpcEvent::Finished(result)) => after_finished(
            pending,
            result_text(result),
        ),
        (RpcStateView::Writing(pending), RpcEvent::Serialized(bytes)) => after_serialized(
            pending,
            bytes,
        ),
        (RpcStateView::Sending(pending), RpcEvent::Sent(sent)) => after_sent(pending, sent),
        (_, RpcEvent::Received(parsed)) => after_received(parsed),
        _ => rpc_waiting(Seq::empty()),
    }
}

/// Takes the serving of calls one step on: from what the last action came to, to the next
/// action.
pub fn rpc_step(state: RpcState, event: RpcEvent) -> (step: RpcStep)
    ensures
        step@ == rpc_after(state@, event),
        event matches RpcEvent::Received(Ok(inv)) ==> {
            &&& step.action matches RpcAction::Call { ctx, message }
            &&& ctx.actor == Some(inv.origin.public_key)
            &&& ctx.tracing@ == Map::<String, String>::empty()
            &&& message.method == inv.operation
            &&& message.arg == inv.msg
            &&& step.state matches RpcState::Calling(pending)
            &&& pending.operation@ == inv.operation@
            &&& pending.invocation_id == inv.id
        },
        event matches RpcEvent::Received(Err(_)) ==> step.state == RpcState::Waiting && step.action
            == RpcAction::Receive,
        state matches RpcState::Calling(pending) ==> (event matches RpcEvent::Finished(result)
            ==> {
            &&& step.action matches RpcAction::Serialize(response)
            &&& response.invocation_id@ == pending.invocation_id@
            &&& match result {
                Ok(message) => response.msg == message.arg && response.error is None,
                Err(error) => response.msg@.len() == 0 && response.error == Some(error.message),
            }
            &&& step.state == RpcState::Writing(pending)
        }),
        state matches RpcState::Writing(pending) ==> (event matches RpcEvent::Serialized(Ok(bytes))
            ==> step.action == RpcAction::Send(bytes) && step.state == RpcState::Sending(pending)),
        state is Writing && (event matches RpcEvent::Serialized(Err(_))) ==> step.state
            == RpcState::Waiting && step.action == RpcAction::Receive,
        state is Sending && event is Sent ==> step.state == RpcState::Waiting && step.action
            == RpcAction::Receive,
{
    match (state, event) {
        (RpcState::Calling(pending), RpcEvent::Finished(result)) => finished(pending, result),
        (RpcState::Writing(pending), RpcEvent::Serialized(bytes)) => serialized(pending, bytes),
        (RpcState::Sending(pending), RpcEvent::Sent(sent)) => response_sent(pending, sent),
        (_, RpcEvent::Received(parsed)) => received(parsed),
        _ => RpcStep { state: RpcState::Waiting, action: RpcAction::Receive, logs: Vec::new() },
    }
}

fn received(parsed: Result<Invocation, String>) -> (step: RpcStep)
    ensures
        step@ == after_received(parsed),
        parsed matches Ok(inv) ==> {
            &&& step.action matches RpcAction::Call { ctx, message }
            &&& ctx.actor == Some(inv.origin.public_key)
            &&& ctx.tracing@ == Map::<String, String>::empty()
            &&& message.method == inv.operation
            &&& message.arg == inv.msg
            &&& step.state matches RpcState::Calling(pending)
            &&& pending.operation@ == inv.operation@
            &&& pending.invocation_id == inv.id
        },
        parsed is Err ==> step.state == RpcState::Waiting && step.action == RpcAction::Receive,
{
    let mut logs: Vec<LogEntry> = Vec::new();
    logs.push(
        LogEntry { level: Level::Debug, message: String::from_str("received an RPC message") },
    );
    match parsed {
        Ok(inv) => {
            let mut from = String::from_str(" from:");
            from.append(inv.origin.public_key.as_str());
            from.append("\n");
            let log = entry_with_tail(
                Level::Debug,
                "Received RPC Invocation: op:",
                inv.operation.as_str(),
                from.as_str(),
            );
            assert(log@.1 == "Received RPC Invocation: op:"@ + inv.operation@ + " from:"@
                + inv.origin.public_key@ + "\n"@);
            logs.push(log);
            let pending = PendingCall {
                operation: inv.operation.clone(),
                invocation_id: inv.id,
            };
            let ctx = Context { actor: Some(inv.origin.public_key), tracing: HashMap::new() };
            let message = Message { method: inv.operation, arg: inv.msg };
            RpcStep {
                state: RpcState::Calling(pending),
                action: RpcAction::Call { ctx, message },
                logs,
            }
        },
        Err(error) => {
            logs.push(
                entry_with_tail(
                    Level::Error,
                    "received corrupt invocation: ",
                    error.as_str(),
                    "\n",
                ),
            );
            RpcStep { state: RpcState::Waiting, action: RpcAction::Receive, logs }
        },
    }
}

fn finished(pending: PendingCall, result: Result<Message, RpcError>) -> (step: RpcStep)
    ensures
        step@ == after_finished(pending@, result_text(result)),
        step.action matches RpcAction::Serialize(response) && {
            &&& response.invocation_id@ == pending.invocation_id@
            &&& match result {
                Ok(message) => response.msg == message.arg && response.error is None,
                Err(error) => response.msg@.len() == 0 && response.error == Some(error.message),
            }
        },
        step.state == RpcState::Writing(pending),
{
    let mut logs: Vec<LogEntry> = Vec::new();
    let invocation_id = pending.invocation_id.clone();
    let response = match result {
        Ok(message) => {
            logs.push(
                entry_with_tail(
                    Level::Debug,
                    "operation ",
                    pending.operation.as_str(),
                    " succeeded. returning response",
                ),
            );
            InvocationResponse { msg: message.arg, error: None, invocation_id }
        },
        Err(error) => {
            logs.push(
                failure(
                    "operation ",
                    pending.operation.as_str(),
                    " failed with error ",
                    error.message.as_str(),
                    "\n",
                ),
            );
            InvocationResponse { msg: Vec::new(), error: Some(error.message), invocation_id }
        },
    };
    RpcStep { state: RpcState::Writing(pending), action: RpcAction::Serialize(response), logs }
}

fn serialized(pending: PendingCall, bytes: Result<Vec<u8>, String>) -> (step: RpcStep)
    ensures
        step@ == after_serialized(pending@, bytes),
        match bytes {
            Ok(b) => step.action == RpcAction::Send(b) && step.state == RpcState::Sending(pending),
            Err(_) => step.action == RpcAction::Receive && step.state == RpcState::Waiting,
        },
{
    let mut logs: Vec<LogEntry> = Vec::new();
    match bytes {
        Ok(b) => RpcStep { state: RpcState::Sending(pending), action: RpcAction::Send(b), logs },
        Err(error) => {
            // extremely unlikely that InvocationResponse would fail to serialize
            logs.push(
                failure(
                    "failed serializing InvocationResponse to op:",
                    pending.operation.as_str(),
                    " : ",
                    error.as_str(),
                    "\n",
                ),
            );
            RpcStep { state: RpcState::Waiting, action: RpcAction::Receive, logs }
        },
    }
}

fn response_sent(pending: PendingCall, sent: Result<(), String>) -> (step: RpcStep)
    ensures
        step@ == after_sent(pending@, sent),
        step.action == RpcAction::Receive,
        step.state == RpcState::Waiting,
{
    let mut logs: Vec<LogEntry> = Vec::new();
    if let Err(error) = sent {
        let mut text = String::from_str("failed sending response to op ");
        text.append(pending.operation.as_str());
        text.append(": ");
        logs.push(entry(Level::Error, text.as_str(), error.as_str()));
    }
    RpcStep { state: RpcState::Waiting, action: RpcAction::Receive, logs }
}

} // verus!
