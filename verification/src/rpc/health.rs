//! The host's question whether the provider is well.

use crate::lattice::{HealthCheckResponse, HealthCheckResponseView};
use crate::logging::{entry, Level, LogEntry};
use crate::rpc::handler::RpcError;
use vstd::prelude::*;

verus! {

/// The report that is sent to the host: the provider's own, or, where the provider could not
/// give one, that it is not well and why.
pub open spec fn health_report(
    answer: Result<HealthCheckResponseView, Seq<char>>,
) -> HealthCheckResponseView {
    match answer {
        Ok(report) => report,
        Err(error) => HealthCheckResponseView { healthy: false, message: Some(error) },
    }
}

/// What the provider answered, with the text of its error.
pub open spec fn health_answer(answer: Result<HealthCheckResponse, RpcError>) -> Result<
    HealthCheckResponseView,
    Seq<char>,
> {
    match answer {
        Ok(report) => Ok(report@),
        Err(error) => Err(error.message@),
    }
}

/// What the last action came to.
#[derive(Debug, PartialEq, Eq)]
pub enum HealthEvent {
    /// A health check arrived.
    Received,
    /// The provider has answered or failed to.
    Answered(Result<HealthCheckResponse, RpcError>),
    /// The report was written out or not.
    Serialized(Result<Vec<u8>, String>),
    /// The report was sent or not.
    Sent(Result<(), String>),
}

/// What is to be done next.
#[derive(Debug, PartialEq, Eq)]
pub enum HealthAction {
    /// Wait for a health check.
    Receive,
    /// Ask the provider.
    Ask,
    /// Write the report out.
    Serialize(HealthCheckResponse),
    /// Send these bytes to the host.
    Send(Vec<u8>),
}

/// What a [`HealthAction`] says.
#[verifier::ext_equal]
pub enum HealthActionView {
    Receive,
    Ask,
    Serialize(HealthCheckResponseView),
    Send(Seq<u8>),
}

impl View for HealthAction {
    type V = HealthActionView;

    open spec fn view(&self) -> HealthActionView {
        match *self {
            HealthAction::Receive => HealthActionView::Receive,
            HealthAction::Ask => HealthActionView::Ask,
            HealthAction::Serialize(report) => HealthActionView::Serialize(report@),
            HealthAction::Send(bytes) => HealthActionView::Send(bytes@),
        }
    }
}

/// A step of answering health checks.
#[derive(Debug, PartialEq, Eq)]
pub struct HealthStep {
    pub action: HealthAction,
    pub log: Option<LogEntry>,
}

/// What a [`HealthStep`] says.
#[verifier::ext_equal]
pub struct HealthStepView {
    pub action: HealthActionView,
    pub log: Option<(Level, Seq<char>)>,
}

impl View for HealthStep {
    type V = HealthStepView;

    open spec fn view(&self) -> HealthStepView {
        HealthStepView {
            action: self.action@,
            log: self.log.deep_view(),
        }
    }
}

/// The wait for the next health check.
pub open spec fn health_waiting(log: Option<(Level, Seq<char>)>) -> HealthStepView {
    HealthStepView { action: HealthActionView::Receive, log }
}

/// What follows an event: a health check is put to the provider, its report written out and
/// sent; what could not be written or sent is logged, and the next health check awaited.
pub open spec fn health_after(event: HealthEvent) -> HealthStepView {
    match event {
        HealthEvent::Received => HealthStepView {
            action: HealthActionView::Ask,
            log: Some((Level::Debug, "received health check request\n"@)),
        },
        HealthEvent::Answered(answer) => HealthStepView {
            action: HealthActionView::Serialize(health_report(health_answer(answer))),
            log: match answer {
                Ok(_) => None,
                Err(error) => Some(
                    (
                        Level::Error,
                        "error generating health check response: "@ + error.message@,
                    ),
                ),
            },
        },
        HealthEvent::Serialized(bytes) => match bytes {
            Ok(b) => HealthStepView {
                action: HealthActionView::Send(b@),
                log: None,
            },
            Err(error) => health_waiting(
                Some((Level::Error, "failed serializing HealthCheckResponse: "@ + error@)),
            ),
        },
        HealthEvent::Sent(sent) => match sent {
            Ok(_) => health_waiting(None),
            Err(error) => health_waiting(
                Some((Level::Error, "failed sending health check response: "@ + error@)),
            ),
        },
    }
}

/// Takes the answering of health checks one step on: from what the last action came to, to the
/// next action.
pub fn health_step(event: HealthEvent) -> (step: HealthStep)
    ensures
        step@ == health_after(event),
        match event {
            HealthEvent::Received => {
                &&& step.action == HealthAction::Ask
                &&& step.log matches Some(log)
                &&& log.level == Level::Debug
                &&& log.message@ == "received health check request\n"@
            },
            HealthEvent::Answered(Ok(report)) => {
                &&& step.action == HealthAction::Serialize(report)
                &&& step.log is None
            },
            HealthEvent::Answered(Err(error)) => {
                &&& step.action matches HealthAction::Serialize(report)
                &&& !report.healthy
                &&& report.message == Some(error.message)
                &&& step.log matches Some(log)
                &&& log.level == Level::Error
                &&& log.message@ == "error generating health check response: "@ + error.message@
            },
            HealthEvent::Serialized(Ok(bytes)) => {
                &&& step.action == HealthAction::Send(bytes)
                &&& step.log is None
            },
            HealthEvent::Serialized(Err(error)) => {
                &&& step.action == HealthAction::Receive
                &&& step.log matches Some(log)
                &&& log.level == Level::Error
                &&& log.message@ == "failed serializing HealthCheckResponse: "@ + error@
            },
            HealthEvent::Sent(Ok(_)) => {
                &&& step.action == HealthAction::Receive
                &&& step.log is None
            },
            HealthEvent::Sent(Err(error)) => {
                &&& step.action == HealthAction::Receive
                &&& step.log matches Some(log)
                &&& log.level == Level::Error
                &&& log.message@ == "failed sending health check response: "@ + error@
            },
        },
{
    match event {
        HealthEvent::Received => HealthStep {
            action: HealthAction::Ask,
            log: Some(
                LogEntry {
                    level: Level::Debug,
                    message: String::from_str("received health check request\n"),
                },
            ),
        },
        HealthEvent::Answered(answer) => match answer {
            Ok(report) => HealthStep {
                action: HealthAction::Serialize(report),
                log: None,
            },
            Err(error) => {
                let log = entry(
                    Level::Error,
                    "error generating health check response: ",
                    error.message.as_str(),
                );
                HealthStep {
                    action: HealthAction::Serialize(
                        HealthCheckResponse { healthy: false, message: Some(error.message) },
                    ),
                    log: Some(log),
                }
            },
        },
        HealthEvent::Serialized(bytes) => match bytes {
            Ok(b) => HealthStep {
                action: HealthAction::Send(b),
                log: None,
            },
            Err(error) => waiting(
                Some(
                    entry(
                        Level::Error,
                        "failed serializing HealthCheckResponse: ",
                        error.as_str(),
                    ),
                ),
            ),
        },
        HealthEvent::Sent(sent) => match sent {
            Ok(_) => waiting(None),
            Err(error) => waiting(
                Some(
                    entry(
                        Level::Error,
                        "failed sending health check response: ",
                        error.as_str(),
                    ),
                ),
            ),
        },
    }
}

fn waiting(log: Option<LogEntry>) -> (step: HealthStep)
    ensures
        step@ == health_waiting(log.deep_view()),
        step.action == HealthAction::Receive,
        step.log == log,
{
    HealthStep { action: HealthAction::Receive, log }
}

} // verus!
