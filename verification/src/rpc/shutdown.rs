//! The host's request that the provider stop.

use crate::logging::{entry_with_tail, Level, LogEntry};
use vstd::prelude::*;

verus! {

/// What the provider's main thread is told when the provider has stopped.
pub type HostShutdownEvent = String;

/// A step of stopping the provider.
#[derive(Debug, PartialEq, Eq)]
pub enum ShutdownAction {
    Log(LogEntry),
    /// Drain the subscriptions that the bridge has recorded.
    UnsubscribeAll,
    /// Let the provider release what it holds.
    StopProvider,
    /// Acknowledge the host's request.
    Respond(String),
    /// Tell the main thread.
    Signal(HostShutdownEvent),
}

/// What a [`ShutdownAction`] says.
#[verifier::ext_equal]
pub enum ShutdownActionView {
    Log((Level, Seq<char>)),
    UnsubscribeAll,
    StopProvider,
    Respond(Seq<char>),
    Signal(Seq<char>),
}

impl DeepView for ShutdownAction {
    type V = ShutdownActionView;

    open spec fn deep_view(&self) -> ShutdownActionView {
        match *self {
            ShutdownAction::Log(log) => ShutdownActionView::Log(log@),
            ShutdownAction::UnsubscribeAll => ShutdownActionView::UnsubscribeAll,
            ShutdownAction::StopProvider => ShutdownActionView::StopProvider,
            ShutdownAction::Respond(text) => ShutdownActionView::Respond(text@),
            ShutdownAction::Signal(event) => ShutdownActionView::Signal(event@),
        }
    }
}

/// The steps of stopping, in order: the provider is stopped once no further message can reach
/// it, and the host is told once the provider has stopped.
pub open spec fn shutdown_actions() -> Seq<ShutdownActionView> {
    seq![
        ShutdownActionView::Log(
            (
                Level::Info,
                "Received termination signal. Shutting down capability provider."@,
            ),
        ),
        ShutdownActionView::UnsubscribeAll,
        ShutdownActionView::StopProvider,
        ShutdownActionView::Respond("Shutting down"@),
        ShutdownActionView::Signal("bye"@),
    ]
}

/// What is to be done when the wait for a shutdown request is over. Where it ended without a
/// request, the subscription was cancelled or the connection dropped, and nothing is done.
pub fn shutdown_wait_ended(requested: bool) -> (actions: Vec<ShutdownAction>)
    ensures
        actions.deep_view() == if requested {
            shutdown_actions()
        } else {
            Seq::<ShutdownActionView>::empty()
        },
        !requested ==> actions@.len() == 0,
        requested ==> {
            &&& actions@.len() == 5
            &&& actions@[0] matches ShutdownAction::Log(log)
            &&& log.level == Level::Info
            &&& log.message@
                == "Received termination signal. Shutting down capability provider."@
            &&& actions@[1] == ShutdownAction::UnsubscribeAll
            &&& actions@[2] == ShutdownAction::StopProvider
            &&& actions@[3] matches ShutdownAction::Respond(text)
            &&& text@ == "Shutting down"@
            &&& actions@[4] matches ShutdownAction::Signal(event)
            &&& event@ == "bye"@
        },
{
    let mut actions: Vec<ShutdownAction> = Vec::new();
    if requested {
        actions.push(
            ShutdownAction::Log(
                LogEntry {
                    level: Level::Info,
                    message: String::from_str(
                        "Received termination signal. Shutting down capability provider.",
                    ),
                },
            ),
        );
        actions.push(ShutdownAction::UnsubscribeAll);
        actions.push(ShutdownAction::StopProvider);
        actions.push(ShutdownAction::Respond(String::from_str("Shutting down")));
        actions.push(ShutdownAction::Signal(String::from_str("bye")));
    }
    actions
}

/// The log entry for a main thread that could not be told `event`.
pub fn shutdown_signal_failed(event: HostShutdownEvent) -> (log: LogEntry)
    ensures
        log@ == (
            Level::Error,
            "Problem shutting down:  failure to send signal: "@ + event@ + "\n"@,
        ),
        log.level == Level::Error,
        log.message@ == "Problem shutting down:  failure to send signal: "@ + event@ + "\n"@,
{
    entry_with_tail(
        Level::Error,
        "Problem shutting down:  failure to send signal: ",
        event.as_str(),
        "\n",
    )
}

} // verus!
