//! What happens to a NATS connection, and how it is logged.

use crate::logging::{entry_with_tail, Level, LogEntry};
use crate::text::{decimal, decimal_text};
use vstd::prelude::*;

verus! {

/// An event of a NATS connection. An error is given by its debug representation.
#[derive(Debug, PartialEq, Eq)]
pub enum ConnectionEvent {
    Connected,
    Disconnected,
    LameDuckMode,
    /// A subscription, by its id, is not read as fast as its messages arrive.
    SlowConsumer(u64),
    ServerError(String),
    ClientError(String),
}

/// How an event of a connection is logged: losses as warnings, the connection's making as
/// information, errors as errors.
pub open spec fn event_log(event: ConnectionEvent) -> (Level, Seq<char>) {
    match event {
        ConnectionEvent::Disconnected => (Level::Warn, "nats client disconnected"@),
        ConnectionEvent::Connected => (Level::Info, "nats client connected"@),
        ConnectionEvent::ClientError(err) => (
            Level::Error,
            "nats client error: '"@ + err@ + "'"@,
        ),
        ConnectionEvent::ServerError(err) => (
            Level::Error,
            "nats server error: '"@ + err@ + "'"@,
        ),
        ConnectionEvent::SlowConsumer(val) => (
            Level::Warn,
            "nats slow consumer detected ("@ + decimal_text(val as nat) + ")"@,
        ),
        ConnectionEvent::LameDuckMode => (Level::Warn, "nats lame duck mode"@),
    }
}

/// The log entry for an event of a connection.
pub fn connection_event_log(event: &ConnectionEvent) -> (log: LogEntry)
    ensures
        log@ == event_log(*event),
{
    match event {
        ConnectionEvent::Disconnected => LogEntry {
            level: Level::Warn,
            message: String::from_str("nats client disconnected"),
        },
        ConnectionEvent::Connected => LogEntry {
            level: Level::Info,
            message: String::from_str("nats client connected"),
        },
        ConnectionEvent::ClientError(err) => entry_with_tail(
            Level::Error,
            "nats client error: '",
            err.as_str(),
            "'",
        ),
        ConnectionEvent::ServerError(err) => entry_with_tail(
            Level::Error,
            "nats server error: '",
            err.as_str(),
            "'",
        ),
        ConnectionEvent::SlowConsumer(val) => entry_with_tail(
            Level::Warn,
            "nats slow consumer detected (",
            decimal(*val).as_str(),
            ")",
        ),
        ConnectionEvent::LameDuckMode => LogEntry {
            level: Level::Warn,
            message: String::from_str("nats lame duck mode"),
        },
    }
}

/// Each event is logged with its own level and words: a loss, a slow consumer and lame duck mode
/// as warnings, a connection as information, and an error as an error. An error's words, and a
/// slow consumer's number, stand in the entry whole.
pub proof fn law_events_are_logged(error: String, id: u64)
    ensures
        event_log(ConnectionEvent::Disconnected) == (Level::Warn, "nats client disconnected"@),
        event_log(ConnectionEvent::Connected) == (Level::Info, "nats client connected"@),
        event_log(ConnectionEvent::LameDuckMode) == (Level::Warn, "nats lame duck mode"@),
        event_log(ConnectionEvent::ClientError(error)) == (
            Level::Error,
            "nats client error: '"@ + error@ + "'"@,
        ),
        event_log(ConnectionEvent::ServerError(error)) == (
            Level::Error,
            "nats server error: '"@ + error@ + "'"@,
        ),
        event_log(ConnectionEvent::SlowConsumer(id)) == (
            Level::Warn,
            "nats slow consumer detected ("@ + decimal_text(id as nat) + ")"@,
        ),
{
}

} // verus!
