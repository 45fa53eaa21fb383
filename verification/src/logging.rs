//! Log entries as values.

use vstd::prelude::*;

verus! {

/// How urgent a log entry is.
#[derive(Debug, Clone, Copy, PartialEq, Eq, Structural)]
pub enum Level {
    Error,
    Warn,
    Info,
    Debug,
}

/// A message for the log.
#[derive(Debug, PartialEq, Eq)]
pub struct LogEntry {
    pub level: Level,
    pub message: String,
}

impl View for LogEntry {
    type V = (Level, Seq<char>);

    open spec fn view(&self) -> (Level, Seq<char>) {
        (self.level, self.message@)
    }
}

impl DeepView for LogEntry {
    type V = (Level, Seq<char>);

    open spec fn deep_view(&self) -> (Level, Seq<char>) {
        self@
    }
}

/// The entry whose message is `text` followed by `subject`.
pub(crate) fn entry(level: Level, text: &str, subject: &str) -> (e: LogEntry)
    ensures
        e@ == (level, text@ + subject@),
{
    let mut message = String::from_str(text);
    message.append(subject);
    LogEntry { level, message }
}

/// The entry whose message is `text` followed by `subject` and `tail`.
pub(crate) fn entry_with_tail(level: Level, text: &str, subject: &str, tail: &str) -> (e: LogEntry)
    ensures
        e@ == (level, text@ + subject@ + tail@),
{
    let mut message = String::from_str(text);
    message.append(subject);
    message.append(tail);
    LogEntry { level, message }
}

/// The error entry that names a `subject` and the `error` it met.
pub(crate) fn failure(text: &str, subject: &str, middle: &str, error: &str, tail: &str) -> (e:
    LogEntry)
    ensures
        e@ == (Level::Error, text@ + subject@ + middle@ + error@ + tail@),
{
    let mut message = String::from_str(text);
    message.append(subject);
    message.append(middle);
    message.append(error);
    message.append(tail);
    LogEntry { level: Level::Error, message }
}

/// A log entry says what its fields hold, alone and in a list.
pub proof fn law_log_entry_says_what_it_holds(log: LogEntry, logs: Vec<LogEntry>)
    ensures
        log@ == (log.level, log.message@),
        log.deep_view() == (log.level, log.message@),
        logs.deep_view().len() == logs@.len(),
        forall|i: int|
            0 <= i < logs@.len() ==> #[trigger] logs.deep_view()[i] == (
                logs@[i].level,
                logs@[i].message@,
            ),
{
}

} // verus!
