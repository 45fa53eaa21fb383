//! What the bridge does with the messages that make and drop links.

use crate::lattice::{LinkDefinition, LinkDefinitionView};
use crate::logging::{entry, entry_with_tail, failure, Level, LogEntry};
use crate::rpc::bridge::{HostBridge, HostBridgeView};
use crate::rpc::handler::RpcError;
use vstd::prelude::*;

verus! {

/// A put message for an actor that is linked already.
pub open spec fn relink_warning(ld: LinkDefinitionView) -> (Level, Seq<char>) {
    (
        Level::Warn,
        "Received LD put for existing link definition from "@ + ld.actor_id + " to "@
            + ld.provider_id + "\n"@,
    )
}

/// How the provider's answer to a put message is logged.
pub open spec fn put_answer_log(actor_id: Seq<char>, answer: Result<bool, Seq<char>>) -> (
    Level,
    Seq<char>,
) {
    match answer {
        Ok(true) => (Level::Info, "Linking "@ + actor_id + "\n"@),
        Ok(false) => (Level::Warn, "put_link denied: "@ + actor_id + "\n"@),
        Err(error) => (Level::Error, "put_link "@ + actor_id + " failed: "@ + error + "\n"@),
    }
}

/// What the provider answered, with the text of its error.
pub open spec fn answer_text(answer: Result<bool, RpcError>) -> Result<bool, Seq<char>> {
    match answer {
        Ok(allowed) => Ok(allowed),
        Err(error) => Err(error.message@),
    }
}

impl<S> HostBridgeView<S> {
    /// The bridge once the provider has answered whether it takes the link.
    pub open spec fn answered(
        self,
        ld: LinkDefinitionView,
        answer: Result<bool, Seq<char>>,
    ) -> HostBridgeView<S> {
        if answer == Ok::<bool, Seq<char>>(true) {
            self.linked(ld)
        } else {
            self
        }
    }
}

impl<S> HostBridge<S> {
    /// Handles a message that drops a link. The link goes, and the provider is to be notified
    /// of the actor that is returned. A message that could not be read is logged and changes
    /// nothing.
    pub fn link_delete_received(&mut self, parsed: Result<LinkDefinition, String>) -> (outcome: (
        Option<String>,
        Vec<LogEntry>,
    ))
        ensures
            old(self)@.wf() ==> final(self)@.wf(),
            final(self)@.subs == old(self)@.subs,
            final(self)@.lattice_prefix == old(self)@.lattice_prefix,
            match parsed {
                Ok(ld) => {
                    &&& final(self)@.links == old(self)@.links.remove(ld.actor_id@)
                    &&& outcome.0 == Some(ld.actor_id)
                    &&& outcome.1@.len() == 0
                },
                Err(error) => {
                    &&& final(self)@.links == old(self)@.links
                    &&& outcome.0 is None
                    &&& outcome.1@.len() == 1
                    &&& outcome.1@[0].level == Level::Error
                    &&& outcome.1@[0].message@ == "error deserializing link-delete parameter: "@
                        + error@
                },
            },
            match parsed {
                Ok(ld) => {
                    &&& final(self)@ == old(self)@.unlinked(ld@.actor_id)
                    &&& outcome.0.deep_view() == Some(ld@.actor_id)
                    &&& outcome.1.deep_view() == Seq::<(Level, Seq<char>)>::empty()
                },
                Err(error) => {
                    &&& final(self)@ == old(self)@
                    &&& outcome.0 is None
                    &&& outcome.1.deep_view() == seq![
                        (Level::Error, "error deserializing link-delete parameter: "@ + error@),
                    ]
                },
            },
    {
        let mut logs: Vec<LogEntry> = Vec::new();
        match parsed {
            Ok(ld) => {
                self.delete_link(ld.actor_id.as_str());
                (Some(ld.actor_id), logs)
            },
            Err(error) => {
                logs.push(
                    entry(Level::Error, "error deserializing link-delete parameter: ", error.as_str()),
                );
                (None, logs)
            },
        }
    }

    /// Handles a message that makes a link. The provider is to be asked whether it takes the
    /// definition that is returned, and its answer handed to
    /// [`link_put_answered`](HostBridge::link_put_answered). A message that could not be read
    /// is logged, and the provider is not asked.
    pub fn link_put_received(&self, parsed: Result<LinkDefinition, String>) -> (outcome: (
        Option<LinkDefinition>,
        Vec<LogEntry>,
    ))
        ensures
            match parsed {
                Ok(ld) => {
                    &&& outcome.0 == Some(ld)
                    &&& !self@.links.contains_key(ld.actor_id@) ==> outcome.1@.len() == 0
                    &&& self@.links.contains_key(ld.actor_id@) ==> {
                        &&& outcome.1@.len() == 1
                        &&& outcome.1@[0].level == Level::Warn
                        &&& outcome.1@[0].message@
                            == "Received LD put for existing link definition from "@ + ld.actor_id@
                            + " to "@ + ld.provider_id@ + "\n"@
                    }
                },
                Err(error) => {
                    &&& outcome.0 is None
                    &&& outcome.1@.len() == 1
                    &&& outcome.1@[0].level == Level::Error
                    &&& outcome.1@[0].message@ == "error serializing put-link parameter: "@
                        + error@
                },
            },
            match parsed {
                Ok(ld) => {
                    &&& outcome.0 == Some(ld)
                    &&& outcome.1.deep_view() == if self@.links.contains_key(ld@.actor_id) {
                        seq![relink_warning(ld@)]
                    } else {
                        Seq::<(Level, Seq<char>)>::empty()
                    }
                },
                Err(error) => {
                    &&& outcome.0 is None
                    &&& outcome.1.deep_view() == seq![
                        (Level::Error, "error serializing put-link parameter: "@ + error@),
                    ]
                },
            },
    {
        let mut logs: Vec<LogEntry> = Vec::new();
        match parsed {
            Ok(ld) => {
                if self.is_linked(ld.actor_id.as_str()) {
                    let mut to = String::from_str(" to ");
                    to.append(ld.provider_id.as_str());
                    to.append("\n");
                    logs.push(
                        entry_with_tail(
                            Level::Warn,
                            "Received LD put for existing link definition from ",
                            ld.actor_id.as_str(),
                            to.as_str(),
                        ),
                    );
                    assert(logs@[0]@.1 == relink_warning(ld@).1);
                }
                (Some(ld), logs)
            },
            Err(error) => {
                logs.push(
                    entry(Level::Error, "error serializing put-link parameter: ", error.as_str()),
                );
                (None, logs)
            },
        }
    }

    /// Handles the provider's answer to a link: an allowed link is stored, a denied or failed
    /// one is not.
    pub fn link_put_answered(&mut self, ld: LinkDefinition, answer: Result<bool, RpcError>) -> (log:
        LogEntry)
        ensures
            final(self)@ == old(self)@.answered(ld@, answer_text(answer)),
            old(self)@.wf() ==> final(self)@.wf(),
            log@ == put_answer_log(ld@.actor_id, answer_text(answer)),
            final(self)@.subs == old(self)@.subs,
            final(self)@.lattice_prefix == old(self)@.lattice_prefix,
            match answer {
                Ok(true) => {
                    &&& final(self)@.links == old(self)@.links.insert(ld.actor_id@, ld@)
                    &&& log.level == Level::Info
                    &&& log.message@ == "Linking "@ + ld.actor_id@ + "\n"@
                },
                Ok(false) => {
                    &&& final(self)@.links == old(self)@.links
                    &&& log.level == Level::Warn
                    &&& log.message@ == "put_link denied: "@ + ld.actor_id@ + "\n"@
                },
                Err(error) => {
                    &&& final(self)@.links == old(self)@.links
                    &&& log.level == Level::Error
                    &&& log.message@ == "put_link "@ + ld.actor_id@ + " failed: "@ + error.message@
                        + "\n"@
                },
            },
    {
        match answer {
            Ok(allowed) => {
                if allowed {
                    let log = entry_with_tail(Level::Info, "Linking ", ld.actor_id.as_str(), "\n");
                    self.put_link(ld);
                    log
                } else {
                    // authorization failed or parameters were invalid
                    entry_with_tail(Level::Warn, "put_link denied: ", ld.actor_id.as_str(), "\n")
                }
            },
            Err(error) => {
                failure(
                    "put_link ",
                    ld.actor_id.as_str(),
                    " failed: ",
                    error.message.as_str(),
                    "\n",
                )
            },
        }
    }
}

} // verus!
