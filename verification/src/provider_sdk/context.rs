//! What is known of the caller of an operation.

use std::collections::HashMap;
use vstd::prelude::*;

verus! {

/// Message passing metadata used by wasmhost actors and capability providers.
#[derive(Debug, PartialEq, Eq)]
pub struct Context {
    /// Messages received by a provider will have actor set to the actor's public key.
    pub actor: Option<String>,
    /// A map of tracing context information.
    pub tracing: HashMap<String, String>,
}

impl Clone for Context {
    fn clone(&self) -> (copy: Self)
        ensures
            copy.actor == self.actor,
            copy.tracing@ == self.tracing@,
    {
        Context { actor: self.actor.clone(), tracing: self.tracing.clone() }
    }
}

impl Default for Context {
    fn default() -> (ctx: Self)
        ensures
            ctx.actor is None,
            ctx.tracing@ == Map::<String, String>::empty(),
    {
        Context { actor: None, tracing: HashMap::new() }
    }
}

} // verus!
