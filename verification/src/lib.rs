//! Host-side embedding layer for a garbage-collected scripting engine.
//!
//! The engine itself — script parsing, bytecode execution, the tracing
//! collector — is an external collaborator reached through a thin
//! foreign-function layer that lives outside this crate.  What is verified
//! here is the host's half of the protocol: the collector root table and
//! the rooted-handle discipline, the runtime / context / compartment
//! ownership chain, the class and prototype registries with their
//! uniqueness invariants, the name pool that keeps C string buffers alive
//! for the engine's lifetime, and the decision the host takes from each
//! engine outcome.
//!
//! Engine object pointers appear throughout as plain `u64` values: the
//! layer never reads through them, it only stores them, roots them and
//! hands them back to the engine.

use vstd::prelude::*;

pub mod bytes;
pub mod compartment;
pub mod cx;
pub mod laws;
pub mod name_pool;
pub mod roots;
pub mod rt;

verus! {

/// Errors surfaced to callers of the embedding layer.
///
/// Engine-call failures with a caller-recoverable meaning are `Engine`;
/// the rest mark broken invariants in the binding's own setup
/// (duplicate or missing registrations).
#[derive(Clone, Copy, Debug, PartialEq, Eq, Structural)]
pub enum JsError {
    /// An engine entry point reported failure (standard-class
    /// initialization, definition call, object allocation, evaluation).
    Engine,
    /// A class name was registered twice on the same context.
    DuplicateClass,
    /// A prototype name was stashed twice on the same compartment.
    DuplicateProto,
    /// An object creation named a class that was never registered.
    UnknownClass,
    /// An object creation named a prototype that was never stashed.
    UnknownProto,
}

} // verus!
