//! The error taxonomy of the orchestration engine.
//!
//! Failures inside a bounded retry budget are absorbed by the state machines
//! and never surface here; everything below ends the whole run.

use vstd::prelude::*;

verus! {

/// A fatal orchestration failure.
#[derive(Debug, Clone, Copy, PartialEq, Eq, Structural)]
pub enum AgentError {
    /// The text-generation service failed twice in a row for one request:
    /// the single permitted retry was already spent.
    TransientService,
    /// Generated text did not decode as the demanded schema. Never retried:
    /// malformed-but-delivered output is unrecoverable by design.
    SchemaDecode,
    /// The build-verify-repair loop exhausted its attempt budget.
    TooManyBugs,
    /// The human confirmation gate declined to run generated code.
    OperatorAbort,
    /// A blackboard field that this stage depends on is absent or too small,
    /// so the pipeline cannot continue.
    IncompleteBlackboard,
    /// The supplied event feed ended before the agent reached `Finished`.
    EventsExhausted,
    /// The driver handed an event of a kind the machine did not ask for.
    UnexpectedEvent,
}

} // verus!
