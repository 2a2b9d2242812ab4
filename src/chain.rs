use vstd::prelude::*;

verus! {

/// The identity of a chain.
#[derive(Clone, Copy, Debug, PartialEq, Eq, Structural, Hash)]
pub struct ChainId {
    pub id: u64,
}

/// Why an operation or a message was rejected. A rejected step is not
/// committed: its caller keeps the state from before the step.
#[derive(Clone, Copy, Debug, PartialEq, Eq, Structural)]
pub enum GameError {
    /// The step was called outside the status it requires.
    InvalidTransition,
    /// The calling chain is not the one the step requires.
    AuthorizationFailure,
    /// The deck ran out, or no chain is left to ask.
    ResourceExhausted,
    /// Two mirrored records disagree, or one that must exist is missing.
    ConsistencyViolation,
    /// A bet is outside the limits, or the funds do not cover it.
    InsufficientFunds,
}

} // verus!
