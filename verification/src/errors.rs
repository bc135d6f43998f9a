use vstd::prelude::*;

verus! {

/// Every way an invocation can fail. A failed call aborts the whole
/// invocation: the caller sees exactly one of these kinds and no record or
/// fund was touched.
#[derive(Clone, Copy, Debug, PartialEq, Eq, Structural)]
pub enum GameError {
    PresaleNotActive,
    PresaleNotStarted,
    PresaleEnded,
    ExceedsMaxSupply,
    MathOverflow,
    GamesPaused,
    InvalidWager,
    InvalidGameState,
    CannotPlaySelf,
    InvalidCommitment,
}

} // verus!
