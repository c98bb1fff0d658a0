use vstd::prelude::*;

verus! {

/// Why an action was refused. A refused action changes nothing.
#[derive(Copy, Clone, Debug, PartialEq, Eq, Structural)]
pub enum CustomError {
    UserAlreadyInGame,
    ColorNotAvailable,
    InvalidGameState,
    NotUsersTurn,
    InvalidMove,
    KingInCheck,
    InsufficientBalance,
    NotInGame,
    GameAlreadyStarted,
    InvalidAdversaryUserAccount,
    AlreadyInGame,
    AlreadyOfferedDraw,
    TimeHasRunOut,
    StillHasTime,
}

} // verus!
