use vstd::prelude::*;

verus! {

/// Why an instruction of the game was refused.
#[derive(Clone, Copy, Debug, PartialEq, Eq, Structural)]
pub enum GameError {
    NotPlayer,
    NotRolling,
    HashCollectNotFinish,
    HashVerifyFailed,
    NotCurrentPlayer,
    AlreadyOwned,
    BalanceNotEnough,
    PositionOutOfBound,
    NotOwned,
    LevelNotAllowed,
    NotInSell,
    WaitAnotherPlayerBid,
    NotMortgaged,
    NotInAction,
    BidValueNotHigher,
}

} // verus!
