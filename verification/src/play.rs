use vstd::prelude::*;

use crate::error::GameError;
use crate::game::{Game, Pubkey, WhichPlayer};

verus! {

/// The accounts of a move: the game account and the key that signed the move.
#[derive(Clone, Copy, Debug)]
pub struct Play {
    pub game: Game,
    pub player: Pubkey,
}

/// The seat whose key is `key`, if either player's key is.
pub open spec fn seat_of(g: Game, key: Seq<u8>) -> Option<WhichPlayer> {
    if key == g.players[0].pubkey@ {
        Some(WhichPlayer::PlayerOne)
    } else if key == g.players[1].pubkey@ {
        Some(WhichPlayer::PlayerTwo)
    } else {
        None
    }
}

/// What a move did, as its specification gives it: on `Ok(g)` the move
/// succeeded and left the game as `g`; on `Err(e)` it failed with `e` and the
/// game is as it was.
pub open spec fn outcome(
    before: Game,
    after: Game,
    r: Result<(), GameError>,
    expected: Result<Game, GameError>,
) -> bool {
    match expected {
        Ok(g) => r is Ok && after == g,
        Err(e) => r == Err::<(), GameError>(e) && after == before,
    }
}

/// The seat of the key that signed the move; `NotPlayer` when the key is neither
/// player's.
pub fn call_from(ctx: &Play) -> (r: Result<WhichPlayer, GameError>)
    ensures
        r == (match seat_of(ctx.game, ctx.player@) {
            Some(w) => Ok(w),
            None => Err(GameError::NotPlayer),
        }),
{
    if ctx.player.equals(&ctx.game.players[0].pubkey) {
        Ok(WhichPlayer::PlayerOne)
    } else if ctx.player.equals(&ctx.game.players[1].pubkey) {
        Ok(WhichPlayer::PlayerTwo)
    } else {
        Err(GameError::NotPlayer)
    }
}

/// `NotCurrentPlayer` unless `call_from` is the seat whose turn it is.
pub fn need_call_from_current_player(ctx: &Play, call_from: WhichPlayer) -> (r: Result<(), GameError>)
    ensures
        r == (if call_from == ctx.game.current_player {
            Ok(())
        } else {
            Err(GameError::NotCurrentPlayer)
        }),
{
    if call_from == ctx.game.current_player {
        Ok(())
    } else {
        Err(GameError::NotCurrentPlayer)
    }
}

} // verus!
