use vstd::prelude::*;

use crate::board::{holds_group, is_monopoly};
use crate::error::GameError;
use crate::game::{board_info, color_of, rent_table, Bid, Game, PlayerStatus, Pubkey, SquareStatus, WhichPlayer};
use crate::play::{call_from, outcome, seat_of, Play};

verus! {

broadcast use vstd::array::group_array_axioms;

/// The rent for landing on the square at `position` owned by `owner` at house
/// level `level`: the level's entry of the rent row, and twice the base rent on
/// an unbuilt square whose whole colour group `owner` holds.
pub open spec fn rent_due(g: Game, owner: WhichPlayer, position: int, level: u8) -> u16 {
    if level == 0 {
        if holds_group(g, owner, color_of(position)) {
            (rent_table(position)[0] * 2) as u16
        } else {
            rent_table(position)[0]
        }
    } else {
        rent_table(position)[level as int]
    }
}

/// `end_turn`: the current player ends its turn on the square it stands on.
/// On an unowned square an auction opens with a zero bid from the other
/// player. On a square of the other player the current player pays the rent
/// and, when it cannot, loses. Otherwise the turn passes to the other player.
pub open spec fn end_turn_spec(g: Game, caller: Seq<u8>) -> Result<Game, GameError> {
    match seat_of(g, caller) {
        None => Err(GameError::NotPlayer),
        Some(w) => {
            let cur = g.current_player;
            let next = cur.other();
            let p = g.player(cur).position as int;
            if w != cur {
                Err(GameError::NotCurrentPlayer)
            } else {
                match g.board_status[p] {
                    SquareStatus::Unowned => Ok(
                        Game { player_status: PlayerStatus::Action(Bid { from: next, value: 0 }), ..g },
                    ),
                    SquareStatus::Owned { by, level } => if by == cur {
                        Ok(Game { current_player: next, player_status: PlayerStatus::BeforeMoving, ..g })
                    } else {
                        let rent = rent_due(g, next, p, level);
                        if g.player(cur).balance < rent {
                            Ok(Game { player_status: PlayerStatus::Lose, ..g })
                        } else {
                            let paid = g.with_balance(cur, (g.player(cur).balance - rent) as u16);
                            Ok(Game { current_player: next, player_status: PlayerStatus::BeforeMoving, ..paid })
                        }
                    },
                    SquareStatus::Mortgaged { .. } => Ok(Game { current_player: next, player_status: PlayerStatus::BeforeMoving, ..g }),
                }
            }
        },
    }
}

pub fn end_turn(ctx: &mut Play) -> (r: Result<(), GameError>)
    requires
        old(ctx).game.wf(),
    ensures
        outcome(old(ctx).game, final(ctx).game, r, end_turn_spec(old(ctx).game, old(ctx).player@)),
        final(ctx).player == old(ctx).player,
        final(ctx).game.wf(),
{
    let call_from = call_from(ctx)?;
    let current_player = ctx.game.current_player;
    if call_from != current_player {
        return Err(GameError::NotCurrentPlayer);
    }
    let next_player = current_player.opponent();
    let i = current_player.as_index();
    let position = ctx.game.players[i].position;
    let square_info = board_info(position);
    match ctx.game.board_status[position as usize] {
        SquareStatus::Unowned => {
            ctx.game.player_status = PlayerStatus::Action(Bid { from: next_player, value: 0 });
            return Ok(());
        },
        SquareStatus::Owned { by, level } => {
            if by != current_player {
                let rent = if level == 0 {
                    if is_monopoly(&ctx.game, next_player, square_info.color) {
                        square_info.rent[0] * 2
                    } else {
                        square_info.rent[0]
                    }
                } else {
                    square_info.rent[level as usize]
                };
                let new_balance = match ctx.game.players[i].balance.checked_sub(rent) {
                    Some(b) => b,
                    None => {
                        ctx.game.player_status = PlayerStatus::Lose;
                        return Ok(());
                    },
                };
                ctx.game.players[i].balance = new_balance;
            }
        },
        SquareStatus::Mortgaged { .. } => {},
    }
    ctx.game.current_player = next_player;
    ctx.game.player_status = PlayerStatus::BeforeMoving;
    Ok(())
}

/// The accounts of opening a game: the game account and the key of player one,
/// who signs.
#[derive(Clone, Copy, Debug)]
pub struct NewGame {
    pub game: Game,
    pub player_one: Pubkey,
}

/// Opens the game between the signer and `player_two`.
pub fn new_game(ctx: &mut NewGame, player_two: Pubkey) -> (r: Result<(), GameError>)
    ensures
        r is Ok,
        final(ctx).game.is_initial(old(ctx).player_one, player_two),
        final(ctx).player_one == old(ctx).player_one,
        final(ctx).game.wf(),
{
    let new_game = Game::new(ctx.player_one, player_two);
    ctx.game = new_game;
    Ok(())
}

} // verus!
