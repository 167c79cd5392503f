use vstd::prelude::*;

use crate::board::{group_unbuilt, highest_level, is_unbuilt, max_group_level};
use crate::error::GameError;
use crate::game::{board_info, color_of, house_price_table, Game, SquareStatus, BOARD_SIZE};
use crate::play::{call_from, outcome, seat_of, Play};

verus! {

broadcast use vstd::array::group_array_axioms;

/// What a mortgage is worth: half the house price of the square.
pub open spec fn mortgage_value(position: int) -> u16 {
    (house_price_table()[position] / 2) as u16
}

/// What lifting a mortgage costs: the mortgage value and a tenth of it.
pub open spec fn unmortgage_cost(position: int) -> u16 {
    (mortgage_value(position) + mortgage_value(position) / 10) as u16
}

/// `mortgage`: the current player mortgages a square it owns, when no square of
/// that colour carries one of its houses; it receives the mortgage value
/// (saturating at the largest balance).
pub open spec fn mortgage_spec(g: Game, caller: Seq<u8>, square_position: u8) -> Result<Game, GameError> {
    match seat_of(g, caller) {
        None => Err(GameError::NotPlayer),
        Some(w) => {
            let cur = g.current_player;
            let p = square_position as int;
            if w != cur {
                Err(GameError::NotCurrentPlayer)
            } else if square_position >= BOARD_SIZE {
                Err(GameError::PositionOutOfBound)
            } else {
                match g.board_status[p] {
                    SquareStatus::Owned { by, .. } => if by != cur {
                        Err(GameError::NotOwned)
                    } else if !group_unbuilt(g, cur, color_of(p)) {
                        Err(GameError::LevelNotAllowed)
                    } else {
                        Ok(
                            g.with_balance(cur, g.player(cur).balance.saturating_add(mortgage_value(p))).with_square(
                                p,
                                SquareStatus::Mortgaged { by: cur },
                            ),
                        )
                    },
                    _ => Err(GameError::NotOwned),
                }
            }
        },
    }
}

/// `unmortgage`: the current player lifts the mortgage on one of its squares,
/// paying the mortgage value and a tenth; the square is owned again, unbuilt.
pub open spec fn unmortgage_spec(g: Game, caller: Seq<u8>, square_position: u8) -> Result<Game, GameError> {
    match seat_of(g, caller) {
        None => Err(GameError::NotPlayer),
        Some(w) => {
            let cur = g.current_player;
            let p = square_position as int;
            if w != cur {
                Err(GameError::NotCurrentPlayer)
            } else if square_position >= BOARD_SIZE {
                Err(GameError::PositionOutOfBound)
            } else {
                match g.board_status[p] {
                    SquareStatus::Mortgaged { by } => if by != cur {
                        Err(GameError::NotOwned)
                    } else if g.player(cur).balance < unmortgage_cost(p) {
                        Err(GameError::BalanceNotEnough)
                    } else {
                        Ok(
                            g.with_balance(cur, (g.player(cur).balance - unmortgage_cost(p)) as u16).with_square(
                                p,
                                SquareStatus::Owned { by: cur, level: 0 },
                            ),
                        )
                    },
                    _ => Err(GameError::NotMortgaged),
                }
            }
        },
    }
}

/// `sell_house`: the current player takes one house off one of its squares,
/// which must keep at least one less than the highest level it has on that
/// colour; it receives half the house price (saturating).
pub open spec fn sell_house_spec(g: Game, caller: Seq<u8>, house_position: u8) -> Result<Game, GameError> {
    match seat_of(g, caller) {
        None => Err(GameError::NotPlayer),
        Some(w) => {
            let cur = g.current_player;
            let p = house_position as int;
            if w != cur {
                Err(GameError::NotCurrentPlayer)
            } else if house_position >= BOARD_SIZE {
                Err(GameError::PositionOutOfBound)
            } else {
                match g.board_status[p] {
                    SquareStatus::Owned { by, level } => if by != cur {
                        Err(GameError::NotOwned)
                    } else if level == 0 {
                        Err(GameError::LevelNotAllowed)
                    } else if level - 1 < max_group_level(g, cur, color_of(p), BOARD_SIZE as nat).saturating_sub(1) {
                        Err(GameError::LevelNotAllowed)
                    } else {
                        Ok(
                            g.with_balance(cur, g.player(cur).balance.saturating_add(mortgage_value(p))).with_square(
                                p,
                                SquareStatus::Owned { by, level: (level - 1) as u8 },
                            ),
                        )
                    },
                    _ => Err(GameError::NotOwned),
                }
            }
        },
    }
}

pub fn mortgage(ctx: &mut Play, square_position: u8) -> (r: Result<(), GameError>)
    requires
        old(ctx).game.wf(),
    ensures
        outcome(old(ctx).game, final(ctx).game, r, mortgage_spec(old(ctx).game, old(ctx).player@, square_position)),
        final(ctx).player == old(ctx).player,
        final(ctx).game.wf(),
{
    let call_from = call_from(ctx)?;
    let current_player = ctx.game.current_player;
    if call_from != current_player {
        return Err(GameError::NotCurrentPlayer);
    }
    if square_position >= BOARD_SIZE {
        return Err(GameError::PositionOutOfBound);
    }
    let target_square_info = board_info(square_position);
    match ctx.game.board_status[square_position as usize] {
        SquareStatus::Owned { by, .. } => {
            if by != current_player {
                return Err(GameError::NotOwned);
            }
            if !is_unbuilt(&ctx.game, current_player, target_square_info.color) {
                return Err(GameError::LevelNotAllowed);
            }
        },
        _ => {
            return Err(GameError::NotOwned);
        },
    }
    let mortgage_value = target_square_info.house_price / 2;
    let i = current_player.as_index();
    let new_balance = ctx.game.players[i].balance.saturating_add(mortgage_value);
    ctx.game.players[i].balance = new_balance;
    ctx.game.board_status[square_position as usize] = SquareStatus::Mortgaged { by: current_player };
    Ok(())
}

pub fn unmortgage(ctx: &mut Play, square_position: u8) -> (r: Result<(), GameError>)
    requires
        old(ctx).game.wf(),
    ensures
        outcome(old(ctx).game, final(ctx).game, r, unmortgage_spec(old(ctx).game, old(ctx).player@, square_position)),
        final(ctx).player == old(ctx).player,
        final(ctx).game.wf(),
{
    let call_from = call_from(ctx)?;
    let current_player = ctx.game.current_player;
    if call_from != current_player {
        return Err(GameError::NotCurrentPlayer);
    }
    if square_position >= BOARD_SIZE {
        return Err(GameError::PositionOutOfBound);
    }
    match ctx.game.board_status[square_position as usize] {
        SquareStatus::Mortgaged { by } => {
            if by != current_player {
                return Err(GameError::NotOwned);
            }
        },
        _ => {
            return Err(GameError::NotMortgaged);
        },
    }
    let mortgage_value = board_info(square_position).house_price / 2;
    let i = current_player.as_index();
    let new_balance = match ctx.game.players[i].balance.checked_sub(mortgage_value + (mortgage_value / 10)) {
        Some(b) => b,
        None => {
            return Err(GameError::BalanceNotEnough);
        },
    };
    ctx.game.players[i].balance = new_balance;
    ctx.game.board_status[square_position as usize] = SquareStatus::Owned { by: current_player, level: 0 };
    Ok(())
}

pub fn sell_house(ctx: &mut Play, house_position: u8) -> (r: Result<(), GameError>)
    requires
        old(ctx).game.wf(),
    ensures
        outcome(old(ctx).game, final(ctx).game, r, sell_house_spec(old(ctx).game, old(ctx).player@, house_position)),
        final(ctx).player == old(ctx).player,
        final(ctx).game.wf(),
{
    let call_from = call_from(ctx)?;
    let current_player = ctx.game.current_player;
    if call_from != current_player {
        return Err(GameError::NotCurrentPlayer);
    }
    if house_position >= BOARD_SIZE {
        return Err(GameError::PositionOutOfBound);
    }
    let target_square_info = board_info(house_position);
    let new_square_status = match ctx.game.board_status[house_position as usize] {
        SquareStatus::Owned { by, level } => {
            if by != current_player {
                return Err(GameError::NotOwned);
            }
            let allowed_level = highest_level(&ctx.game, current_player, target_square_info.color).saturating_sub(1);
            let new_level = match level.checked_sub(1) {
                Some(l) => l,
                None => {
                    return Err(GameError::LevelNotAllowed);
                },
            };
            if new_level < allowed_level {
                return Err(GameError::LevelNotAllowed);
            }
            SquareStatus::Owned { by, level: new_level }
        },
        _ => {
            return Err(GameError::NotOwned);
        },
    };
    let sell_price = target_square_info.house_price / 2;
    let i = current_player.as_index();
    let new_balance = ctx.game.players[i].balance.saturating_add(sell_price);
    ctx.game.players[i].balance = new_balance;
    ctx.game.board_status[house_position as usize] = new_square_status;
    Ok(())
}

} // verus!
