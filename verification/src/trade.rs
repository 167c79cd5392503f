use vstd::prelude::*;

use crate::error::GameError;
use crate::game::{board_info, price_table, Bid, Game, PlayerStatus, SquareStatus};
use crate::play::{call_from, outcome, seat_of, Play};

verus! {

broadcast use vstd::array::group_array_axioms;

/// `buy_square`: the current player pays the price of the unowned square it
/// stands on and becomes its owner, with no house on it.
pub open spec fn buy_square_spec(g: Game, caller: Seq<u8>) -> Result<Game, GameError> {
    match seat_of(g, caller) {
        None => Err(GameError::NotPlayer),
        Some(w) => {
            let cur = g.current_player;
            let p = g.player(cur).position as int;
            if w != cur {
                Err(GameError::NotCurrentPlayer)
            } else if g.board_status[p] != SquareStatus::Unowned {
                Err(GameError::AlreadyOwned)
            } else if g.player(cur).balance < price_table()[p] {
                Err(GameError::BalanceNotEnough)
            } else {
                Ok(
                    g.with_balance(cur, (g.player(cur).balance - price_table()[p]) as u16).with_square(
                        p,
                        SquareStatus::Owned { by: cur, level: 0 },
                    ),
                )
            }
        },
    }
}

/// `bid_for_sell`: while the current player sells a square, the player who did
/// not make the standing bid replaces it with its own, provided the standing
/// bid does not exceed the buyer's balance.
pub open spec fn bid_for_sell_spec(g: Game, caller: Seq<u8>, bid_value: u16) -> Result<Game, GameError> {
    match seat_of(g, caller) {
        None => Err(GameError::NotPlayer),
        Some(w) => match g.player_status {
            PlayerStatus::Sell { position, bid } => if w == bid.from {
                Err(GameError::WaitAnotherPlayerBid)
            } else if bid.value > g.player(g.current_player.other()).balance {
                Err(GameError::BalanceNotEnough)
            } else {
                Ok(
                    Game {
                        player_status: PlayerStatus::Sell { position, bid: Bid { from: w, value: bid_value } },
                        ..g
                    },
                )
            },
            _ => Err(GameError::NotInSell),
        },
    }
}

/// `accept_sell_bid`: the player who did not make the standing bid accepts it;
/// the buyer (the player whose turn it is not) pays the bid to the seller
/// (saturating) and takes the square, mortgaged if it was, else unbuilt. The
/// sale stays the game's status.
pub open spec fn accept_sell_bid_spec(g: Game, caller: Seq<u8>) -> Result<Game, GameError> {
    match seat_of(g, caller) {
        None => Err(GameError::NotPlayer),
        Some(w) => match g.player_status {
            PlayerStatus::Sell { position, bid } => {
                let seller = g.current_player;
                let buyer = seller.other();
                let p = position as int;
                if w == bid.from {
                    Err(GameError::WaitAnotherPlayerBid)
                } else if g.player(buyer).balance < bid.value {
                    Err(GameError::BalanceNotEnough)
                } else {
                    let paid = g.with_balance(buyer, (g.player(buyer).balance - bid.value) as u16).with_balance(
                        seller,
                        g.player(seller).balance.saturating_add(bid.value),
                    );
                    let square = match g.board_status[p] {
                        SquareStatus::Mortgaged { .. } => SquareStatus::Mortgaged { by: buyer },
                        _ => SquareStatus::Owned { by: buyer, level: 0 },
                    };
                    Ok(paid.with_square(p, square))
                }
            },
            _ => Err(GameError::NotInSell),
        },
    }
}

/// `reject_sell_bid`: the player who did not make the standing bid ends the
/// sale; the current player continues after moving.
pub open spec fn reject_sell_bid_spec(g: Game, caller: Seq<u8>) -> Result<Game, GameError> {
    match seat_of(g, caller) {
        None => Err(GameError::NotPlayer),
        Some(w) => match g.player_status {
            PlayerStatus::Sell { bid, .. } => if w == bid.from {
                Err(GameError::WaitAnotherPlayerBid)
            } else {
                Ok(Game { player_status: PlayerStatus::AfterMoving, ..g })
            },
            _ => Err(GameError::NotInSell),
        },
    }
}

/// `bid_for_action`: during an auction the player who did not make the
/// standing bid outbids it with a value it can pay.
pub open spec fn bid_for_action_spec(g: Game, caller: Seq<u8>, bid_value: u16) -> Result<Game, GameError> {
    match seat_of(g, caller) {
        None => Err(GameError::NotPlayer),
        Some(w) => match g.player_status {
            PlayerStatus::Action(bid) => if w == bid.from {
                Err(GameError::WaitAnotherPlayerBid)
            } else if bid_value > g.player(w).balance {
                Err(GameError::BalanceNotEnough)
            } else if bid_value <= bid.value {
                Err(GameError::BidValueNotHigher)
            } else {
                Ok(Game { player_status: PlayerStatus::Action(Bid { from: w, value: bid_value }), ..g })
            },
            _ => Err(GameError::NotInAction),
        },
    }
}

/// `accept_action_bid`: the other player gives up the auction; the bidder pays
/// its bid and takes the square the current player stands on, unbuilt, and the
/// turn passes. A bidder who cannot pay loses the game.
pub open spec fn accept_action_bid_spec(g: Game, caller: Seq<u8>) -> Result<Game, GameError> {
    match seat_of(g, caller) {
        None => Err(GameError::NotPlayer),
        Some(w) => match g.player_status {
            PlayerStatus::Action(bid) => if w == bid.from {
                Err(GameError::WaitAnotherPlayerBid)
            } else if g.player(bid.from).balance < bid.value {
                Ok(Game { current_player: bid.from, player_status: PlayerStatus::Lose, ..g })
            } else {
                let cur = g.current_player;
                let p = g.player(cur).position as int;
                let bought = g.with_balance(bid.from, (g.player(bid.from).balance - bid.value) as u16).with_square(
                    p,
                    SquareStatus::Owned { by: bid.from, level: 0 },
                );
                Ok(Game { current_player: cur.other(), player_status: PlayerStatus::BeforeMoving, ..bought })
            },
            _ => Err(GameError::NotInAction),
        },
    }
}

pub fn buy_square(ctx: &mut Play) -> (r: Result<(), GameError>)
    requires
        old(ctx).game.wf(),
    ensures
        outcome(old(ctx).game, final(ctx).game, r, buy_square_spec(old(ctx).game, old(ctx).player@)),
        final(ctx).player == old(ctx).player,
        final(ctx).game.wf(),
{
    let call_from = call_from(ctx)?;
    let current_player = ctx.game.current_player;
    if call_from != current_player {
        return Err(GameError::NotCurrentPlayer);
    }
    let i = current_player.as_index();
    let player_position = ctx.game.players[i].position;
    if ctx.game.board_status[player_position as usize] != SquareStatus::Unowned {
        return Err(GameError::AlreadyOwned);
    }
    let square_price = board_info(player_position).price;
    let new_balance = match ctx.game.players[i].balance.checked_sub(square_price) {
        Some(b) => b,
        None => {
            return Err(GameError::BalanceNotEnough);
        },
    };
    ctx.game.players[i].balance = new_balance;
    ctx.game.board_status[player_position as usize] = SquareStatus::Owned { by: current_player, level: 0 };
    Ok(())
}

pub fn bid_for_sell(ctx: &mut Play, bid_value: u16) -> (r: Result<(), GameError>)
    ensures
        outcome(old(ctx).game, final(ctx).game, r, bid_for_sell_spec(old(ctx).game, old(ctx).player@, bid_value)),
        final(ctx).player == old(ctx).player,
        old(ctx).game.wf() ==> final(ctx).game.wf(),
{
    let call_from = call_from(ctx)?;
    let seller = ctx.game.current_player;
    let buyer_balance = ctx.game.players[seller.either_index()].balance;
    let position = match ctx.game.player_status {
        PlayerStatus::Sell { position, bid } => {
            if call_from == bid.from {
                return Err(GameError::WaitAnotherPlayerBid);
            }
            if bid.value > buyer_balance {
                return Err(GameError::BalanceNotEnough);
            }
            position
        },
        _ => {
            return Err(GameError::NotInSell);
        },
    };
    ctx.game.player_status = PlayerStatus::Sell { position, bid: Bid { from: call_from, value: bid_value } };
    Ok(())
}

pub fn accept_sell_bid(ctx: &mut Play) -> (r: Result<(), GameError>)
    requires
        old(ctx).game.wf(),
    ensures
        outcome(old(ctx).game, final(ctx).game, r, accept_sell_bid_spec(old(ctx).game, old(ctx).player@)),
        final(ctx).player == old(ctx).player,
        final(ctx).game.wf(),
{
    let call_from = call_from(ctx)?;
    let (position, bid_value) = match ctx.game.player_status {
        PlayerStatus::Sell { position, bid } => {
            if call_from == bid.from {
                return Err(GameError::WaitAnotherPlayerBid);
            }
            (position, bid.value)
        },
        _ => {
            return Err(GameError::NotInSell);
        },
    };
    let seller = ctx.game.current_player;
    let buyer = seller.opponent();
    let buyer_new_balance = match ctx.game.players[buyer.as_index()].balance.checked_sub(bid_value) {
        Some(b) => b,
        None => {
            return Err(GameError::BalanceNotEnough);
        },
    };
    let seller_new_balance = ctx.game.players[seller.as_index()].balance.saturating_add(bid_value);
    ctx.game.players[buyer.as_index()].balance = buyer_new_balance;
    ctx.game.players[seller.as_index()].balance = seller_new_balance;
    let new_square_status = match ctx.game.board_status[position as usize] {
        SquareStatus::Mortgaged { .. } => SquareStatus::Mortgaged { by: buyer },
        _ => SquareStatus::Owned { by: buyer, level: 0 },
    };
    ctx.game.board_status[position as usize] = new_square_status;
    Ok(())
}

pub fn reject_sell_bid(ctx: &mut Play) -> (r: Result<(), GameError>)
    ensures
        outcome(old(ctx).game, final(ctx).game, r, reject_sell_bid_spec(old(ctx).game, old(ctx).player@)),
        final(ctx).player == old(ctx).player,
        old(ctx).game.wf() ==> final(ctx).game.wf(),
{
    let call_from = call_from(ctx)?;
    match ctx.game.player_status {
        PlayerStatus::Sell { bid, .. } => {
            if call_from == bid.from {
                return Err(GameError::WaitAnotherPlayerBid);
            }
        },
        _ => {
            return Err(GameError::NotInSell);
        },
    }
    ctx.game.player_status = PlayerStatus::AfterMoving;
    Ok(())
}

pub fn bid_for_action(ctx: &mut Play, bid_value: u16) -> (r: Result<(), GameError>)
    ensures
        outcome(old(ctx).game, final(ctx).game, r, bid_for_action_spec(old(ctx).game, old(ctx).player@, bid_value)),
        final(ctx).player == old(ctx).player,
        old(ctx).game.wf() ==> final(ctx).game.wf(),
{
    let call_from = call_from(ctx)?;
    match ctx.game.player_status {
        PlayerStatus::Action(bid) => {
            if call_from == bid.from {
                return Err(GameError::WaitAnotherPlayerBid);
            }
            let balance = ctx.game.players[call_from.as_index()].balance;
            if bid_value > balance {
                return Err(GameError::BalanceNotEnough);
            }
            if bid_value <= bid.value {
                return Err(GameError::BidValueNotHigher);
            }
        },
        _ => {
            return Err(GameError::NotInAction);
        },
    }
    ctx.game.player_status = PlayerStatus::Action(Bid { from: call_from, value: bid_value });
    Ok(())
}

pub fn accept_action_bid(ctx: &mut Play) -> (r: Result<(), GameError>)
    requires
        old(ctx).game.wf(),
    ensures
        outcome(old(ctx).game, final(ctx).game, r, accept_action_bid_spec(old(ctx).game, old(ctx).player@)),
        final(ctx).player == old(ctx).player,
        final(ctx).game.wf(),
{
    let call_from = call_from(ctx)?;
    let (bid_from, bid_value) = match ctx.game.player_status {
        PlayerStatus::Action(bid) => (bid.from, bid.value),
        _ => {
            return Err(GameError::NotInAction);
        },
    };
    if call_from == bid_from {
        return Err(GameError::WaitAnotherPlayerBid);
    }
    let new_balance = match ctx.game.players[bid_from.as_index()].balance.checked_sub(bid_value) {
        Some(b) => b,
        None => {
            ctx.game.current_player = bid_from;
            ctx.game.player_status = PlayerStatus::Lose;
            return Ok(());
        },
    };
    let current_player = ctx.game.current_player;
    let position = ctx.game.players[current_player.as_index()].position;
    ctx.game.players[bid_from.as_index()].balance = new_balance;
    ctx.game.board_status[position as usize] = SquareStatus::Owned { by: bid_from, level: 0 };
    ctx.game.current_player = current_player.opponent();
    ctx.game.player_status = PlayerStatus::BeforeMoving;
    Ok(())
}

} // verus!
