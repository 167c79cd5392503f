use vstd::prelude::*;

use crate::dice::{commit_dice_hash_spec, commit_dice_plain_overflows, commit_dice_plain_spec, roll_dice_spec};
use crate::error::GameError;
use crate::game::Pubkey;
use crate::play::{outcome, Play};
use crate::property::{mortgage_spec, sell_house_spec, unmortgage_spec};
use crate::trade::{
    accept_action_bid_spec, accept_sell_bid_spec, bid_for_action_spec, bid_for_sell_spec, buy_square_spec,
    reject_sell_bid_spec,
};
use crate::turn::{end_turn_spec, NewGame};

verus! {

// The program's instructions, one per move of the game; each dispatches to
// the move's implementation and carries its contract.

pub fn new_game(ctx: &mut NewGame, player_two: Pubkey) -> (r: Result<(), GameError>)
    ensures
        r is Ok,
        final(ctx).game.is_initial(old(ctx).player_one, player_two),
        final(ctx).player_one == old(ctx).player_one,
        final(ctx).game.wf(),
{
    crate::turn::new_game(ctx, player_two)
}

pub fn roll_dice(ctx: &mut Play) -> (r: Result<(), GameError>)
    ensures
        outcome(old(ctx).game, final(ctx).game, r, roll_dice_spec(old(ctx).game, old(ctx).player@)),
        final(ctx).player == old(ctx).player,
        old(ctx).game.wf() ==> final(ctx).game.wf(),
{
    crate::dice::roll_dice(ctx)
}

pub fn commit_dice_hash(ctx: &mut Play, hash: [u8; 32]) -> (r: Result<(), GameError>)
    ensures
        outcome(old(ctx).game, final(ctx).game, r, commit_dice_hash_spec(old(ctx).game, old(ctx).player@, hash)),
        final(ctx).player == old(ctx).player,
        old(ctx).game.wf() ==> final(ctx).game.wf(),
{
    crate::dice::commit_dice_hash(ctx, hash)
}

pub fn commit_dice_plain(ctx: &mut Play, random_num: u16, salt: [u8; 32]) -> (r: Result<(), GameError>)
    requires
        old(ctx).game.wf(),
        !commit_dice_plain_overflows(old(ctx).game, old(ctx).player@, random_num, salt),
    ensures
        outcome(old(ctx).game, final(ctx).game, r, commit_dice_plain_spec(old(ctx).game, old(ctx).player@, random_num, salt)),
        final(ctx).player == old(ctx).player,
        final(ctx).game.wf(),
{
    crate::dice::commit_dice_plain(ctx, random_num, salt)
}

pub fn buy_square(ctx: &mut Play) -> (r: Result<(), GameError>)
    requires
        old(ctx).game.wf(),
    ensures
        outcome(old(ctx).game, final(ctx).game, r, buy_square_spec(old(ctx).game, old(ctx).player@)),
        final(ctx).player == old(ctx).player,
        final(ctx).game.wf(),
{
    crate::trade::buy_square(ctx)
}

pub fn sell_house(ctx: &mut Play, house_position: u8) -> (r: Result<(), GameError>)
    requires
        old(ctx).game.wf(),
    ensures
        outcome(old(ctx).game, final(ctx).game, r, sell_house_spec(old(ctx).game, old(ctx).player@, house_position)),
        final(ctx).player == old(ctx).player,
        final(ctx).game.wf(),
{
    crate::property::sell_house(ctx, house_position)
}

pub fn bid_for_sell(ctx: &mut Play, bid_value: u16) -> (r: Result<(), GameError>)
    ensures
        outcome(old(ctx).game, final(ctx).game, r, bid_for_sell_spec(old(ctx).game, old(ctx).player@, bid_value)),
        final(ctx).player == old(ctx).player,
        old(ctx).game.wf() ==> final(ctx).game.wf(),
{
    crate::trade::bid_for_sell(ctx, bid_value)
}

pub fn accept_sell_bid(ctx: &mut Play) -> (r: Result<(), GameError>)
    requires
        old(ctx).game.wf(),
    ensures
        outcome(old(ctx).game, final(ctx).game, r, accept_sell_bid_spec(old(ctx).game, old(ctx).player@)),
        final(ctx).player == old(ctx).player,
        final(ctx).game.wf(),
{
    crate::trade::accept_sell_bid(ctx)
}

pub fn reject_sell_bid(ctx: &mut Play) -> (r: Result<(), GameError>)
    ensures
        outcome(old(ctx).game, final(ctx).game, r, reject_sell_bid_spec(old(ctx).game, old(ctx).player@)),
        final(ctx).player == old(ctx).player,
        old(ctx).game.wf() ==> final(ctx).game.wf(),
{
    crate::trade::reject_sell_bid(ctx)
}

pub fn mortgage(ctx: &mut Play, square_position: u8) -> (r: Result<(), GameError>)
    requires
        old(ctx).game.wf(),
    ensures
        outcome(old(ctx).game, final(ctx).game, r, mortgage_spec(old(ctx).game, old(ctx).player@, square_position)),
        final(ctx).player == old(ctx).player,
        final(ctx).game.wf(),
{
    crate::property::mortgage(ctx, square_position)
}

pub fn unmortgage(ctx: &mut Play, square_position: u8) -> (r: Result<(), GameError>)
    requires
        old(ctx).game.wf(),
    ensures
        outcome(old(ctx).game, final(ctx).game, r, unmortgage_spec(old(ctx).game, old(ctx).player@, square_position)),
        final(ctx).player == old(ctx).player,
        final(ctx).game.wf(),
{
    crate::property::unmortgage(ctx, square_position)
}

pub fn bid_for_action(ctx: &mut Play, bid_value: u16) -> (r: Result<(), GameError>)
    ensures
        outcome(old(ctx).game, final(ctx).game, r, bid_for_action_spec(old(ctx).game, old(ctx).player@, bid_value)),
        final(ctx).player == old(ctx).player,
        old(ctx).game.wf() ==> final(ctx).game.wf(),
{
    crate::trade::bid_for_action(ctx, bid_value)
}

pub fn accept_action_bid(ctx: &mut Play) -> (r: Result<(), GameError>)
    requires
        old(ctx).game.wf(),
    ensures
        outcome(old(ctx).game, final(ctx).game, r, accept_action_bid_spec(old(ctx).game, old(ctx).player@)),
        final(ctx).player == old(ctx).player,
        final(ctx).game.wf(),
{
    crate::trade::accept_action_bid(ctx)
}

pub fn end_turn(ctx: &mut Play) -> (r: Result<(), GameError>)
    requires
        old(ctx).game.wf(),
    ensures
        outcome(old(ctx).game, final(ctx).game, r, end_turn_spec(old(ctx).game, old(ctx).player@)),
        final(ctx).player == old(ctx).player,
        final(ctx).game.wf(),
{
    crate::turn::end_turn(ctx)
}

} // verus!