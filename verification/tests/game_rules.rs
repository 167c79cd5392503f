use monopoly::client::winner;
use monopoly::error::GameError;
use monopoly::game::{board_info, Bid, Game, PlayerStatus, Pubkey, SquareColor, SquareStatus, WhichPlayer};
use monopoly::monopoly_program;
use monopoly::play::{call_from, need_call_from_current_player, Play};
use monopoly::property::{mortgage, sell_house, unmortgage};
use monopoly::trade::{accept_action_bid, accept_sell_bid, bid_for_action, bid_for_sell, buy_square, reject_sell_bid};
use monopoly::turn::{end_turn, new_game, NewGame};

fn key(n: u8) -> Pubkey {
    Pubkey::new_from_array([n; 32])
}

fn play(game: Game, signer: u8) -> Play {
    Play { game, player: key(signer) }
}

fn fresh() -> Game {
    Game::new(key(1), key(2))
}

const ONE: WhichPlayer = WhichPlayer::PlayerOne;
const TWO: WhichPlayer = WhichPlayer::PlayerTwo;

#[test]
fn new_game_opens_the_table() {
    let mut ctx = NewGame { game: fresh(), player_one: key(7) };
    ctx.game.players[0].balance = 3;
    assert_eq!(new_game(&mut ctx, key(8)), Ok(()));
    let g = ctx.game;
    assert_eq!(g.players[0].pubkey.to_bytes(), [7; 32]);
    assert_eq!(g.players[1].pubkey.to_bytes(), [8; 32]);
    assert_eq!(g.players[0].balance, 1500);
    assert_eq!(g.players[1].balance, 1500);
    assert_eq!(g.players[0].position, 0);
    assert_eq!(g.players[1].position, 0);
    assert_eq!(g.current_player, ONE);
    assert_eq!(g.player_status, PlayerStatus::BeforeMoving);
    assert!(matches!(g.dice_status, monopoly::game::DiceStatus::Rolled(6)));
    assert!(g.board_status.iter().all(|s| *s == SquareStatus::Unowned));
    assert_eq!(SquareStatus::default(), SquareStatus::Unowned);
}

#[test]
fn seats_and_indices() {
    assert_eq!(ONE.as_index(), 0);
    assert_eq!(TWO.as_index(), 1);
    assert_eq!(ONE.either_index(), 1);
    assert_eq!(TWO.either_index(), 0);
    assert_eq!(ONE.opponent(), TWO);
    assert_eq!(TWO.opponent(), ONE);
}

#[test]
fn call_from_finds_the_signers_seat() {
    assert_eq!(call_from(&play(fresh(), 1)), Ok(ONE));
    assert_eq!(call_from(&play(fresh(), 2)), Ok(TWO));
    assert_eq!(call_from(&play(fresh(), 3)), Err(GameError::NotPlayer));
    assert_eq!(need_call_from_current_player(&play(fresh(), 1), ONE), Ok(()));
    assert_eq!(need_call_from_current_player(&play(fresh(), 1), TWO), Err(GameError::NotCurrentPlayer));
}

#[test]
fn a_stranger_is_refused_by_every_move() {
    let mut g = fresh();
    g.player_status = PlayerStatus::Action(Bid { from: ONE, value: 1 });
    let mut ctx = play(g, 9);
    assert_eq!(buy_square(&mut ctx), Err(GameError::NotPlayer));
    assert_eq!(end_turn(&mut ctx), Err(GameError::NotPlayer));
    assert_eq!(mortgage(&mut ctx, 0), Err(GameError::NotPlayer));
    assert_eq!(unmortgage(&mut ctx, 0), Err(GameError::NotPlayer));
    assert_eq!(sell_house(&mut ctx, 0), Err(GameError::NotPlayer));
    assert_eq!(bid_for_action(&mut ctx, 5), Err(GameError::NotPlayer));
    assert_eq!(accept_action_bid(&mut ctx), Err(GameError::NotPlayer));
    assert_eq!(bid_for_sell(&mut ctx, 5), Err(GameError::NotPlayer));
    assert_eq!(accept_sell_bid(&mut ctx), Err(GameError::NotPlayer));
    assert_eq!(reject_sell_bid(&mut ctx), Err(GameError::NotPlayer));
    assert_eq!(ctx.game.player_status, PlayerStatus::Action(Bid { from: ONE, value: 1 }));
}

#[test]
fn only_the_current_player_moves() {
    let mut ctx = play(fresh(), 2);
    assert_eq!(buy_square(&mut ctx), Err(GameError::NotCurrentPlayer));
    assert_eq!(end_turn(&mut ctx), Err(GameError::NotCurrentPlayer));
    assert_eq!(mortgage(&mut ctx, 0), Err(GameError::NotCurrentPlayer));
    assert_eq!(unmortgage(&mut ctx, 0), Err(GameError::NotCurrentPlayer));
    assert_eq!(sell_house(&mut ctx, 0), Err(GameError::NotCurrentPlayer));
}

#[test]
fn the_board_table() {
    let info = board_info(0);
    assert_eq!((info.price, info.house_price, info.rent), (60, 50, [2, 10, 30, 90, 160, 250]));
    assert_eq!(info.color, SquareColor::Red);
    let info = board_info(15);
    assert_eq!((info.price, info.house_price, info.rent), (260, 150, [22, 110, 330, 800, 975, 1150]));
    assert_eq!(info.color, SquareColor::Green);
    assert_eq!(board_info(5).color, SquareColor::Yellow);
    assert_eq!(board_info(10).color, SquareColor::Blue);
    assert_eq!(board_info(7).price, 160);
}

#[test]
fn buying_the_square_one_stands_on() {
    let mut g = fresh();
    g.players[0].position = 4;
    let mut ctx = play(g, 1);
    assert_eq!(buy_square(&mut ctx), Ok(()));
    assert_eq!(ctx.game.players[0].balance, 1500 - 120);
    assert_eq!(ctx.game.players[1].balance, 1500);
    assert_eq!(ctx.game.board_status[4], SquareStatus::Owned { by: ONE, level: 0 });
    assert_eq!(buy_square(&mut ctx), Err(GameError::AlreadyOwned));
    assert_eq!(end_turn(&mut ctx), Ok(()));
    assert_eq!(ctx.game.current_player, TWO);
    assert_eq!(ctx.game.player_status, PlayerStatus::BeforeMoving);
    assert_eq!(ctx.game.players[0].balance, 1380);
}

#[test]
fn buying_an_owned_square_is_refused() {
    let mut g = fresh();
    g.board_status[0] = SquareStatus::Owned { by: TWO, level: 0 };
    let mut ctx = play(g, 1);
    assert_eq!(buy_square(&mut ctx), Err(GameError::AlreadyOwned));
    ctx.game.board_status[0] = SquareStatus::Mortgaged { by: ONE };
    assert_eq!(buy_square(&mut ctx), Err(GameError::AlreadyOwned));
}

#[test]
fn buying_without_the_money_is_refused() {
    let mut g = fresh();
    g.players[0].balance = 59;
    let mut ctx = play(g, 1);
    assert_eq!(buy_square(&mut ctx), Err(GameError::BalanceNotEnough));
    assert_eq!(ctx.game.players[0].balance, 59);
    assert_eq!(ctx.game.board_status[0], SquareStatus::Unowned);
}

#[test]
fn ending_on_an_unowned_square_opens_an_auction() {
    let mut ctx = play(fresh(), 1);
    assert_eq!(end_turn(&mut ctx), Ok(()));
    assert_eq!(ctx.game.player_status, PlayerStatus::Action(Bid { from: TWO, value: 0 }));
    assert_eq!(ctx.game.current_player, ONE);
}

#[test]
fn ending_on_an_own_square_passes_the_turn() {
    let mut g = fresh();
    g.board_status[0] = SquareStatus::Owned { by: ONE, level: 2 };
    g.player_status = PlayerStatus::AfterMoving;
    let mut ctx = play(g, 1);
    assert_eq!(end_turn(&mut ctx), Ok(()));
    assert_eq!(ctx.game.current_player, TWO);
    assert_eq!(ctx.game.player_status, PlayerStatus::BeforeMoving);
    assert_eq!(ctx.game.players[0].balance, 1500);
}

#[test]
fn ending_on_a_mortgaged_square_is_free() {
    let mut g = fresh();
    g.board_status[0] = SquareStatus::Mortgaged { by: TWO };
    let mut ctx = play(g, 1);
    assert_eq!(end_turn(&mut ctx), Ok(()));
    assert_eq!(ctx.game.current_player, TWO);
    assert_eq!(ctx.game.players[0].balance, 1500);
}

#[test]
fn rent_on_an_unbuilt_square() {
    let mut g = fresh();
    g.players[0].position = 5;
    g.board_status[5] = SquareStatus::Owned { by: TWO, level: 0 };
    let mut ctx = play(g, 1);
    assert_eq!(end_turn(&mut ctx), Ok(()));
    assert_eq!(ctx.game.players[0].balance, 1490);
    assert_eq!(ctx.game.players[1].balance, 1500);
    assert_eq!(ctx.game.current_player, TWO);
}

#[test]
fn rent_is_doubled_on_a_monopoly() {
    let mut g = fresh();
    g.players[0].position = 5;
    g.board_status[1] = SquareStatus::Owned { by: TWO, level: 0 };
    g.board_status[5] = SquareStatus::Owned { by: TWO, level: 0 };
    g.board_status[9] = SquareStatus::Mortgaged { by: TWO };
    g.board_status[13] = SquareStatus::Owned { by: TWO, level: 1 };
    let mut ctx = play(g, 1);
    assert_eq!(end_turn(&mut ctx), Ok(()));
    assert_eq!(ctx.game.players[0].balance, 1480);
}

#[test]
fn rent_follows_the_house_level() {
    let mut g = fresh();
    g.players[0].position = 15;
    g.board_status[15] = SquareStatus::Owned { by: TWO, level: 5 };
    let mut ctx = play(g, 1);
    assert_eq!(end_turn(&mut ctx), Ok(()));
    assert_eq!(ctx.game.players[0].balance, 350);
}

#[test]
fn a_player_who_cannot_pay_rent_loses() {
    let mut g = fresh();
    g.players[0].position = 15;
    g.players[0].balance = 1149;
    g.board_status[15] = SquareStatus::Owned { by: TWO, level: 5 };
    let mut ctx = play(g, 1);
    assert_eq!(end_turn(&mut ctx), Ok(()));
    assert_eq!(ctx.game.player_status, PlayerStatus::Lose);
    assert_eq!(ctx.game.current_player, ONE);
    assert_eq!(ctx.game.players[0].balance, 1149);
    assert_eq!(winner(&ctx.game), Some(TWO));
}

fn auction(bid: Bid) -> Game {
    let mut g = fresh();
    g.players[0].position = 3;
    g.player_status = PlayerStatus::Action(bid);
    g
}

#[test]
fn auction_bids_must_rise() {
    let mut ctx = play(auction(Bid { from: TWO, value: 10 }), 1);
    assert_eq!(bid_for_action(&mut ctx, 10), Err(GameError::BidValueNotHigher));
    assert_eq!(bid_for_action(&mut ctx, 1501), Err(GameError::BalanceNotEnough));
    assert_eq!(bid_for_action(&mut ctx, 11), Ok(()));
    assert_eq!(ctx.game.player_status, PlayerStatus::Action(Bid { from: ONE, value: 11 }));
    assert_eq!(bid_for_action(&mut ctx, 12), Err(GameError::WaitAnotherPlayerBid));
}

#[test]
fn auction_moves_need_an_auction() {
    let mut ctx = play(fresh(), 1);
    assert_eq!(bid_for_action(&mut ctx, 10), Err(GameError::NotInAction));
    assert_eq!(accept_action_bid(&mut ctx), Err(GameError::NotInAction));
}

#[test]
fn giving_up_an_auction_sells_the_square_to_the_bidder() {
    let mut ctx = play(auction(Bid { from: TWO, value: 40 }), 2);
    assert_eq!(accept_action_bid(&mut ctx), Err(GameError::WaitAnotherPlayerBid));
    let mut ctx = play(auction(Bid { from: ONE, value: 40 }), 2);
    assert_eq!(accept_action_bid(&mut ctx), Ok(()));
    assert_eq!(ctx.game.players[0].balance, 1460);
    assert_eq!(ctx.game.board_status[3], SquareStatus::Owned { by: ONE, level: 0 });
    assert_eq!(ctx.game.current_player, TWO);
    assert_eq!(ctx.game.player_status, PlayerStatus::BeforeMoving);
}

#[test]
fn a_bidder_who_cannot_pay_loses() {
    let mut g = auction(Bid { from: TWO, value: 40 });
    g.players[1].balance = 39;
    let mut ctx = play(g, 1);
    assert_eq!(accept_action_bid(&mut ctx), Ok(()));
    assert_eq!(ctx.game.player_status, PlayerStatus::Lose);
    assert_eq!(ctx.game.current_player, TWO);
    assert_eq!(ctx.game.board_status[3], SquareStatus::Unowned);
    assert_eq!(ctx.game.players[1].balance, 39);
    assert_eq!(winner(&ctx.game), Some(ONE));
}

fn on_sale(position: u8, bid: Bid) -> Game {
    let mut g = fresh();
    g.board_status[position as usize] = SquareStatus::Owned { by: ONE, level: 0 };
    g.player_status = PlayerStatus::Sell { position, bid };
    g
}

#[test]
fn sale_moves_need_a_sale() {
    let mut ctx = play(fresh(), 2);
    assert_eq!(bid_for_sell(&mut ctx, 1), Err(GameError::NotInSell));
    assert_eq!(accept_sell_bid(&mut ctx), Err(GameError::NotInSell));
    assert_eq!(reject_sell_bid(&mut ctx), Err(GameError::NotInSell));
}

#[test]
fn counter_bids_in_a_sale() {
    let mut ctx = play(on_sale(4, Bid { from: ONE, value: 100 }), 2);
    assert_eq!(bid_for_sell(&mut ctx, 80), Ok(()));
    assert_eq!(ctx.game.player_status, PlayerStatus::Sell { position: 4, bid: Bid { from: TWO, value: 80 } });
    assert_eq!(bid_for_sell(&mut ctx, 70), Err(GameError::WaitAnotherPlayerBid));
}

#[test]
fn a_sale_bid_above_the_buyers_balance_blocks_counter_bids() {
    let mut g = on_sale(4, Bid { from: ONE, value: 100 });
    g.players[1].balance = 99;
    let mut ctx = play(g, 2);
    assert_eq!(bid_for_sell(&mut ctx, 50), Err(GameError::BalanceNotEnough));
}

#[test]
fn accepting_a_sale_transfers_money_and_square() {
    let mut ctx = play(on_sale(4, Bid { from: ONE, value: 100 }), 2);
    assert_eq!(accept_sell_bid(&mut ctx), Ok(()));
    assert_eq!(ctx.game.players[0].balance, 1600);
    assert_eq!(ctx.game.players[1].balance, 1400);
    assert_eq!(ctx.game.players[0].balance as u32 + ctx.game.players[1].balance as u32, 3000);
    assert_eq!(ctx.game.board_status[4], SquareStatus::Owned { by: TWO, level: 0 });
}

#[test]
fn a_mortgaged_square_is_sold_mortgaged() {
    let mut g = on_sale(4, Bid { from: ONE, value: 100 });
    g.board_status[4] = SquareStatus::Mortgaged { by: ONE };
    let mut ctx = play(g, 2);
    assert_eq!(accept_sell_bid(&mut ctx), Ok(()));
    assert_eq!(ctx.game.board_status[4], SquareStatus::Mortgaged { by: TWO });
}

#[test]
fn accepting_a_sale_needs_the_buyers_money() {
    let mut g = on_sale(4, Bid { from: ONE, value: 100 });
    g.players[1].balance = 99;
    let mut ctx = play(g, 2);
    assert_eq!(accept_sell_bid(&mut ctx), Err(GameError::BalanceNotEnough));
    let mut ctx = play(on_sale(4, Bid { from: ONE, value: 100 }), 1);
    assert_eq!(accept_sell_bid(&mut ctx), Err(GameError::WaitAnotherPlayerBid));
}

#[test]
fn the_seller_balance_saturates() {
    let mut g = on_sale(4, Bid { from: ONE, value: 100 });
    g.players[0].balance = 65500;
    let mut ctx = play(g, 2);
    assert_eq!(accept_sell_bid(&mut ctx), Ok(()));
    assert_eq!(ctx.game.players[0].balance, 65535);
}

#[test]
fn rejecting_a_sale() {
    let mut ctx = play(on_sale(4, Bid { from: ONE, value: 100 }), 1);
    assert_eq!(reject_sell_bid(&mut ctx), Err(GameError::WaitAnotherPlayerBid));
    ctx.player = key(2);
    assert_eq!(reject_sell_bid(&mut ctx), Ok(()));
    assert_eq!(ctx.game.player_status, PlayerStatus::AfterMoving);
}

#[test]
fn mortgaging_an_own_unbuilt_square() {
    let mut g = fresh();
    g.board_status[6] = SquareStatus::Owned { by: ONE, level: 0 };
    let mut ctx = play(g, 1);
    assert_eq!(mortgage(&mut ctx, 6), Ok(()));
    assert_eq!(ctx.game.players[0].balance, 1550);
    assert_eq!(ctx.game.board_status[6], SquareStatus::Mortgaged { by: ONE });
    assert_eq!(unmortgage(&mut ctx, 6), Ok(()));
    assert_eq!(ctx.game.players[0].balance, 1495);
    assert_eq!(ctx.game.board_status[6], SquareStatus::Owned { by: ONE, level: 0 });
}

#[test]
fn mortgage_refusals() {
    let mut g = fresh();
    g.board_status[2] = SquareStatus::Owned { by: ONE, level: 0 };
    g.board_status[6] = SquareStatus::Owned { by: ONE, level: 1 };
    g.board_status[3] = SquareStatus::Owned { by: TWO, level: 0 };
    g.board_status[7] = SquareStatus::Mortgaged { by: ONE };
    let mut ctx = play(g, 1);
    assert_eq!(mortgage(&mut ctx, 16), Err(GameError::PositionOutOfBound));
    assert_eq!(mortgage(&mut ctx, 0), Err(GameError::NotOwned));
    assert_eq!(mortgage(&mut ctx, 3), Err(GameError::NotOwned));
    assert_eq!(mortgage(&mut ctx, 7), Err(GameError::NotOwned));
    assert_eq!(mortgage(&mut ctx, 2), Err(GameError::LevelNotAllowed));
    assert_eq!(ctx.game.players[0].balance, 1500);
}

#[test]
fn unmortgage_refusals() {
    let mut g = fresh();
    g.board_status[2] = SquareStatus::Owned { by: ONE, level: 0 };
    g.board_status[3] = SquareStatus::Mortgaged { by: TWO };
    g.board_status[7] = SquareStatus::Mortgaged { by: ONE };
    g.players[0].balance = 54;
    let mut ctx = play(g, 1);
    assert_eq!(unmortgage(&mut ctx, 16), Err(GameError::PositionOutOfBound));
    assert_eq!(unmortgage(&mut ctx, 2), Err(GameError::NotMortgaged));
    assert_eq!(unmortgage(&mut ctx, 3), Err(GameError::NotOwned));
    assert_eq!(unmortgage(&mut ctx, 7), Err(GameError::BalanceNotEnough));
    ctx.game.players[0].balance = 55;
    assert_eq!(unmortgage(&mut ctx, 7), Ok(()));
    assert_eq!(ctx.game.players[0].balance, 0);
}

#[test]
fn mortgage_money_saturates() {
    let mut g = fresh();
    g.board_status[0] = SquareStatus::Owned { by: ONE, level: 0 };
    g.players[0].balance = 65530;
    let mut ctx = play(g, 1);
    assert_eq!(mortgage(&mut ctx, 0), Ok(()));
    assert_eq!(ctx.game.players[0].balance, 65535);
}

#[test]
fn selling_a_house() {
    let mut g = fresh();
    g.board_status[0] = SquareStatus::Owned { by: ONE, level: 2 };
    g.board_status[4] = SquareStatus::Owned { by: ONE, level: 2 };
    let mut ctx = play(g, 1);
    assert_eq!(sell_house(&mut ctx, 0), Ok(()));
    assert_eq!(ctx.game.board_status[0], SquareStatus::Owned { by: ONE, level: 1 });
    assert_eq!(ctx.game.players[0].balance, 1525);
    assert_eq!(sell_house(&mut ctx, 0), Err(GameError::LevelNotAllowed));
    assert_eq!(sell_house(&mut ctx, 4), Ok(()));
    assert_eq!(sell_house(&mut ctx, 4), Ok(()));
    assert_eq!(ctx.game.board_status[4], SquareStatus::Owned { by: ONE, level: 0 });
    assert_eq!(sell_house(&mut ctx, 4), Err(GameError::LevelNotAllowed));
}

#[test]
fn sell_house_refusals() {
    let mut g = fresh();
    g.board_status[1] = SquareStatus::Owned { by: TWO, level: 1 };
    g.board_status[2] = SquareStatus::Mortgaged { by: ONE };
    let mut ctx = play(g, 1);
    assert_eq!(sell_house(&mut ctx, 16), Err(GameError::PositionOutOfBound));
    assert_eq!(sell_house(&mut ctx, 0), Err(GameError::NotOwned));
    assert_eq!(sell_house(&mut ctx, 1), Err(GameError::NotOwned));
    assert_eq!(sell_house(&mut ctx, 2), Err(GameError::NotOwned));
}

#[test]
fn the_program_dispatches_each_move() {
    let mut ctx = play(fresh(), 1);
    assert_eq!(monopoly_program::end_turn(&mut ctx), Ok(()));
    assert_eq!(monopoly_program::bid_for_action(&mut ctx, 5), Ok(()));
    let mut ctx = play(ctx.game, 2);
    assert_eq!(monopoly_program::accept_action_bid(&mut ctx), Ok(()));
    assert_eq!(ctx.game.board_status[0], SquareStatus::Owned { by: ONE, level: 0 });
    assert_eq!(ctx.game.players[0].balance, 1495);
    assert_eq!(ctx.game.current_player, TWO);
    assert_eq!(monopoly_program::roll_dice(&mut ctx), Ok(()));
    let mut setup = NewGame { game: fresh(), player_one: key(4) };
    assert_eq!(monopoly_program::new_game(&mut setup, key(5)), Ok(()));
    assert_eq!(setup.game.players[1].pubkey.to_bytes(), [5; 32]);
}

#[test]
fn playable_games() {
    let mut g = fresh();
    assert!(g.is_playable());
    g.board_status[3] = SquareStatus::Owned { by: ONE, level: 5 };
    assert!(g.is_playable());
    g.board_status[3] = SquareStatus::Owned { by: ONE, level: 6 };
    assert!(!g.is_playable());
    let mut g = fresh();
    g.players[1].position = 16;
    assert!(!g.is_playable());
    let mut g = fresh();
    g.player_status = PlayerStatus::Sell { position: 16, bid: Bid { from: ONE, value: 0 } };
    assert!(!g.is_playable());
}

#[test]
fn keys_compare_by_every_byte() {
    let mut bytes = [1u8; 32];
    assert!(key(1).equals(&Pubkey::new_from_array(bytes)));
    bytes[31] = 2;
    assert!(!key(1).equals(&Pubkey::new_from_array(bytes)));
    assert!(!key(1).equals(&key(2)));
}

#[test]
fn selling_houses_keeps_building_even() {
    let mut g = fresh();
    g.board_status[2] = SquareStatus::Owned { by: ONE, level: 3 };
    g.board_status[6] = SquareStatus::Owned { by: ONE, level: 3 };
    g.board_status[10] = SquareStatus::Owned { by: ONE, level: 2 };
    let mut ctx = play(g, 1);
    assert_eq!(sell_house(&mut ctx, 10), Err(GameError::LevelNotAllowed));
    assert_eq!(sell_house(&mut ctx, 6), Ok(()));
    let levels: u32 = ctx
        .game
        .board_status
        .iter()
        .map(|s| match s {
            SquareStatus::Owned { by: ONE, level } => *level as u32,
            _ => 0,
        })
        .sum();
    assert_eq!(levels, 7);
    assert_eq!(sell_house(&mut ctx, 6), Err(GameError::LevelNotAllowed));
    assert_eq!(sell_house(&mut ctx, 2), Ok(()));
    assert_eq!(ctx.game.board_status[2], SquareStatus::Owned { by: ONE, level: 2 });
}

#[test]
fn moves_that_read_no_square_work_on_any_game() {
    let mut g = fresh();
    g.players[0].position = 40;
    let mut ctx = play(g, 1);
    assert_eq!(monopoly_program::roll_dice(&mut ctx), Ok(()));
    assert_eq!(monopoly_program::commit_dice_hash(&mut ctx, [3; 32]), Ok(()));
    assert_eq!(reject_sell_bid(&mut ctx), Err(GameError::NotInSell));
    assert_eq!(bid_for_sell(&mut ctx, 1), Err(GameError::NotInSell));
    assert_eq!(bid_for_action(&mut ctx, 1), Err(GameError::NotInAction));
    assert!(!ctx.game.is_playable());
}
