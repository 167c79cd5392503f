use vstd::prelude::*;

use crate::board::{
    evenly_built, group_unbuilt, lemma_level_sum_one_less, lemma_max_group_level_bounds, level_sum, max_group_level,
    owned_level,
};
use crate::client::{next_dice_state, status_of, winner_of, DiceLocalData, DiceLocalState, StatusLine};
use crate::dice::{
    commit_dice_hash_spec, commit_dice_plain_spec, commitment, dice_number, dice_preimage, roll_dice_spec,
};
use crate::error::GameError;
use crate::game::{color_of, DiceStatus, Game, PlayerStatus, SquareStatus, WhichPlayer, BOARD_SIZE};
use crate::play::{outcome, seat_of};
use crate::property::{mortgage_spec, mortgage_value, sell_house_spec, unmortgage_spec};
use crate::trade::{
    accept_action_bid_spec, accept_sell_bid_spec, bid_for_action_spec, bid_for_sell_spec, buy_square_spec,
    reject_sell_bid_spec,
};
use crate::turn::end_turn_spec;

verus! {

broadcast use vstd::array::group_array_axioms;

/// A key that is neither player's is refused by every move with `NotPlayer`.
pub proof fn non_player_is_refused(g: Game, caller: Seq<u8>, position: u8, value: u16, random_num: u16, salt: [u8; 32])
    requires
        seat_of(g, caller) is None,
    ensures
        roll_dice_spec(g, caller) == Err::<Game, GameError>(GameError::NotPlayer),
        commit_dice_hash_spec(g, caller, salt) == Err::<Game, GameError>(GameError::NotPlayer),
        commit_dice_plain_spec(g, caller, random_num, salt) == Err::<Game, GameError>(GameError::NotPlayer),
        buy_square_spec(g, caller) == Err::<Game, GameError>(GameError::NotPlayer),
        sell_house_spec(g, caller, position) == Err::<Game, GameError>(GameError::NotPlayer),
        bid_for_sell_spec(g, caller, value) == Err::<Game, GameError>(GameError::NotPlayer),
        accept_sell_bid_spec(g, caller) == Err::<Game, GameError>(GameError::NotPlayer),
        reject_sell_bid_spec(g, caller) == Err::<Game, GameError>(GameError::NotPlayer),
        mortgage_spec(g, caller, position) == Err::<Game, GameError>(GameError::NotPlayer),
        unmortgage_spec(g, caller, position) == Err::<Game, GameError>(GameError::NotPlayer),
        bid_for_action_spec(g, caller, value) == Err::<Game, GameError>(GameError::NotPlayer),
        accept_action_bid_spec(g, caller) == Err::<Game, GameError>(GameError::NotPlayer),
        end_turn_spec(g, caller) == Err::<Game, GameError>(GameError::NotPlayer),
{
}

/// Rolling the dice, buying, building down, mortgaging, lifting a mortgage and
/// ending the turn are the current player's moves: the other player is refused
/// with `NotCurrentPlayer`.
pub proof fn only_current_player_moves(g: Game, caller: Seq<u8>, position: u8)
    requires
        seat_of(g, caller) matches Some(w) && w != g.current_player,
    ensures
        roll_dice_spec(g, caller) == Err::<Game, GameError>(GameError::NotCurrentPlayer),
        buy_square_spec(g, caller) == Err::<Game, GameError>(GameError::NotCurrentPlayer),
        sell_house_spec(g, caller, position) == Err::<Game, GameError>(GameError::NotCurrentPlayer),
        mortgage_spec(g, caller, position) == Err::<Game, GameError>(GameError::NotCurrentPlayer),
        unmortgage_spec(g, caller, position) == Err::<Game, GameError>(GameError::NotCurrentPlayer),
        end_turn_spec(g, caller) == Err::<Game, GameError>(GameError::NotCurrentPlayer),
{
}

/// An accepted sale moves money between the players without creating or
/// destroying any, as long as the seller's balance does not saturate: the sum
/// of the two balances is unchanged.
pub proof fn sale_conserves_money(g: Game, caller: Seq<u8>)
    requires
        g.wf(),
        accept_sell_bid_spec(g, caller) is Ok,
        g.player_status matches PlayerStatus::Sell { bid, .. } && g.player(g.current_player).balance + bid.value
            <= u16::MAX,
    ensures
        accept_sell_bid_spec(g, caller) matches Ok(after) && after.players[0].balance + after.players[1].balance
            == g.players[0].balance + g.players[1].balance,
{
}

/// Mortgaging a square and lifting the mortgage at once gives the square back
/// as it was and costs the player a tenth of the mortgage value (when the
/// mortgage money did not saturate the balance, and the balance covers that
/// tenth); nothing else changes.
pub proof fn mortgage_then_unmortgage(g: Game, caller: Seq<u8>, position: u8)
    requires
        g.wf(),
        mortgage_spec(g, caller, position) is Ok,
        g.player(g.current_player).balance + mortgage_value(position as int) <= u16::MAX,
        g.player(g.current_player).balance >= mortgage_value(position as int) / 10,
    ensures
        mortgage_spec(g, caller, position) matches Ok(mortgaged) && unmortgage_spec(mortgaged, caller, position)
            == Ok::<Game, GameError>(
            g.with_balance(
                g.current_player,
                (g.player(g.current_player).balance - mortgage_value(position as int) / 10) as u16,
            ),
        ),
{
    let cur = g.current_player;
    let p = position as int;
    assert(group_unbuilt(g, cur, color_of(p)));
    assert(owned_level(g, cur, p) == 0);
    let mortgaged = mortgage_spec(g, caller, position)->Ok_0;
    let back = unmortgage_spec(mortgaged, caller, position)->Ok_0;
    let expected = g.with_balance(cur, (g.player(cur).balance - mortgage_value(p) / 10) as u16);
    assert(g.board_status[p] == SquareStatus::Owned { by: cur, level: 0 });
    assert(back.board_status =~= expected.board_status);
    assert(back.players =~= expected.players);
}

/// A move that ends the game takes nothing from the loser, and the winner
/// the board shows is the player who is owed: the owner of the square whose
/// rent the current player cannot pay, or the player who gave up the auction
/// when the bidder cannot pay its bid.
pub proof fn loss_goes_to_the_creditor(g: Game, caller: Seq<u8>)
    ensures
        end_turn_spec(g, caller) matches Ok(after) ==> (after.player_status == PlayerStatus::Lose ==> {
            &&& winner_of(after) == Some(g.current_player.other())
            &&& g.board_status[g.player(g.current_player).position as int] matches SquareStatus::Owned { by, .. }
            &&& winner_of(after) == Some(by)
            &&& after.players == g.players
        }),
        accept_action_bid_spec(g, caller) matches Ok(after) ==> (after.player_status == PlayerStatus::Lose ==> {
            &&& seat_of(g, caller) == winner_of(after)
            &&& after.players == g.players
        }),
{
}

/// Each accepted bid in an auction is higher than the one it replaces.
pub proof fn auction_bids_increase(g: Game, caller: Seq<u8>, bid_value: u16)
    requires
        bid_for_action_spec(g, caller, bid_value) is Ok,
    ensures
        g.player_status matches PlayerStatus::Action(old_bid) && bid_for_action_spec(g, caller, bid_value) matches Ok(
            after,
        ) && after.player_status matches PlayerStatus::Action(new_bid) && new_bid.value > old_bid.value,
{
}

/// The dice show one to six, and the same number whichever of the two
/// numbers was revealed first.
pub proof fn dice_in_range_and_symmetric(a: u16, b: u16)
    ensures
        1 <= dice_number(a, b) <= 6,
        dice_number(a, b) == dice_number(b, a),
{
}

/// Revealing the number and salt whose commitment a player committed passes
/// the hash check: after `commit_dice_hash` with the commitment of
/// `(random_num, salt)`, when the other player's hash is in and nothing was
/// revealed, `commit_dice_plain` of that pair succeeds.
pub proof fn honest_reveal_verifies(g: Game, caller: Seq<u8>, random_num: u16, salt: [u8; 32], hash: [u8; 32])
    requires
        hash@ == commitment(random_num, salt@),
        seat_of(g, caller) matches Some(w) && g.dice_status matches DiceStatus::Rolling {
            hash_from_each,
            plain_from_either,
        } && hash_from_each[w.other().index()] is Some && plain_from_either is None,
    ensures
        commit_dice_hash_spec(g, caller, hash) matches Ok(committed) && commit_dice_plain_spec(
            committed,
            caller,
            random_num,
            salt,
        ) is Ok,
{
}

/// The order in which the two players reveal does not matter: from a round
/// where both hashes are in and nothing is revealed, player one revealing
/// then player two, or player two then player one, ends in the same game.
pub proof fn reveal_order_irrelevant(
    g: Game,
    one: Seq<u8>,
    two: Seq<u8>,
    num_one: u16,
    salt_one: [u8; 32],
    num_two: u16,
    salt_two: [u8; 32],
)
    requires
        seat_of(g, one) == Some(WhichPlayer::PlayerOne),
        seat_of(g, two) == Some(WhichPlayer::PlayerTwo),
        g.dice_status matches DiceStatus::Rolling { hash_from_each, plain_from_either } && plain_from_either is None
            && commit_dice_plain_spec(g, one, num_one, salt_one) is Ok && commit_dice_plain_spec(
            g,
            two,
            num_two,
            salt_two,
        ) is Ok,
    ensures
        commit_dice_plain_spec(g, one, num_one, salt_one) matches Ok(a) && commit_dice_plain_spec(
            g,
            two,
            num_two,
            salt_two,
        ) matches Ok(b) && commit_dice_plain_spec(a, two, num_two, salt_two) == commit_dice_plain_spec(
            b,
            one,
            num_one,
            salt_one,
        ),
{
}

/// A client reveals exactly the number and salt it committed: from having
/// sent its hash, the only way to the revealing state keeps the same data.
pub proof fn client_reveals_what_it_committed(
    data: DiceLocalData,
    hash_from_each: [Option<[u8; 32]>; 2],
    fresh: DiceLocalData,
)
    ensures
        next_dice_state(DiceLocalState::HashSent(data), hash_from_each, fresh) matches DiceLocalState::PlainSent(
            revealed,
        ) ==> revealed == data,
        next_dice_state(DiceLocalState::HashSent(data), hash_from_each, fresh) is PlainSent <==> (
        hash_from_each[0] is Some && hash_from_each[1] is Some),
{
}

/// A client opens a round by committing freshly drawn data, and commits fresh
/// data again when the round it revealed in was reset (a hash is missing
/// again). Until both hashes are in, a committed client waits; once it has
/// revealed, it waits while both hashes stay in.
pub proof fn client_commits_fresh_data(
    data: DiceLocalData,
    hash_from_each: [Option<[u8; 32]>; 2],
    fresh: DiceLocalData,
)
    ensures
        next_dice_state(DiceLocalState::Init, hash_from_each, fresh) == DiceLocalState::HashSent(fresh),
        !(hash_from_each[0] is Some && hash_from_each[1] is Some) ==> next_dice_state(
            DiceLocalState::PlainSent(data),
            hash_from_each,
            fresh,
        ) == DiceLocalState::HashSent(fresh),
        !(hash_from_each[0] is Some && hash_from_each[1] is Some) ==> next_dice_state(
            DiceLocalState::HashSent(data),
            hash_from_each,
            fresh,
        ) == DiceLocalState::HashSent(data),
        hash_from_each[0] is Some && hash_from_each[1] is Some ==> next_dice_state(
            DiceLocalState::PlainSent(data),
            hash_from_each,
            fresh,
        ) == DiceLocalState::PlainSent(data),
{
}

/// Selling a house keeps the houses evenly built and takes exactly one house
/// off the board: the current player's number of houses drops by one.
pub proof fn selling_a_house_keeps_building_even(g: Game, caller: Seq<u8>, house_position: u8)
    requires
        g.wf(),
        evenly_built(g, g.current_player),
        sell_house_spec(g, caller, house_position) is Ok,
    ensures
        sell_house_spec(g, caller, house_position) matches Ok(after) && evenly_built(after, g.current_player)
            && level_sum(after, g.current_player, BOARD_SIZE as nat) == level_sum(
            g,
            g.current_player,
            BOARD_SIZE as nat,
        ) - 1,
{
    let cur = g.current_player;
    let p = house_position as int;
    let after = sell_house_spec(g, caller, house_position)->Ok_0;
    let c = color_of(p);
    lemma_max_group_level_bounds(g, cur, c, 16);
    let m = max_group_level(g, cur, c, 16);
    let l = owned_level(g, cur, p);
    assert(l <= m);
    assert(l == m);
    assert forall|q: int| 0 <= q < 16 && q != p implies owned_level(after, cur, q) == owned_level(g, cur, q) by {
        assert(after.board_status[q] == g.board_status[q]);
    }
    assert(owned_level(after, cur, p) + 1 == owned_level(g, cur, p));
    assert forall|q: int, r: int|
        0 <= q < 16 && 0 <= r < 16 && color_of(q) == color_of(r) implies #[trigger] owned_level(after, cur, q)
        <= #[trigger] owned_level(after, cur, r) + 1 by {
        assert(owned_level(g, cur, q) <= owned_level(g, cur, r) + 1);
        if q != p && r == p {
            assert(owned_level(g, cur, q) <= m);
        }
        if q == p && r != p {
            assert(owned_level(g, cur, p) <= owned_level(g, cur, r) + 1);
        }
    }
    lemma_level_sum_one_less(g, after, cur, p, 16);
}

/// A reveal keeps both players on the board, and when it ends the round the
/// dice show one to six, so the mover's square plus the dice stays within a
/// `u8`. This holds of every reveal the rules accept, with no bound on the
/// revealed numbers.
pub proof fn reveal_keeps_players_on_board(g: Game, caller: Seq<u8>, random_num: u16, salt: [u8; 32])
    requires
        g.wf(),
    ensures
        commit_dice_plain_spec(g, caller, random_num, salt) matches Ok(after) ==> {
            &&& after.wf()
            &&& after.players[0].position < BOARD_SIZE
            &&& after.players[1].position < BOARD_SIZE
            &&& after.dice_status matches DiceStatus::Rolled(d) ==> {
                &&& 1 <= d <= 6
                &&& g.player(g.current_player).position + d <= 21
            }
        },
{
    if let Ok(after) = commit_dice_plain_spec(g, caller, random_num, salt) {
        assert(forall|i: int| 0 <= i < 16 ==> after.board_status[i] == g.board_status[i]);
    }
}

/// A bought square belongs to its buyer, unbuilt: ending the turn on it
/// charges no rent, opens no auction and passes the turn.
pub proof fn bought_square_is_owned(g: Game, caller: Seq<u8>)
    requires
        g.wf(),
        buy_square_spec(g, caller) is Ok,
    ensures
        buy_square_spec(g, caller) matches Ok(after) && after.board_status[after.player(g.current_player).position as int]
            == (SquareStatus::Owned { by: g.current_player, level: 0 }) && end_turn_spec(after, caller) == Ok::<
            Game,
            GameError,
        >(Game { current_player: g.current_player.other(), player_status: PlayerStatus::BeforeMoving, ..after }),
{
}

/// A signer is seated by its key: player one's key takes the first seat,
/// player two's key the second, and any other key none. The two seats are
/// the two entries of the game's players, each the other's opponent.
pub proof fn signers_take_their_seats(g: Game, key: Seq<u8>, w: WhichPlayer)
    ensures
        seat_of(g, g.players[0].pubkey@) == Some(WhichPlayer::PlayerOne),
        g.players[1].pubkey@ != g.players[0].pubkey@ ==> seat_of(g, g.players[1].pubkey@) == Some(
            WhichPlayer::PlayerTwo,
        ),
        key != g.players[0].pubkey@ && key != g.players[1].pubkey@ ==> seat_of(g, key) is None,
        g.player(WhichPlayer::PlayerOne) == g.players[0],
        g.player(WhichPlayer::PlayerTwo) == g.players[1],
        w.other() != w,
        w.other().other() == w,
{
}

/// A refused move reports its error and leaves the game as it was; an
/// accepted one reports success and leaves the game its rules give.
pub proof fn refused_moves_change_nothing(before: Game, after: Game, r: Result<(), GameError>, expected: Result<Game, GameError>)
    requires
        outcome(before, after, r, expected),
    ensures
        expected matches Err(e) ==> r == Err::<(), GameError>(e) && after == before,
        expected matches Ok(g) ==> r is Ok && after == g,
{
}

/// What a dice commitment hashes holds the number, big-endian, in its first
/// two bytes and the salt after them, so it determines both: two pairs with
/// salts of one length hash the same bytes only when they are the same pair.
pub proof fn preimage_binds_number_and_salt(n: u16, salt: Seq<u8>, m: u16, other_salt: Seq<u8>)
    ensures
        dice_preimage(n, salt).len() == salt.len() + 2,
        dice_preimage(n, salt)[0] * 256 + dice_preimage(n, salt)[1] == n,
        dice_preimage(n, salt).subrange(2, salt.len() as int + 2) == salt,
        salt.len() == other_salt.len() && dice_preimage(n, salt) == dice_preimage(m, other_salt) ==> n == m && salt
            == other_salt,
{
    let pre = dice_preimage(n, salt);
    assert(pre.subrange(2, salt.len() as int + 2) =~= salt);
    if salt.len() == other_salt.len() && pre == dice_preimage(m, other_salt) {
        let q = dice_preimage(m, other_salt);
        assert(q.subrange(2, other_salt.len() as int + 2) =~= other_salt);
        assert(q[0] * 256 + q[1] == m);
    }
}

/// The status line names the winner exactly when the game is over; while it
/// goes on, it names the player whose turn it is, waiting for a roll before
/// moving and for an action after.
pub proof fn status_names_winner_or_mover(g: Game, w: WhichPlayer)
    ensures
        status_of(g) == StatusLine::Won(w) <==> winner_of(g) == Some(w),
        winner_of(g) is None ==> status_of(g) == StatusLine::WaitingForRoll(g.current_player) || status_of(g)
            == StatusLine::WaitingForAction(g.current_player) || status_of(g) == StatusLine::Selling(
            g.current_player,
        ) || status_of(g) == StatusLine::Auctioning(g.current_player),
        g.player_status == PlayerStatus::BeforeMoving ==> status_of(g) == StatusLine::WaitingForRoll(
            g.current_player,
        ),
        g.player_status == PlayerStatus::AfterMoving ==> status_of(g) == StatusLine::WaitingForAction(
            g.current_player,
        ),
{
}

} // verus!
