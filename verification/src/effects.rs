use vstd::prelude::*;

use crate::client::figures_of;
use crate::board::{lemma_max_group_level_attained, lemma_max_group_level_bounds, owned_level};
use crate::dice::{
    commit_dice_hash_spec, commit_dice_plain_overflows, commit_dice_plain_spec, commitment, roll_dice_spec,
};
use crate::error::GameError;
use crate::game::{
    color_of, house_price_table, price_table, rent_table, Bid, DicePlain, DiceStatus, Game, PlayerStatus,
    SquareStatus, WhichPlayer, BOARD_SIZE, SALARY,
};
use crate::play::seat_of;
use crate::property::{mortgage_spec, sell_house_spec, unmortgage_spec};
use crate::trade::{
    accept_action_bid_spec, accept_sell_bid_spec, bid_for_action_spec, bid_for_sell_spec, buy_square_spec,
    reject_sell_bid_spec,
};
use crate::turn::end_turn_spec;

verus! {

broadcast use vstd::array::group_array_axioms;

// What each move does to the game, stated over its fields: who pays whom how
// much, which square changes hands, whose turn follows, and what stays as it
// was.

/// Ending the turn on a square the other player has built on costs exactly
/// the rent of that house level, whether or not the owner holds the whole
/// colour; then the turn passes. A player who cannot pay loses, keeping its
/// money, and the turn stays.
pub proof fn rent_on_a_built_square(g: Game, caller: Seq<u8>, level: u8)
    requires
        g.wf(),
        seat_of(g, caller) == Some(g.current_player),
        g.board_status[g.player(g.current_player).position as int] == (SquareStatus::Owned {
            by: g.current_player.other(),
            level,
        }),
        level > 0,
    ensures
        end_turn_spec(g, caller) matches Ok(after) && ({
            let cur = g.current_player;
            let rent = rent_table(g.player(cur).position as int)[level as int];
            if g.player(cur).balance >= rent {
                &&& after.player(cur).balance == g.player(cur).balance - rent
                &&& after.player(cur).position == g.player(cur).position
                &&& after.player(cur).pubkey == g.player(cur).pubkey
                &&& after.player(cur.other()) == g.player(cur.other())
                &&& after.current_player == cur.other()
                &&& after.player_status == PlayerStatus::BeforeMoving
                &&& after.board_status == g.board_status
                &&& after.dice_status == g.dice_status
            } else {
                &&& after.players == g.players
                &&& after.current_player == cur
                &&& after.player_status == PlayerStatus::Lose
                &&& after.board_status == g.board_status
                &&& after.dice_status == g.dice_status
            }
        }),
{
}

/// Ending the turn on an unbuilt square of the other player costs its base
/// rent, twice over when the owner holds (owns or has mortgaged) every square
/// of that colour; then the turn passes.
pub proof fn rent_on_an_unbuilt_square(g: Game, caller: Seq<u8>)
    requires
        g.wf(),
        seat_of(g, caller) == Some(g.current_player),
        g.board_status[g.player(g.current_player).position as int] == (SquareStatus::Owned {
            by: g.current_player.other(),
            level: 0,
        }),
    ensures
        end_turn_spec(g, caller) matches Ok(after) && ({
            let cur = g.current_player;
            let owner = cur.other();
            let p = g.player(cur).position as int;
            let whole_colour = forall|q: int|
                0 <= q < 16 && color_of(q) == color_of(p) ==> match #[trigger] g.board_status[q] {
                    SquareStatus::Owned { by, .. } => by == owner,
                    SquareStatus::Mortgaged { by } => by == owner,
                    SquareStatus::Unowned => false,
                };
            let rent = if whole_colour {
                2 * rent_table(p)[0]
            } else {
                rent_table(p)[0] as int
            };
            if g.player(cur).balance >= rent {
                &&& after.player(cur).balance == g.player(cur).balance - rent
                &&& after.player(cur).position == g.player(cur).position
                &&& after.player(cur).pubkey == g.player(cur).pubkey
                &&& after.player(owner) == g.player(owner)
                &&& after.current_player == owner
                &&& after.player_status == PlayerStatus::BeforeMoving
                &&& after.board_status == g.board_status
                &&& after.dice_status == g.dice_status
            } else {
                &&& after.players == g.players
                &&& after.current_player == cur
                &&& after.player_status == PlayerStatus::Lose
                &&& after.board_status == g.board_status
                &&& after.dice_status == g.dice_status
            }
        }),
{
}

/// The reveal that closes a dice round moves the player whose turn it is,
/// whoever reveals: by the sum of the two revealed numbers modulo six, plus
/// one, around the sixteen squares, with the salary when it passes the start.
/// The other player is untouched, and so are the turn, the status and the
/// board.
pub proof fn closing_reveal_moves_the_current_player(
    g: Game,
    caller: Seq<u8>,
    w: WhichPlayer,
    hashes: [Option<[u8; 32]>; 2],
    own_hash: [u8; 32],
    earlier: DicePlain,
    random_num: u16,
    salt: [u8; 32],
)
    requires
        g.wf(),
        seat_of(g, caller) == Some(w),
        g.dice_status == (DiceStatus::Rolling { hash_from_each: hashes, plain_from_either: Some(earlier) }),
        hashes[0] is Some,
        hashes[1] is Some,
        hashes[w.index()] == Some(own_hash),
        own_hash@ == commitment(random_num, salt@),
        earlier.from != w,
        g.player(g.current_player).balance + SALARY <= u16::MAX,
    ensures
        commit_dice_plain_spec(g, caller, random_num, salt) matches Ok(after) && ({
            let cur = g.current_player;
            let d = (random_num + earlier.random_num) % 6 + 1;
            let from = g.player(cur).position;
            &&& after.dice_status == DiceStatus::Rolled(d as u8)
            &&& after.player(cur).position == (from + d) % 16
            &&& after.player(cur).balance == g.player(cur).balance + (if from + d >= 16 {
                SALARY as int
            } else {
                0
            })
            &&& after.player(cur).pubkey == g.player(cur).pubkey
            &&& after.player(cur.other()) == g.player(cur.other())
            &&& after.current_player == cur
            &&& after.player_status == g.player_status
            &&& after.board_status == g.board_status
        }),
{
}

/// Only a reveal that closes the round can overflow, and it does exactly when
/// the two revealed numbers sum past `u16::MAX` or the salary for passing the
/// start carries the mover's balance past it. Every other reveal, and every
/// reveal by a key that is not a player's, runs as its rules say.
pub proof fn only_closing_reveals_overflow(
    g: Game,
    caller: Seq<u8>,
    w: WhichPlayer,
    hashes: [Option<[u8; 32]>; 2],
    plain: Option<DicePlain>,
    random_num: u16,
    salt: [u8; 32],
)
    requires
        seat_of(g, caller) == Some(w),
        g.dice_status == (DiceStatus::Rolling { hash_from_each: hashes, plain_from_either: plain }),
        commit_dice_plain_spec(g, caller, random_num, salt) is Ok,
    ensures
        ({
            let cur = g.current_player;
            let closes = plain is Some && plain->0.from != w;
            let d = (random_num + plain->0.random_num) % 6 + 1;
            commit_dice_plain_overflows(g, caller, random_num, salt) <==> closes && (random_num
                + plain->0.random_num > u16::MAX || (g.player(cur).position + d >= 16 && g.player(cur).balance
                + SALARY > u16::MAX))
        }),
{
}

/// Selling a house from square `p` pays its owner half the house price of
/// square `p` (saturating at the largest balance), wherever the owner stands,
/// and lowers that square by one level; nothing else changes.
pub proof fn selling_a_house_pays_half_its_price(g: Game, caller: Seq<u8>, p: u8, level: u8)
    requires
        g.wf(),
        sell_house_spec(g, caller, p) is Ok,
        p < BOARD_SIZE,
        g.board_status[p as int] matches SquareStatus::Owned { level: l, .. } && l == level,
    ensures
        sell_house_spec(g, caller, p) matches Ok(after) && ({
            let cur = g.current_player;
            let paid = g.player(cur).balance + house_price_table()[p as int] / 2;
            &&& after.player(cur).balance == (if paid > u16::MAX {
                u16::MAX as int
            } else {
                paid
            })
            &&& after.player(cur).position == g.player(cur).position
            &&& after.player(cur).pubkey == g.player(cur).pubkey
            &&& after.player(cur.other()) == g.player(cur.other())
            &&& after.board_status[p as int] == (SquareStatus::Owned { by: cur, level: (level - 1) as u8 })
            &&& forall|q: int| 0 <= q < 16 && q != p ==> after.board_status[q] == g.board_status[q]
            &&& after.current_player == cur
            &&& after.player_status == g.player_status
            &&& after.dice_status == g.dice_status
        }),
{
    let after = sell_house_spec(g, caller, p)->Ok_0;
    assert forall|q: int| 0 <= q < 16 && q != p implies after.board_status[q] == g.board_status[q] by {}
}

/// An auction bid is accepted only when the bidder can pay it from its own
/// balance; a bid above the bidder's balance is refused with
/// `BalanceNotEnough` (when the bidder is not the standing bidder).
pub proof fn auction_bids_are_covered_by_the_bidder(g: Game, caller: Seq<u8>, w: WhichPlayer, bid: Bid, bid_value: u16)
    requires
        seat_of(g, caller) == Some(w),
        g.player_status == PlayerStatus::Action(bid),
    ensures
        bid_for_action_spec(g, caller, bid_value) is Ok ==> bid_value <= g.player(w).balance && bid_value > bid.value
            && bid.from != w,
        bid.from != w && bid_value > g.player(w).balance ==> bid_for_action_spec(g, caller, bid_value) == Err::<
            Game,
            GameError,
        >(GameError::BalanceNotEnough),
        bid_for_action_spec(g, caller, bid_value) matches Ok(after) ==> after.player_status == PlayerStatus::Action(
            Bid { from: w, value: bid_value },
        ) && after.players == g.players && after.board_status == g.board_status && after.current_player
            == g.current_player && after.dice_status == g.dice_status,
{
}

/// Giving up an auction the bidder can pay for sells the square the current
/// player stands on to the bidder, unbuilt, for the bid, and passes the turn
/// from the current player to the other, whoever made the bid.
pub proof fn conceding_an_auction_sells_and_passes_the_turn(g: Game, caller: Seq<u8>, w: WhichPlayer, bid: Bid)
    requires
        g.wf(),
        seat_of(g, caller) == Some(w),
        g.player_status == PlayerStatus::Action(bid),
        bid.from != w,
        g.player(bid.from).balance >= bid.value,
    ensures
        accept_action_bid_spec(g, caller) matches Ok(after) && ({
            let cur = g.current_player;
            let p = g.player(cur).position as int;
            &&& after.current_player == cur.other()
            &&& after.player_status == PlayerStatus::BeforeMoving
            &&& after.board_status[p] == (SquareStatus::Owned { by: bid.from, level: 0 })
            &&& forall|q: int| 0 <= q < 16 && q != p ==> after.board_status[q] == g.board_status[q]
            &&& after.player(bid.from).balance == g.player(bid.from).balance - bid.value
            &&& after.player(bid.from).position == g.player(bid.from).position
            &&& after.player(bid.from).pubkey == g.player(bid.from).pubkey
            &&& after.player(bid.from.other()) == g.player(bid.from.other())
            &&& after.dice_status == g.dice_status
        }),
{
    let after = accept_action_bid_spec(g, caller)->Ok_0;
    let p = g.player(g.current_player).position as int;
    assert forall|q: int| 0 <= q < 16 && q != p implies after.board_status[q] == g.board_status[q] by {}
}


/// Whether two games differ at most in the dice.
pub open spec fn same_but_dice(a: Game, b: Game) -> bool {
    &&& a.players == b.players
    &&& a.current_player == b.current_player
    &&& a.player_status == b.player_status
    &&& a.board_status == b.board_status
}

/// Whether two games differ at most in what the game waits for.
pub open spec fn same_but_status(a: Game, b: Game) -> bool {
    &&& a.players == b.players
    &&& a.current_player == b.current_player
    &&& a.dice_status == b.dice_status
    &&& a.board_status == b.board_status
}

/// Whether the squares of two games agree everywhere but at `p`.
pub open spec fn same_squares_but(a: Game, b: Game, p: int) -> bool {
    forall|q: int| 0 <= q < 16 && q != p ==> a.board_status[q] == b.board_status[q]
}

/// Whether seat `w` has a house on a square of the colour of square `p`.
pub open spec fn builds_on_colour_of(g: Game, w: WhichPlayer, p: int) -> bool {
    exists|q: int| 0 <= q < 16 && color_of(q) == color_of(p) && #[trigger] owned_level(g, w, q) > 0
}

/// Rolling the dice opens a fresh round, with no hash and no number in, and
/// changes nothing else.
pub proof fn rolling_opens_a_fresh_round(g: Game, caller: Seq<u8>)
    requires
        seat_of(g, caller) == Some(g.current_player),
    ensures
        roll_dice_spec(g, caller) matches Ok(after) && after.dice_status == (DiceStatus::Rolling {
            hash_from_each: [None, None],
            plain_from_either: None,
        }) && same_but_dice(after, g),
{
}

/// A hash is committed into the signer's slot. A revealed number is dropped,
/// and with it the other player's hash, which must be committed again; while
/// nothing was revealed the other hash stays. Outside a round it is refused.
pub proof fn committing_a_hash(
    g: Game,
    caller: Seq<u8>,
    w: WhichPlayer,
    hashes: [Option<[u8; 32]>; 2],
    plain: Option<DicePlain>,
    hash: [u8; 32],
)
    requires
        seat_of(g, caller) == Some(w),
    ensures
        g.dice_status == (DiceStatus::Rolling { hash_from_each: hashes, plain_from_either: plain }) ==> (
        commit_dice_hash_spec(g, caller, hash) matches Ok(after) && {
            &&& after.dice_status is Rolling
            &&& after.dice_status->plain_from_either is None
            &&& after.dice_status->hash_from_each[w.index()] == Some(hash)
            &&& after.dice_status->hash_from_each[w.other().index()] == (if plain is Some {
                None
            } else {
                hashes[w.other().index()]
            })
            &&& same_but_dice(after, g)
        }),
        g.dice_status is Rolled ==> commit_dice_hash_spec(g, caller, hash) == Err::<Game, GameError>(
            GameError::NotRolling,
        ),
{
}

/// A reveal is refused outside a round, before both hashes are in, and when
/// the number and salt do not hash to the signer's own commitment.
pub proof fn refused_reveals(g: Game, caller: Seq<u8>, w: WhichPlayer, random_num: u16, salt: [u8; 32])
    requires
        seat_of(g, caller) == Some(w),
    ensures
        g.dice_status is Rolled ==> commit_dice_plain_spec(g, caller, random_num, salt) == Err::<Game, GameError>(
            GameError::NotRolling,
        ),
        g.dice_status matches DiceStatus::Rolling { hash_from_each, .. } ==> (hash_from_each[0] is None
            || hash_from_each[1] is None ==> commit_dice_plain_spec(g, caller, random_num, salt) == Err::<
            Game,
            GameError,
        >(GameError::HashCollectNotFinish)),
        g.dice_status matches DiceStatus::Rolling { hash_from_each, .. } ==> (hash_from_each[0] is Some
            && hash_from_each[1] is Some && hash_from_each[w.index()].unwrap()@ != commitment(random_num, salt@)
            ==> commit_dice_plain_spec(g, caller, random_num, salt) == Err::<Game, GameError>(
            GameError::HashVerifyFailed,
        )),
{
}

/// The first reveal of a round (or a second one by the same player) is
/// recorded as the signer's, with its number and salt; nobody moves and the
/// hashes stay.
pub proof fn opening_reveal_is_recorded(
    g: Game,
    caller: Seq<u8>,
    w: WhichPlayer,
    hashes: [Option<[u8; 32]>; 2],
    own_hash: [u8; 32],
    plain: Option<DicePlain>,
    random_num: u16,
    salt: [u8; 32],
)
    requires
        seat_of(g, caller) == Some(w),
        g.dice_status == (DiceStatus::Rolling { hash_from_each: hashes, plain_from_either: plain }),
        hashes[0] is Some,
        hashes[1] is Some,
        hashes[w.index()] == Some(own_hash),
        own_hash@ == commitment(random_num, salt@),
        plain matches Some(p) ==> p.from == w,
    ensures
        commit_dice_plain_spec(g, caller, random_num, salt) matches Ok(after) && after.dice_status
            == (DiceStatus::Rolling {
            hash_from_each: hashes,
            plain_from_either: Some(DicePlain { from: w, random_num, salt }),
        }) && same_but_dice(after, g),
{
}

/// Buying: the current player pays the price of the square it stands on and
/// owns it, unbuilt; an owned or mortgaged square is refused, and so is a
/// price above the balance. Nothing else changes.
pub proof fn buying_the_square_stood_on(g: Game, caller: Seq<u8>)
    requires
        g.wf(),
        seat_of(g, caller) == Some(g.current_player),
    ensures
        ({
            let cur = g.current_player;
            let p = g.player(cur).position as int;
            let price = price_table()[p];
            if g.board_status[p] != SquareStatus::Unowned {
                buy_square_spec(g, caller) == Err::<Game, GameError>(GameError::AlreadyOwned)
            } else if g.player(cur).balance < price {
                buy_square_spec(g, caller) == Err::<Game, GameError>(GameError::BalanceNotEnough)
            } else {
                buy_square_spec(g, caller) matches Ok(after) && {
                    &&& after.player(cur).balance == g.player(cur).balance - price
                    &&& after.player(cur).position == g.player(cur).position
                    &&& after.player(cur).pubkey == g.player(cur).pubkey
                    &&& after.player(cur.other()) == g.player(cur.other())
                    &&& after.board_status[p] == (SquareStatus::Owned { by: cur, level: 0 })
                    &&& same_squares_but(after, g, p)
                    &&& after.current_player == cur
                    &&& after.player_status == g.player_status
                    &&& after.dice_status == g.dice_status
                }
            }
        }),
{
    let cur = g.current_player;
    let p = g.player(cur).position as int;
    if let Ok(after) = buy_square_spec(g, caller) {
        assert forall|q: int| 0 <= q < 16 && q != p implies after.board_status[q] == g.board_status[q] by {}
    }
}

/// Ending the turn on an unowned square opens an auction with a zero bid from
/// the other player; the turn stays and nothing else changes.
pub proof fn ending_on_an_unowned_square(g: Game, caller: Seq<u8>)
    requires
        g.wf(),
        seat_of(g, caller) == Some(g.current_player),
        g.board_status[g.player(g.current_player).position as int] == SquareStatus::Unowned,
    ensures
        end_turn_spec(g, caller) matches Ok(after) && after.player_status == PlayerStatus::Action(
            Bid { from: g.current_player.other(), value: 0 },
        ) && same_but_status(after, g),
{
}

/// Ending the turn on an own square or on a mortgaged one costs nothing and
/// passes the turn.
pub proof fn ending_on_a_free_square(g: Game, caller: Seq<u8>)
    requires
        g.wf(),
        seat_of(g, caller) == Some(g.current_player),
        g.board_status[g.player(g.current_player).position as int] is Mortgaged || (g.board_status[g.player(
            g.current_player,
        ).position as int] is Owned && g.board_status[g.player(g.current_player).position as int]->Owned_by
            == g.current_player),
    ensures
        end_turn_spec(g, caller) matches Ok(after) && after.current_player == g.current_player.other()
            && after.player_status == PlayerStatus::BeforeMoving && after.players == g.players && after.board_status
            == g.board_status && after.dice_status == g.dice_status,
{
}

/// Mortgaging: a square on the board that the current player owns, with no
/// house on its colour, becomes mortgaged and pays half its house price
/// (saturating). Off the board, not owned by the player, or with a house on
/// its colour, it is refused. Nothing else changes.
pub proof fn mortgaging(g: Game, caller: Seq<u8>, p: u8)
    requires
        g.wf(),
        seat_of(g, caller) == Some(g.current_player),
    ensures
        ({
            let cur = g.current_player;
            let paid = g.player(cur).balance + house_price_table()[p as int] / 2;
            if p >= BOARD_SIZE {
                mortgage_spec(g, caller, p) == Err::<Game, GameError>(GameError::PositionOutOfBound)
            } else if !(g.board_status[p as int] is Owned && g.board_status[p as int]->Owned_by == cur) {
                mortgage_spec(g, caller, p) == Err::<Game, GameError>(GameError::NotOwned)
            } else if builds_on_colour_of(g, cur, p as int) {
                mortgage_spec(g, caller, p) == Err::<Game, GameError>(GameError::LevelNotAllowed)
            } else {
                mortgage_spec(g, caller, p) matches Ok(after) && {
                    &&& after.player(cur).balance == (if paid > u16::MAX {
                        u16::MAX as int
                    } else {
                        paid
                    })
                    &&& after.player(cur).position == g.player(cur).position
                    &&& after.player(cur).pubkey == g.player(cur).pubkey
                    &&& after.player(cur.other()) == g.player(cur.other())
                    &&& after.board_status[p as int] == (SquareStatus::Mortgaged { by: cur })
                    &&& same_squares_but(after, g, p as int)
                    &&& after.current_player == cur
                    &&& after.player_status == g.player_status
                    &&& after.dice_status == g.dice_status
                }
            }
        }),
{
    if p < BOARD_SIZE {
        if let Ok(after) = mortgage_spec(g, caller, p) {
            assert forall|q: int| 0 <= q < 16 && q != p implies after.board_status[q] == g.board_status[q] by {}
        }
    }
}

/// Lifting a mortgage: a square on the board the current player has
/// mortgaged is owned again, unbuilt, for half its house price plus a tenth
/// of that; off the board, not mortgaged, mortgaged by the other player, or
/// beyond the balance, it is refused. Nothing else changes.
pub proof fn lifting_a_mortgage(g: Game, caller: Seq<u8>, p: u8)
    requires
        g.wf(),
        seat_of(g, caller) == Some(g.current_player),
    ensures
        ({
            let cur = g.current_player;
            let half = house_price_table()[p as int] / 2;
            let cost = half + half / 10;
            if p >= BOARD_SIZE {
                unmortgage_spec(g, caller, p) == Err::<Game, GameError>(GameError::PositionOutOfBound)
            } else if !(g.board_status[p as int] is Mortgaged) {
                unmortgage_spec(g, caller, p) == Err::<Game, GameError>(GameError::NotMortgaged)
            } else if g.board_status[p as int] != (SquareStatus::Mortgaged { by: cur }) {
                unmortgage_spec(g, caller, p) == Err::<Game, GameError>(GameError::NotOwned)
            } else if g.player(cur).balance < cost {
                unmortgage_spec(g, caller, p) == Err::<Game, GameError>(GameError::BalanceNotEnough)
            } else {
                unmortgage_spec(g, caller, p) matches Ok(after) && {
                    &&& after.player(cur).balance == g.player(cur).balance - cost
                    &&& after.player(cur).position == g.player(cur).position
                    &&& after.player(cur).pubkey == g.player(cur).pubkey
                    &&& after.player(cur.other()) == g.player(cur.other())
                    &&& after.board_status[p as int] == (SquareStatus::Owned { by: cur, level: 0 })
                    &&& same_squares_but(after, g, p as int)
                    &&& after.current_player == cur
                    &&& after.player_status == g.player_status
                    &&& after.dice_status == g.dice_status
                }
            }
        }),
{
    if p < BOARD_SIZE {
        if let Ok(after) = unmortgage_spec(g, caller, p) {
            assert forall|q: int| 0 <= q < 16 && q != p implies after.board_status[q] == g.board_status[q] by {}
        }
    }
}

/// A house can be sold from a square the current player owns exactly when the
/// square has one and no square of its colour has more: the houses stay
/// even. Otherwise it is refused with `LevelNotAllowed`.
pub proof fn houses_come_down_evenly(g: Game, caller: Seq<u8>, p: u8, level: u8)
    requires
        g.wf(),
        seat_of(g, caller) == Some(g.current_player),
        p < BOARD_SIZE,
        g.board_status[p as int] == (SquareStatus::Owned { by: g.current_player, level }),
    ensures
        ({
            let cur = g.current_player;
            let higher = exists|q: int|
                0 <= q < 16 && color_of(q) == color_of(p as int) && #[trigger] owned_level(g, cur, q) > level;
            if level > 0 && !higher {
                sell_house_spec(g, caller, p) is Ok
            } else {
                sell_house_spec(g, caller, p) == Err::<Game, GameError>(GameError::LevelNotAllowed)
            }
        }),
{
    let cur = g.current_player;
    let c = color_of(p as int);
    lemma_max_group_level_bounds(g, cur, c, 16);
    lemma_max_group_level_attained(g, cur, c, 16);
    assert(owned_level(g, cur, p as int) == level);
}

/// A house is sold only from a square on the board that the current player
/// owns unmortgaged: off the board it is refused with `PositionOutOfBound`,
/// and a square that is unowned, mortgaged or the other player's with
/// `NotOwned`.
pub proof fn refused_house_sales(g: Game, caller: Seq<u8>, p: u8)
    requires
        seat_of(g, caller) == Some(g.current_player),
    ensures
        p >= BOARD_SIZE ==> sell_house_spec(g, caller, p) == Err::<Game, GameError>(GameError::PositionOutOfBound),
        p < BOARD_SIZE && !(g.board_status[p as int] is Owned && g.board_status[p as int]->Owned_by
            == g.current_player) ==> sell_house_spec(g, caller, p) == Err::<Game, GameError>(GameError::NotOwned),
{
}

/// Counter-bidding in a sale: the player who did not make the standing bid
/// replaces it with its own, while the buyer (the player whose turn it is
/// not) can cover the standing bid; the standing bidder is refused, and so is
/// a standing bid above the buyer's balance, and any bid outside a sale.
pub proof fn counter_bidding_in_a_sale(g: Game, caller: Seq<u8>, w: WhichPlayer, bid_value: u16)
    requires
        seat_of(g, caller) == Some(w),
    ensures
        match g.player_status {
            PlayerStatus::Sell { position, bid } => if bid.from == w {
                bid_for_sell_spec(g, caller, bid_value) == Err::<Game, GameError>(GameError::WaitAnotherPlayerBid)
            } else if bid.value > g.player(g.current_player.other()).balance {
                bid_for_sell_spec(g, caller, bid_value) == Err::<Game, GameError>(GameError::BalanceNotEnough)
            } else {
                bid_for_sell_spec(g, caller, bid_value) matches Ok(after) && after.player_status
                    == (PlayerStatus::Sell { position, bid: Bid { from: w, value: bid_value } }) && same_but_status(
                    after,
                    g,
                )
            },
            _ => bid_for_sell_spec(g, caller, bid_value) == Err::<Game, GameError>(GameError::NotInSell),
        },
{
}

/// Accepting a sale: the buyer, the player whose turn it is not, pays the
/// standing bid to the seller (saturating) and takes the square, mortgaged if
/// it was, else unbuilt. The standing bidder cannot accept its own bid, and a
/// buyer short of the bid is refused. Turn and status stay.
pub proof fn accepting_a_sale(g: Game, caller: Seq<u8>, w: WhichPlayer, position: u8, bid: Bid)
    requires
        g.wf(),
        seat_of(g, caller) == Some(w),
        g.player_status == (PlayerStatus::Sell { position, bid }),
    ensures
        ({
            let seller = g.current_player;
            let buyer = seller.other();
            let p = position as int;
            let received = g.player(seller).balance + bid.value;
            if bid.from == w {
                accept_sell_bid_spec(g, caller) == Err::<Game, GameError>(GameError::WaitAnotherPlayerBid)
            } else if g.player(buyer).balance < bid.value {
                accept_sell_bid_spec(g, caller) == Err::<Game, GameError>(GameError::BalanceNotEnough)
            } else {
                accept_sell_bid_spec(g, caller) matches Ok(after) && {
                    &&& after.player(buyer).balance == g.player(buyer).balance - bid.value
                    &&& after.player(seller).balance == (if received > u16::MAX {
                        u16::MAX as int
                    } else {
                        received
                    })
                    &&& after.player(buyer).position == g.player(buyer).position
                    &&& after.player(seller).position == g.player(seller).position
                    &&& after.player(buyer).pubkey == g.player(buyer).pubkey
                    &&& after.player(seller).pubkey == g.player(seller).pubkey
                    &&& after.board_status[p] == (if g.board_status[p] is Mortgaged {
                        SquareStatus::Mortgaged { by: buyer }
                    } else {
                        SquareStatus::Owned { by: buyer, level: 0 }
                    })
                    &&& same_squares_but(after, g, p)
                    &&& after.current_player == seller
                    &&& after.player_status == g.player_status
                    &&& after.dice_status == g.dice_status
                }
            }
        }),
{
    let p = position as int;
    if let Ok(after) = accept_sell_bid_spec(g, caller) {
        assert forall|q: int| 0 <= q < 16 && q != p implies after.board_status[q] == g.board_status[q] by {}
    }
}

/// Rejecting a sale: the player who did not make the standing bid ends it and
/// the game waits for the current player's action after moving; the standing
/// bidder is refused, and outside a sale the move is refused.
pub proof fn rejecting_a_sale(g: Game, caller: Seq<u8>, w: WhichPlayer)
    requires
        seat_of(g, caller) == Some(w),
    ensures
        match g.player_status {
            PlayerStatus::Sell { bid, .. } => if bid.from == w {
                reject_sell_bid_spec(g, caller) == Err::<Game, GameError>(GameError::WaitAnotherPlayerBid)
            } else {
                reject_sell_bid_spec(g, caller) matches Ok(after) && after.player_status == PlayerStatus::AfterMoving
                    && same_but_status(after, g)
            },
            _ => reject_sell_bid_spec(g, caller) == Err::<Game, GameError>(GameError::NotInSell),
        },
{
}

/// The other refusals of an auction bid: the standing bidder cannot bid again,
/// a bid must be higher than the standing one, and outside an auction there is
/// nothing to bid on.
pub proof fn refused_auction_bids(g: Game, caller: Seq<u8>, w: WhichPlayer, bid_value: u16)
    requires
        seat_of(g, caller) == Some(w),
    ensures
        match g.player_status {
            PlayerStatus::Action(bid) => {
                &&& bid.from == w ==> bid_for_action_spec(g, caller, bid_value) == Err::<Game, GameError>(
                    GameError::WaitAnotherPlayerBid,
                )
                &&& bid.from != w && bid_value <= g.player(w).balance && bid_value <= bid.value
                    ==> bid_for_action_spec(g, caller, bid_value) == Err::<Game, GameError>(
                    GameError::BidValueNotHigher,
                )
                &&& bid.from != w && bid_value <= g.player(w).balance && bid_value > bid.value
                    ==> bid_for_action_spec(g, caller, bid_value) is Ok
            },
            _ => bid_for_action_spec(g, caller, bid_value) == Err::<Game, GameError>(GameError::NotInAction),
        },
{
}

/// Conceding an auction whose bidder cannot pay ends the game: the bidder
/// becomes the current player and has lost, keeping its money; the square
/// stays unsold. The standing bidder cannot concede, and outside an auction
/// there is nothing to concede.
pub proof fn conceding_to_a_bidder_who_cannot_pay(g: Game, caller: Seq<u8>, w: WhichPlayer)
    requires
        seat_of(g, caller) == Some(w),
    ensures
        match g.player_status {
            PlayerStatus::Action(bid) => if bid.from == w {
                accept_action_bid_spec(g, caller) == Err::<Game, GameError>(GameError::WaitAnotherPlayerBid)
            } else if g.player(bid.from).balance < bid.value {
                accept_action_bid_spec(g, caller) matches Ok(after) && after.current_player == bid.from
                    && after.player_status == PlayerStatus::Lose && after.players == g.players && after.board_status
                    == g.board_status && after.dice_status == g.dice_status
            } else {
                accept_action_bid_spec(g, caller) is Ok
            },
            _ => accept_action_bid_spec(g, caller) == Err::<Game, GameError>(GameError::NotInAction),
        },
{
}

// What a square shows agrees with what the moves charge and pay.

/// The rent a built square of the other player shows is what ending the turn
/// there costs.
pub proof fn shown_rent_is_charged(g: Game, caller: Seq<u8>)
    requires
        g.wf(),
        seat_of(g, caller) == Some(g.current_player),
        g.board_status[g.player(g.current_player).position as int] is Owned,
        g.board_status[g.player(g.current_player).position as int]->Owned_by != g.current_player,
        g.board_status[g.player(g.current_player).position as int]->level > 0,
    ensures
        ({
            let cur = g.current_player;
            let shown = figures_of(g, g.player(cur).position as int);
            &&& shown is Owned
            &&& g.player(cur).balance >= shown->rent ==> (end_turn_spec(g, caller) matches Ok(after)
                && after.player(cur).balance == g.player(cur).balance - shown->rent)
        }),
{
}

/// The price an unowned square shows is what buying it costs; a balance below
/// it is refused.
pub proof fn shown_price_is_paid(g: Game, caller: Seq<u8>)
    requires
        g.wf(),
        seat_of(g, caller) == Some(g.current_player),
        g.board_status[g.player(g.current_player).position as int] == SquareStatus::Unowned,
    ensures
        ({
            let cur = g.current_player;
            let shown = figures_of(g, g.player(cur).position as int);
            &&& shown is Unowned
            &&& g.player(cur).balance >= shown->price ==> (buy_square_spec(g, caller) matches Ok(after)
                && after.player(cur).balance == g.player(cur).balance - shown->price)
            &&& g.player(cur).balance < shown->price ==> buy_square_spec(g, caller) == Err::<Game, GameError>(
                GameError::BalanceNotEnough,
            )
        }),
{
}

/// A mortgaged square shows the money its mortgage paid: mortgaging a square
/// pays the value it then shows (while the balance does not saturate), and
/// lifting that mortgage costs the value and a tenth of it.
pub proof fn shown_mortgage_value(g: Game, caller: Seq<u8>, p: u8)
    requires
        g.wf(),
        mortgage_spec(g, caller, p) is Ok,
    ensures
        mortgage_spec(g, caller, p) matches Ok(after) && ({
            let cur = g.current_player;
            let shown = figures_of(after, p as int);
            &&& shown is Mortgaged
            &&& shown->Mortgaged_owner == cur
            &&& g.player(cur).balance + shown->redeem <= u16::MAX ==> after.player(cur).balance
                == g.player(cur).balance + shown->redeem
            &&& unmortgage_spec(after, caller, p) matches Ok(back) ==> back.player(cur).balance
                == after.player(cur).balance - shown->redeem - shown->redeem / 10
        }),
{
}

} // verus!
