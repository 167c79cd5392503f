use vstd::prelude::*;
use vstd::string::StringSliceAdditionalSpecFns;

use crate::dice::{commitment, dice_commitment};
use crate::property::mortgage_value;
use crate::game::{
    board_info, base58_key, house_price_table, parse_pubkey, price_table, rent_table, Bid, DiceStatus, Game,
    PlayerStatus, Players, Pubkey, SquareColor, SquareStatus, WhichPlayer, BOARD_SIZE,
};
use crate::play::seat_of;

verus! {

/// The seat of the player whose wallet holds `key`; `None` for a spectator.
pub fn seat_of_key(g: &Game, key: &Pubkey) -> (r: Option<WhichPlayer>)
    ensures
        r == seat_of(*g, key@),
{
    if key.equals(&g.players[0].pubkey) {
        Some(WhichPlayer::PlayerOne)
    } else if key.equals(&g.players[1].pubkey) {
        Some(WhichPlayer::PlayerTwo)
    } else {
        None
    }
}

/// The winner of a finished game: the player who did not lose, i.e. the one
/// whose turn it is not. `None` while the game goes on.
pub open spec fn winner_of(g: Game) -> Option<WhichPlayer> {
    if g.player_status == PlayerStatus::Lose {
        Some(g.current_player.other())
    } else {
        None
    }
}

pub fn winner(g: &Game) -> (r: Option<WhichPlayer>)
    ensures
        r == winner_of(*g),
{
    match g.player_status {
        PlayerStatus::Lose => Some(g.current_player.opponent()),
        _ => None,
    }
}

/// The label of a seat on the board: `1P` or `2P`.
pub open spec fn label_of(w: WhichPlayer) -> Seq<char> {
    match w {
        WhichPlayer::PlayerOne => "1P"@,
        WhichPlayer::PlayerTwo => "2P"@,
    }
}

pub fn player_label(w: WhichPlayer) -> (s: &'static str)
    ensures
        s@ == label_of(w),
{
    match w {
        WhichPlayer::PlayerOne => "1P",
        WhichPlayer::PlayerTwo => "2P",
    }
}

/// The style class a square of each colour is drawn with.
pub open spec fn color_css(color: SquareColor) -> Seq<char> {
    match color {
        SquareColor::Red => "bg-red-400"@,
        SquareColor::Yellow => "bg-yellow-400"@,
        SquareColor::Blue => "bg-blue-400"@,
        SquareColor::Green => "bg-green-400"@,
    }
}

pub fn square_color_css(color: SquareColor) -> (s: &'static str)
    ensures
        s@ == color_css(color),
{
    match color {
        SquareColor::Red => "bg-red-400",
        SquareColor::Yellow => "bg-yellow-400",
        SquareColor::Blue => "bg-blue-400",
        SquareColor::Green => "bg-green-400",
    }
}

/// A dice number a player drew, with the salt that hides it until reveal.
#[derive(Clone, Copy, Debug)]
pub struct DiceLocalData {
    pub random_num: u16,
    pub salt: [u8; 32],
}

/// Where a player's client stands in a dice round.
#[derive(Clone, Copy, Debug)]
pub enum DiceLocalState {
    Init,
    HashSent(DiceLocalData),
    PlainSent(DiceLocalData),
}

/// The move a client sends for its dice state.
#[derive(Clone, Copy, Debug)]
pub enum DiceMove {
    Wait,
    CommitHash([u8; 32]),
    CommitPlain { random_num: u16, salt: [u8; 32] },
}

/// The client's next dice state, seeing the round's hashes. A client that has
/// not committed commits the freshly drawn `fresh`; one that committed reveals
/// once both hashes are in; one that revealed starts over with `fresh` when a
/// hash is missing again (the round was reset).
pub open spec fn next_dice_state(
    state: DiceLocalState,
    hash_from_each: [Option<[u8; 32]>; 2],
    fresh: DiceLocalData,
) -> DiceLocalState {
    let all_in = hash_from_each[0] is Some && hash_from_each[1] is Some;
    match state {
        DiceLocalState::Init => DiceLocalState::HashSent(fresh),
        DiceLocalState::HashSent(data) => if all_in {
            DiceLocalState::PlainSent(data)
        } else {
            state
        },
        DiceLocalState::PlainSent(_) => if !all_in {
            DiceLocalState::HashSent(fresh)
        } else {
            state
        },
    }
}

pub fn next_dice_local_state(
    state: DiceLocalState,
    hash_from_each: &[Option<[u8; 32]>; 2],
    fresh: DiceLocalData,
) -> (s: DiceLocalState)
    ensures
        s == next_dice_state(state, *hash_from_each, fresh),
{
    let all_in = hash_from_each[0].is_some() && hash_from_each[1].is_some();
    match state {
        DiceLocalState::Init => DiceLocalState::HashSent(fresh),
        DiceLocalState::HashSent(data) => if all_in {
            DiceLocalState::PlainSent(data)
        } else {
            state
        },
        DiceLocalState::PlainSent(_) => if !all_in {
            DiceLocalState::HashSent(fresh)
        } else {
            state
        },
    }
}

/// The move a client sends in each dice state: nothing at first, the
/// commitment of its number after drawing, the number and salt to reveal.
pub fn dice_local_move(state: DiceLocalState) -> (m: DiceMove)
    ensures
        match state {
            DiceLocalState::Init => m is Wait,
            DiceLocalState::HashSent(data) => m matches DiceMove::CommitHash(h) && h@ == commitment(
                data.random_num,
                data.salt@,
            ),
            DiceLocalState::PlainSent(data) => m matches DiceMove::CommitPlain { random_num, salt } && random_num
                == data.random_num && salt == data.salt,
        },
{
    match state {
        DiceLocalState::Init => DiceMove::Wait,
        DiceLocalState::HashSent(data) => DiceMove::CommitHash(dice_commitment(data.random_num, &data.salt)),
        DiceLocalState::PlainSent(data) => DiceMove::CommitPlain { random_num: data.random_num, salt: data.salt },
    }
}

/// Whether the viewer may act after moving: only the player whose turn it is
/// gets the buy, sell, build, mortgage and end-turn controls; the other waits.
pub fn may_act_after_moving(game: &Game, self_player: WhichPlayer) -> (r: bool)
    ensures
        r == (self_player == game.current_player),
{
    self_player == game.current_player
}

/// What an auction shows a player.
#[derive(Clone, Copy, Debug, PartialEq, Eq, Structural)]
pub enum AuctionView {
    /// The player made the standing bid of this value and waits for the other.
    WaitForOther(u16),
    /// The other player bid this value; the player may outbid it or give up.
    MayBidOrGiveUp(u16),
}

pub fn auction_offer(bid: Bid, self_player: WhichPlayer) -> (r: AuctionView)
    ensures
        r == (if bid.from == self_player {
            AuctionView::WaitForOther(bid.value)
        } else {
            AuctionView::MayBidOrGiveUp(bid.value)
        }),
{
    if bid.from == self_player {
        AuctionView::WaitForOther(bid.value)
    } else {
        AuctionView::MayBidOrGiveUp(bid.value)
    }
}

/// What the viewer sees before the current player moves.
#[derive(Clone, Copy, Debug, PartialEq, Eq, Structural)]
pub enum BeforeMovingView {
    /// A dice round is under way.
    Rolling,
    /// The viewer's turn: it may roll the dice.
    MayRoll,
    /// The other player's turn: the viewer waits for its roll.
    WaitForRoll,
}

pub fn before_moving_view(game: &Game, self_player: WhichPlayer) -> (r: BeforeMovingView)
    ensures
        r == (if game.dice_status is Rolling {
            BeforeMovingView::Rolling
        } else if self_player == game.current_player {
            BeforeMovingView::MayRoll
        } else {
            BeforeMovingView::WaitForRoll
        }),
{
    match game.dice_status {
        DiceStatus::Rolling { .. } => BeforeMovingView::Rolling,
        DiceStatus::Rolled(_) => if self_player == game.current_player {
            BeforeMovingView::MayRoll
        } else {
            BeforeMovingView::WaitForRoll
        },
    }
}

/// `rand::random`, drawn once for a number and once for a salt. Nothing is
/// claimed of the values: any number and any salt may come back. (`rand`
/// panics where the operating system gives it no randomness at all.)
#[verifier::external_body]
fn draw_dice_data() -> (d: DiceLocalData) {
    DiceLocalData { random_num: rand::random::<u16>(), salt: rand::random::<[u8; 32]>() }
}

/// One step of the client's dice state, drawing the fresh number and salt it
/// needs: the result is `next_dice_state` for some drawn data. A client that
/// committed keeps its data until it has revealed it.
pub fn step_dice_state(state: DiceLocalState, hash_from_each: &[Option<[u8; 32]>; 2]) -> (s: DiceLocalState)
    ensures
        exists|fresh: DiceLocalData| s == next_dice_state(state, *hash_from_each, fresh),
        state matches DiceLocalState::HashSent(d) ==> s == next_dice_state(state, *hash_from_each, d),
{
    let fresh = draw_dice_data();
    next_dice_local_state(state, hash_from_each, fresh)
}

/// The players of a game about to be created: the wallet's key first, then the
/// key typed in for the opponent. `None` when the typed text is not a key.
pub fn create_game_players(wallet: Pubkey, opponent: &str) -> (r: Option<Players>)
    ensures
        match r {
            Some(p) => p.player_one == wallet && base58_key(opponent@) == Some(p.player_two@),
            None => base58_key(opponent@) is None,
        },
{
    match parse_pubkey(opponent) {
        Some(player_two) => Some(Players { player_one: wallet, player_two }),
        None => None,
    }
}

/// The players of a game read from its account, in their seats.
pub fn players_of(g: &Game) -> (p: Players)
    ensures
        p.player_one == g.players[0].pubkey,
        p.player_two == g.players[1].pubkey,
{
    Players { player_one: g.players[0].pubkey, player_two: g.players[1].pubkey }
}

/// The value of a sequence of decimal digits (as ASCII bytes).
pub open spec fn decimal_value(digits: Seq<u8>) -> int
    decreases digits.len(),
{
    if digits.len() == 0 {
        0
    } else {
        decimal_value(digits.drop_last()) * 10 + (digits.last() - 48)
    }
}

/// Whether every byte is an ASCII digit.
pub open spec fn all_digits(b: Seq<u8>) -> bool {
    forall|i: int| 0 <= i < b.len() ==> 48 <= #[trigger] b[i] <= 57
}

/// What `u16::from_str` makes of the bytes: an optional `+` followed by at
/// least one digit and nothing else, of a value that fits in a `u16`.
pub open spec fn parse_u16(b: Seq<u8>) -> Option<u16> {
    let digits = if b.len() > 0 && b[0] == 43 {
        b.drop_first()
    } else {
        b
    };
    if digits.len() == 0 || !all_digits(digits) || decimal_value(digits) > u16::MAX {
        None
    } else {
        Some(decimal_value(digits) as u16)
    }
}

/// The decimal digits of `n` as ASCII bytes, most significant first, with no
/// leading zero.
pub open spec fn decimal_digits(n: nat) -> Seq<u8>
    decreases n,
{
    if n < 10 {
        seq![(48 + n) as u8]
    } else {
        decimal_digits(n / 10).push((48 + n % 10) as u8)
    }
}

proof fn lemma_decimal_digits(n: nat)
    ensures
        decimal_digits(n).len() > 0,
        all_digits(decimal_digits(n)),
        decimal_value(decimal_digits(n)) == n,
    decreases n,
{
    let d = decimal_digits(n);
    if n >= 10 {
        lemma_decimal_digits(n / 10);
        let e = decimal_digits(n / 10);
        assert(d.drop_last() =~= e);
        assert forall|i: int| 0 <= i < d.len() implies 48 <= #[trigger] d[i] <= 57 by {
            if i < d.len() - 1 {
                assert(d[i] == e[i]);
            }
        }
        assert(n == (n / 10) * 10 + n % 10) by (nonlinear_arith);
        assert(decimal_value(d) == decimal_value(e) * 10 + (d.last() - 48));
    } else {
        assert(d.drop_last() =~= Seq::<u8>::empty());
        assert(decimal_value(d.drop_last()) == 0);
    }
}

/// Every `u16` written in decimal reads back as itself, with or without a
/// leading `+`; a decimal number above `u16::MAX` is refused.
pub proof fn decimal_numbers_read_back(n: nat)
    ensures
        n <= u16::MAX ==> parse_u16(decimal_digits(n)) == Some(n as u16),
        n <= u16::MAX ==> parse_u16(seq![43u8] + decimal_digits(n)) == Some(n as u16),
        n > u16::MAX ==> parse_u16(decimal_digits(n)) is None,
{
    lemma_decimal_digits(n);
    assert((seq![43u8] + decimal_digits(n)).drop_first() =~= decimal_digits(n));
}

/// Text with a byte that is not a digit, other than one `+` in front, is
/// refused; so are the empty text and a lone `+`.
pub proof fn non_numbers_are_refused(b: Seq<u8>, i: int)
    ensures
        0 <= i < b.len() && !(48 <= b[i] <= 57) && !(i == 0 && b[i] == 43) ==> parse_u16(b) is None,
        parse_u16(Seq::<u8>::empty()) is None,
        parse_u16(seq![43u8]) is None,
{
    if 0 <= i < b.len() && !(48 <= b[i] <= 57) && !(i == 0 && b[i] == 43) && b.len() > 0 && b[0] == 43 {
        assert(b.drop_first()[i - 1] == b[i]);
    }
    assert(seq![43u8].drop_first().len() == 0);
}

/// Reads a bid typed in by a player as a `u16`: `None` for anything
/// `u16::from_str` rejects.
pub fn parse_bid(text: &str) -> (r: Option<u16>)
    ensures
        r == parse_u16(text.spec_bytes()),
{
    let b = text.as_bytes();
    let n = b.len();
    let start: usize = if n > 0 && b[0] == 43 {
        1
    } else {
        0
    };
    let ghost digits = if b@.len() > 0 && b@[0] == 43 {
        b@.drop_first()
    } else {
        b@
    };
    assert(digits == b@.subrange(start as int, n as int));
    if start == n {
        assert(digits.len() == 0);
        return None;
    }
    assert(b@.subrange(start as int, start as int) =~= Seq::<u8>::empty());
    let mut acc: u32 = 0;
    let mut i: usize = start;
    while i < n
        invariant
            start <= i <= n,
            n == b@.len(),
            b@ == text.spec_bytes(),
            digits == b@.subrange(start as int, n as int),
            digits == (if b@.len() > 0 && b@[0] == 43 {
                b@.drop_first()
            } else {
                b@
            }),
            all_digits(b@.subrange(start as int, i as int)),
            acc == if decimal_value(b@.subrange(start as int, i as int)) > 65535 {
                65536
            } else {
                decimal_value(b@.subrange(start as int, i as int))
            },
        decreases n - i,
    {
        let c = b[i];
        if c < 48 || c > 57 {
            assert(digits[i - start] == c);
            assert(!all_digits(digits));
            return None;
        }
        let ghost before = b@.subrange(start as int, i as int);
        assert(b@.subrange(start as int, i + 1).drop_last() == before);
        assert(b@.subrange(start as int, i + 1).last() == c);
        let next: u32 = acc * 10 + (c as u32 - 48);
        acc = if next > 65535 {
            65536
        } else {
            next
        };
        i = i + 1;
    }
    assert(b@.subrange(start as int, n as int) == digits);
    assert(digits.len() > 0);
    if acc > 65535 {
        None
    } else {
        Some(acc as u16)
    }
}

/// The line that tells where the game stands.
#[derive(Clone, Copy, Debug, PartialEq, Eq, Structural)]
pub enum StatusLine {
    /// The seat whose roll the game waits for.
    WaitingForRoll(WhichPlayer),
    /// The seat whose action after moving the game waits for.
    WaitingForAction(WhichPlayer),
    /// The seat that offered a square for sale.
    Selling(WhichPlayer),
    /// The seat that passed on a square, now auctioned.
    Auctioning(WhichPlayer),
    /// The seat that won.
    Won(WhichPlayer),
}

pub open spec fn status_of(g: Game) -> StatusLine {
    match g.player_status {
        PlayerStatus::BeforeMoving => StatusLine::WaitingForRoll(g.current_player),
        PlayerStatus::AfterMoving => StatusLine::WaitingForAction(g.current_player),
        PlayerStatus::Sell { .. } => StatusLine::Selling(g.current_player),
        PlayerStatus::Action(_) => StatusLine::Auctioning(g.current_player),
        PlayerStatus::Lose => StatusLine::Won(g.current_player.other()),
    }
}

pub fn status_line(g: &Game) -> (r: StatusLine)
    ensures
        r == status_of(*g),
{
    match g.player_status {
        PlayerStatus::BeforeMoving => StatusLine::WaitingForRoll(g.current_player),
        PlayerStatus::AfterMoving => StatusLine::WaitingForAction(g.current_player),
        PlayerStatus::Sell { .. } => StatusLine::Selling(g.current_player),
        PlayerStatus::Action(_) => StatusLine::Auctioning(g.current_player),
        PlayerStatus::Lose => StatusLine::Won(g.current_player.opponent()),
    }
}

/// The dice as the board shows them: rolling, or the last number.
pub fn dice_shown(g: &Game) -> (r: Option<u8>)
    ensures
        r == (match g.dice_status {
            DiceStatus::Rolling { .. } => None,
            DiceStatus::Rolled(n) => Some(n),
        }),
{
    match g.dice_status {
        DiceStatus::Rolling { .. } => None,
        DiceStatus::Rolled(n) => Some(n),
    }
}

/// Whether a balance line is the viewer's own: the viewer holds that seat.
pub fn is_own_line(self_player: Option<WhichPlayer>, w: WhichPlayer) -> (r: bool)
    ensures
        r == (self_player == Some(w)),
{
    match self_player {
        Some(s) => s == w,
        None => false,
    }
}

/// The figures a square shows.
#[derive(Clone, Copy, Debug, PartialEq, Eq, Structural)]
pub enum SquareFigures {
    /// Nobody owns it; its price.
    Unowned { price: u16 },
    /// Owned at a house level; the rent at that level and the price of a house.
    Owned { owner: WhichPlayer, level: u8, rent: u16, house_price: u16 },
    /// Mortgaged; the mortgage value shown to redeem it.
    Mortgaged { owner: WhichPlayer, redeem: u16 },
}

pub open spec fn figures_of(g: Game, position: int) -> SquareFigures {
    match g.board_status[position] {
        SquareStatus::Unowned => SquareFigures::Unowned { price: price_table()[position] },
        SquareStatus::Owned { by, level } => SquareFigures::Owned {
            owner: by,
            level,
            rent: rent_table(position)[level as int],
            house_price: house_price_table()[position],
        },
        SquareStatus::Mortgaged { by } => SquareFigures::Mortgaged { owner: by, redeem: mortgage_value(position) },
    }
}

pub fn square_figures(g: &Game, position: u8) -> (r: SquareFigures)
    requires
        g.wf(),
        position < BOARD_SIZE,
    ensures
        r == figures_of(*g, position as int),
{
    let info = board_info(position);
    match g.board_status[position as usize] {
        SquareStatus::Unowned => SquareFigures::Unowned { price: info.price },
        SquareStatus::Owned { by, level } => SquareFigures::Owned {
            owner: by,
            level,
            rent: info.rent[level as usize],
            house_price: info.house_price,
        },
        SquareStatus::Mortgaged { by } => SquareFigures::Mortgaged { owner: by, redeem: info.house_price / 2 },
    }
}

/// Where each square is laid out on the five-by-five grid around the centre
/// panel: the board runs anticlockwise from the bottom right corner.
pub open spec fn order_css(position: int) -> Seq<char> {
    if position == 0 {
        "order-[17]"@
    } else if position == 1 {
        "order-[16]"@
    } else if position == 2 {
        "order-[15]"@
    } else if position == 3 {
        "order-[14]"@
    } else if position == 4 {
        "order-[13]"@
    } else if position == 5 {
        "order-[11]"@
    } else if position == 6 {
        "order-[9]"@
    } else if position == 7 {
        "order-[6]"@
    } else if position == 8 {
        "order-[1]"@
    } else if position == 9 {
        "order-[2]"@
    } else if position == 10 {
        "order-[3]"@
    } else if position == 11 {
        "order-[4]"@
    } else if position == 12 {
        "order-[5]"@
    } else if position == 13 {
        "order-[8]"@
    } else if position == 14 {
        "order-[10]"@
    } else {
        "order-[12]"@
    }
}

pub fn square_order_css(position: u8) -> (s: &'static str)
    requires
        position < BOARD_SIZE,
    ensures
        s@ == order_css(position as int),
{
    match position {
        0 => "order-[17]",
        1 => "order-[16]",
        2 => "order-[15]",
        3 => "order-[14]",
        4 => "order-[13]",
        5 => "order-[11]",
        6 => "order-[9]",
        7 => "order-[6]",
        8 => "order-[1]",
        9 => "order-[2]",
        10 => "order-[3]",
        11 => "order-[4]",
        12 => "order-[5]",
        13 => "order-[8]",
        14 => "order-[10]",
        _ => "order-[12]",
    }
}

} // verus!
