use vstd::prelude::*;

verus! {

broadcast use vstd::array::group_array_axioms;

/// The money each player starts with.
pub const SEED_MONEY: u16 = 1500;

/// The money a player receives each time the dice carry it past the start square.
pub const SALARY: u16 = 200;

/// The number of squares on the board.
pub const BOARD_SIZE: u8 = 16;

/// The highest house level a square can carry; the rent row has one entry per level.
pub const MAX_LEVEL: u8 = 5;

/// A 32-byte account address.
#[derive(Clone, Copy, Debug)]
pub struct Pubkey {
    pub bytes: [u8; 32],
}

impl View for Pubkey {
    type V = Seq<u8>;

    open spec fn view(&self) -> Seq<u8> {
        self.bytes@
    }
}

/// Compares two 32-byte arrays byte by byte.
pub fn bytes_equal(a: &[u8; 32], b: &[u8; 32]) -> (r: bool)
    ensures
        r == (a@ == b@),
{
    let mut i: usize = 0;
    while i < 32
        invariant
            0 <= i <= 32,
            a@.len() == 32,
            b@.len() == 32,
            forall|j: int| 0 <= j < i ==> a@[j] == b@[j],
        decreases 32 - i,
    {
        if a[i] != b[i] {
            assert(a@[i as int] != b@[i as int]);
            return false;
        }
        i = i + 1;
    }
    assert(a@ =~= b@);
    true
}

impl Pubkey {
    pub fn new_from_array(bytes: [u8; 32]) -> (k: Pubkey)
        ensures
            k.bytes == bytes,
    {
        Pubkey { bytes }
    }

    pub fn to_bytes(&self) -> (b: [u8; 32])
        ensures
            b == self.bytes,
    {
        self.bytes
    }

    /// Whether two keys are the same address.
    pub fn equals(&self, other: &Pubkey) -> (r: bool)
        ensures
            r == (self@ == other@),
    {
        bytes_equal(&self.bytes, &other.bytes)
    }
}

/// The 32 bytes that `Pubkey::from_str` of `solana_program` decodes from the
/// text `s` (base58), or `None` when it rejects the text.
pub uninterp spec fn base58_key(s: Seq<char>) -> Option<Seq<u8>>;

/// `<solana_program::pubkey::Pubkey as FromStr>::from_str` (re-exported by
/// `anchor_lang`). Claimed: the result is `base58_key` of the text, a function
/// of the text alone, and text longer than 44 characters is rejected (the
/// source refuses more than 44 bytes before decoding). Nothing is claimed of
/// how base58 decodes.
#[verifier::external_body]
fn decode_base58_key(s: &str) -> (r: Option<Pubkey>)
    ensures
        match r {
            Some(k) => base58_key(s@) == Some(k@),
            None => base58_key(s@) is None,
        },
        s@.len() > 44 ==> r is None,
{
    <anchor_lang::solana_program::pubkey::Pubkey as std::str::FromStr>::from_str(s).ok().map(
        |k| Pubkey { bytes: k.to_bytes() },
    )
}

/// Reads a key typed in by a player: the base58 text of a 32-byte address.
/// `None` when the text is not such a key (in particular when it is longer
/// than 44 characters).
pub fn parse_pubkey(s: &str) -> (r: Option<Pubkey>)
    ensures
        match r {
            Some(k) => base58_key(s@) == Some(k@),
            None => base58_key(s@) is None,
        },
        s@.len() > 44 ==> r is None,
{
    decode_base58_key(s)
}

/// One of the two seats at the table.
#[derive(Clone, Copy, Debug, PartialEq, Eq, Structural)]
pub enum WhichPlayer {
    PlayerOne,
    PlayerTwo,
}

impl WhichPlayer {
    /// The seat's index into `Game::players`.
    pub open spec fn index(self) -> int {
        match self {
            WhichPlayer::PlayerOne => 0,
            WhichPlayer::PlayerTwo => 1,
        }
    }

    /// The seat across the table.
    pub open spec fn other(self) -> WhichPlayer {
        match self {
            WhichPlayer::PlayerOne => WhichPlayer::PlayerTwo,
            WhichPlayer::PlayerTwo => WhichPlayer::PlayerOne,
        }
    }

    pub fn as_index(&self) -> (r: usize)
        ensures
            r == self.index(),
    {
        match self {
            WhichPlayer::PlayerOne => 0,
            WhichPlayer::PlayerTwo => 1,
        }
    }

    /// The index of the other seat.
    pub fn either_index(&self) -> (r: usize)
        ensures
            r == self.other().index(),
    {
        match self {
            WhichPlayer::PlayerOne => 1,
            WhichPlayer::PlayerTwo => 0,
        }
    }

    /// The other seat.
    pub fn opponent(&self) -> (r: WhichPlayer)
        ensures
            r == self.other(),
    {
        match self {
            WhichPlayer::PlayerOne => WhichPlayer::PlayerTwo,
            WhichPlayer::PlayerTwo => WhichPlayer::PlayerOne,
        }
    }
}

#[derive(Clone, Copy, Debug)]
pub struct Player {
    pub pubkey: Pubkey,
    pub balance: u16,
    pub position: u8,
}

/// An offer of money by one player.
#[derive(Clone, Copy, Debug, PartialEq, Eq, Structural)]
pub struct Bid {
    pub from: WhichPlayer,
    pub value: u16,
}

/// What the game waits for from the current player.
#[derive(Clone, Copy, Debug, PartialEq, Eq, Structural)]
pub enum PlayerStatus {
    BeforeMoving,
    AfterMoving,
    Sell { position: u8, bid: Bid },
    Action(Bid),
    Lose,
}

/// A revealed dice number with the salt that was hashed with it.
#[derive(Clone, Copy, Debug)]
pub struct DicePlain {
    pub from: WhichPlayer,
    pub random_num: u16,
    pub salt: [u8; 32],
}

/// The two hash commitments of a dice roll.
#[allow(dead_code)]
#[derive(Clone, Copy, Debug)]
pub struct DiceHash {
    player_one: Option<[u8; 32]>,
    player_two: Option<[u8; 32]>,
}

/// The dice: either a commit-reveal round in progress or the last number rolled.
#[derive(Clone, Copy, Debug)]
pub enum DiceStatus {
    Rolling { hash_from_each: [Option<[u8; 32]>; 2], plain_from_either: Option<DicePlain> },
    Rolled(u8),
}

/// The two players' keys, from which the game account's address is derived.
#[derive(Clone, Copy, Debug)]
pub struct Players {
    pub player_one: Pubkey,
    pub player_two: Pubkey,
}

#[derive(Clone, Copy, Debug, PartialEq, Eq, Structural)]
pub enum SquareStatus {
    Unowned,
    Owned { by: WhichPlayer, level: u8 },
    Mortgaged { by: WhichPlayer },
}

impl Default for SquareStatus {
    fn default() -> (s: Self)
        ensures
            s == SquareStatus::Unowned,
    {
        SquareStatus::Unowned
    }
}

#[derive(Clone, Copy, Debug, PartialEq, Eq, Structural)]
pub enum SquareColor {
    Red,
    Yellow,
    Blue,
    Green,
}

/// The fixed data of one square of the board.
#[derive(Clone, Copy, Debug)]
pub struct SquareInfo {
    pub price: u16,
    pub house_price: u16,
    pub rent: [u16; 6],
    pub color: SquareColor,
}

/// The rent row of the square at `position`, by house level.
pub open spec fn rent_table(position: int) -> Seq<u16> {
    if position == 0 {
        seq![2, 10, 30, 90, 160, 250]
    } else if position == 1 {
        seq![4, 20, 60, 180, 320, 450]
    } else if position == 2 {
        seq![6, 30, 90, 270, 400, 550]
    } else if position == 3 {
        seq![6, 30, 90, 270, 400, 550]
    } else if position == 4 {
        seq![8, 40, 100, 300, 450, 600]
    } else if position == 5 {
        seq![10, 50, 150, 450, 625, 750]
    } else if position == 6 {
        seq![10, 50, 150, 450, 625, 750]
    } else if position == 7 {
        seq![12, 60, 180, 500, 700, 900]
    } else if position == 8 {
        seq![14, 70, 200, 550, 750, 950]
    } else if position == 9 {
        seq![14, 70, 200, 550, 750, 950]
    } else if position == 10 {
        seq![16, 80, 220, 600, 800, 1000]
    } else if position == 11 {
        seq![18, 90, 250, 700, 875, 1050]
    } else if position == 12 {
        seq![18, 90, 250, 700, 875, 1050]
    } else if position == 13 {
        seq![20, 100, 300, 750, 925, 1100]
    } else if position == 14 {
        seq![22, 110, 330, 800, 975, 1150]
    } else {
        seq![22, 110, 330, 800, 975, 1150]
    }
}

/// The price of each square, by position.
pub open spec fn price_table() -> Seq<u16> {
    seq![60, 60, 100, 100, 120, 140, 140, 160, 180, 180, 200, 220, 220, 240, 260, 260]
}

/// The price of a house on each square, by position.
pub open spec fn house_price_table() -> Seq<u16> {
    seq![50, 50, 50, 50, 50, 100, 100, 100, 100, 100, 100, 150, 150, 150, 150, 150]
}


/// The colour of the square at `position`: the four colours repeat around the board.
pub open spec fn color_of(position: int) -> SquareColor {
    if position % 4 == 0 {
        SquareColor::Red
    } else if position % 4 == 1 {
        SquareColor::Yellow
    } else if position % 4 == 2 {
        SquareColor::Blue
    } else {
        SquareColor::Green
    }
}

/// The fixed data of the square at `position`.
pub fn board_info(position: u8) -> (info: SquareInfo)
    requires
        position < BOARD_SIZE,
    ensures
        info.price == price_table()[position as int],
        info.house_price == house_price_table()[position as int],
        info.rent@ == rent_table(position as int),
        info.color == color_of(position as int),
{
    match position {
        0 => SquareInfo {
            price: 60,
            house_price: 50,
            rent: [2, 10, 30, 90, 160, 250],
            color: SquareColor::Red,
        },
        1 => SquareInfo {
            price: 60,
            house_price: 50,
            rent: [4, 20, 60, 180, 320, 450],
            color: SquareColor::Yellow,
        },
        2 => SquareInfo {
            price: 100,
            house_price: 50,
            rent: [6, 30, 90, 270, 400, 550],
            color: SquareColor::Blue,
        },
        3 => SquareInfo {
            price: 100,
            house_price: 50,
            rent: [6, 30, 90, 270, 400, 550],
            color: SquareColor::Green,
        },
        4 => SquareInfo {
            price: 120,
            house_price: 50,
            rent: [8, 40, 100, 300, 450, 600],
            color: SquareColor::Red,
        },
        5 => SquareInfo {
            price: 140,
            house_price: 100,
            rent: [10, 50, 150, 450, 625, 750],
            color: SquareColor::Yellow,
        },
        6 => SquareInfo {
            price: 140,
            house_price: 100,
            rent: [10, 50, 150, 450, 625, 750],
            color: SquareColor::Blue,
        },
        7 => SquareInfo {
            price: 160,
            house_price: 100,
            rent: [12, 60, 180, 500, 700, 900],
            color: SquareColor::Green,
        },
        8 => SquareInfo {
            price: 180,
            house_price: 100,
            rent: [14, 70, 200, 550, 750, 950],
            color: SquareColor::Red,
        },
        9 => SquareInfo {
            price: 180,
            house_price: 100,
            rent: [14, 70, 200, 550, 750, 950],
            color: SquareColor::Yellow,
        },
        10 => SquareInfo {
            price: 200,
            house_price: 100,
            rent: [16, 80, 220, 600, 800, 1000],
            color: SquareColor::Blue,
        },
        11 => SquareInfo {
            price: 220,
            house_price: 150,
            rent: [18, 90, 250, 700, 875, 1050],
            color: SquareColor::Green,
        },
        12 => SquareInfo {
            price: 220,
            house_price: 150,
            rent: [18, 90, 250, 700, 875, 1050],
            color: SquareColor::Red,
        },
        13 => SquareInfo {
            price: 240,
            house_price: 150,
            rent: [20, 100, 300, 750, 925, 1100],
            color: SquareColor::Yellow,
        },
        14 => SquareInfo {
            price: 260,
            house_price: 150,
            rent: [22, 110, 330, 800, 975, 1150],
            color: SquareColor::Blue,
        },
        _ => SquareInfo {
            price: 260,
            house_price: 150,
            rent: [22, 110, 330, 800, 975, 1150],
            color: SquareColor::Green,
        },
    }
}

/// The game account: two players, whose turn it is, what the game waits for,
/// the dice and the owner of each square.
#[derive(Clone, Copy, Debug)]
pub struct Game {
    pub players: [Player; 2],
    pub current_player: WhichPlayer,
    pub player_status: PlayerStatus,
    pub dice_status: DiceStatus,
    pub board_status: [SquareStatus; 16],
}

/// A square's state can be played on: its house level has an entry in the rent row.
pub open spec fn square_ok(s: SquareStatus) -> bool {
    s matches SquareStatus::Owned { level, .. } ==> level <= MAX_LEVEL
}

impl Game {
    /// The player in seat `w`.
    pub open spec fn player(self, w: WhichPlayer) -> Player {
        self.players[w.index()]
    }

    /// The state every game reachable through the instructions is in: both
    /// players stand on the board, each owned square's level has a rent, and
    /// a square on sale is on the board.
    pub open spec fn wf(self) -> bool {
        &&& self.players[0].position < BOARD_SIZE
        &&& self.players[1].position < BOARD_SIZE
        &&& forall|i: int| 0 <= i < 16 ==> square_ok(#[trigger] self.board_status[i])
        &&& (self.player_status matches PlayerStatus::Sell { position, .. } ==> position < BOARD_SIZE)
    }

    /// Checks `wf`: whether the game can be played on.
    pub fn is_playable(&self) -> (r: bool)
        ensures
            r == self.wf(),
    {
        if self.players[0].position >= BOARD_SIZE || self.players[1].position >= BOARD_SIZE {
            return false;
        }
        match self.player_status {
            PlayerStatus::Sell { position, .. } => if position >= BOARD_SIZE {
                return false;
            },
            _ => {},
        }
        let mut i: usize = 0;
        while i < 16
            invariant
                i <= 16,
                forall|j: int| 0 <= j < i ==> square_ok(#[trigger] self.board_status[j]),
            decreases 16 - i,
        {
            match self.board_status[i] {
                SquareStatus::Owned { level, .. } => if level > MAX_LEVEL {
                    return false;
                },
                _ => {},
            }
            i = i + 1;
        }
        true
    }

    /// This game with the balance of seat `w` replaced.
    pub open spec fn with_balance(self, w: WhichPlayer, balance: u16) -> Game {
        Game {
            players: vstd::array::spec_array_update(
                self.players,
                w.index(),
                Player { balance, ..self.players[w.index()] },
            ),
            ..self
        }
    }

    /// This game with the position of seat `w` replaced.
    pub open spec fn with_position(self, w: WhichPlayer, position: u8) -> Game {
        Game {
            players: vstd::array::spec_array_update(
                self.players,
                w.index(),
                Player { position, ..self.players[w.index()] },
            ),
            ..self
        }
    }

    /// This game with the square at `position` in state `s`.
    pub open spec fn with_square(self, position: int, s: SquareStatus) -> Game {
        Game { board_status: vstd::array::spec_array_update(self.board_status, position, s), ..self }
    }

    /// The game as `new` opens it between these two keys: each player has the
    /// seed money and stands on the start square, player one moves first, the
    /// dice show six and no square is owned.
    pub open spec fn is_initial(self, player_one: Pubkey, player_two: Pubkey) -> bool {
        &&& self.players[0] == Player { pubkey: player_one, balance: SEED_MONEY, position: 0 }
        &&& self.players[1] == Player { pubkey: player_two, balance: SEED_MONEY, position: 0 }
        &&& self.current_player == WhichPlayer::PlayerOne
        &&& self.player_status == PlayerStatus::BeforeMoving
        &&& self.dice_status matches DiceStatus::Rolled(6)
        &&& forall|i: int| 0 <= i < 16 ==> self.board_status[i] == SquareStatus::Unowned
    }

    /// Opens a game between two players: each has the seed money and stands on
    /// the start square, player one moves first, no square is owned.
    pub fn new(player_one_pubkey: Pubkey, player_two_pubkey: Pubkey) -> (g: Game)
        ensures
            g.is_initial(player_one_pubkey, player_two_pubkey),
            g.wf(),
    {
        Game {
            players: [
                Player { pubkey: player_one_pubkey, balance: SEED_MONEY, position: 0 },
                Player { pubkey: player_two_pubkey, balance: SEED_MONEY, position: 0 },
            ],
            current_player: WhichPlayer::PlayerOne,
            player_status: PlayerStatus::BeforeMoving,
            dice_status: DiceStatus::Rolled(6),
            board_status: [SquareStatus::Unowned; 16],
        }
    }
}

} // verus!
