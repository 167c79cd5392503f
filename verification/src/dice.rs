use vstd::prelude::*;

use crate::error::GameError;
use crate::game::{bytes_equal, DicePlain, DiceStatus, Game, WhichPlayer, BOARD_SIZE, SALARY};
use crate::play::{call_from, outcome, seat_of, Play};

verus! {

broadcast use vstd::array::group_array_axioms;

/// The SHA-256 digest of `data`, as `solana_program::hash::hash` computes it.
pub uninterp spec fn sha256(data: Seq<u8>) -> Seq<u8>;

/// `solana_program::hash::hash` (re-exported by `anchor_lang`): the SHA-256
/// digest of the bytes. Claimed: the digest is `sha256` of the bytes, a
/// function of them alone. Nothing is claimed of what SHA-256 computes.
#[verifier::external_body]
fn hash(data: &[u8]) -> (digest: [u8; 32])
    ensures
        digest@ == sha256(data@),
{
    anchor_lang::solana_program::hash::hash(data).to_bytes()
}

/// The bytes a dice number is committed by: the number in big-endian order,
/// then the salt.
pub open spec fn dice_preimage(random_num: u16, salt: Seq<u8>) -> Seq<u8> {
    seq![(random_num / 256) as u8, (random_num % 256) as u8] + salt
}

/// The hash commitment of a dice number with its salt.
pub open spec fn commitment(random_num: u16, salt: Seq<u8>) -> Seq<u8> {
    sha256(dice_preimage(random_num, salt))
}

/// Computes the commitment of `random_num` with `salt`: the hash of the
/// number's big-endian bytes followed by the salt.
pub fn dice_commitment(random_num: u16, salt: &[u8; 32]) -> (h: [u8; 32])
    ensures
        h@ == commitment(random_num, salt@),
{
    let mut data: Vec<u8> = Vec::new();
    data.push((random_num / 256) as u8);
    data.push((random_num % 256) as u8);
    let mut i: usize = 0;
    while i < 32
        invariant
            0 <= i <= 32,
            salt@.len() == 32,
            data@ == seq![(random_num / 256) as u8, (random_num % 256) as u8] + salt@.take(i as int),
        decreases 32 - i,
    {
        data.push(salt[i]);
        assert(salt@.take(i + 1) == salt@.take(i as int).push(salt@[i as int]));
        i = i + 1;
    }
    assert(salt@.take(32) == salt@);
    hash(data.as_slice())
}

/// The number the dice show from the two revealed numbers: their sum modulo
/// six, plus one.
pub open spec fn dice_number(a: u16, b: u16) -> u8 {
    ((a + b) % 6 + 1) as u8
}

/// The hash seat `w` committed in this round, or the empty sequence.
pub open spec fn committed_hash(hash_from_each: [Option<[u8; 32]>; 2], w: WhichPlayer) -> Seq<u8> {
    match hash_from_each[w.index()] {
        Some(h) => h@,
        None => Seq::empty(),
    }
}

/// `roll_dice`: the current player opens a dice round: no hash committed, no
/// number revealed.
pub open spec fn roll_dice_spec(g: Game, caller: Seq<u8>) -> Result<Game, GameError> {
    match seat_of(g, caller) {
        None => Err(GameError::NotPlayer),
        Some(w) => if w != g.current_player {
            Err(GameError::NotCurrentPlayer)
        } else {
            Ok(
                Game {
                    dice_status: DiceStatus::Rolling { hash_from_each: [None, None], plain_from_either: None },
                    ..g
                },
            )
        },
    }
}

/// `commit_dice_hash`: during a round either player commits a hash. When a
/// number was already revealed the other player's hash is dropped; the
/// revealed number always is.
pub open spec fn commit_dice_hash_spec(g: Game, caller: Seq<u8>, hash: [u8; 32]) -> Result<Game, GameError> {
    match seat_of(g, caller) {
        None => Err(GameError::NotPlayer),
        Some(w) => match g.dice_status {
            DiceStatus::Rolling { hash_from_each, plain_from_either } => {
                let mine = vstd::array::spec_array_update(hash_from_each, w.index(), Some(hash));
                let hashes = if plain_from_either is Some {
                    vstd::array::spec_array_update(mine, w.other().index(), None)
                } else {
                    mine
                };
                Ok(
                    Game {
                        dice_status: DiceStatus::Rolling { hash_from_each: hashes, plain_from_either: None },
                        ..g
                    },
                )
            },
            DiceStatus::Rolled(_) => Err(GameError::NotRolling),
        },
    }
}

/// The game after the second number of a round is revealed: the dice show
/// `dice`, the current player moves that many squares around the board and
/// collects the salary when it passes the start.
pub open spec fn moved(g: Game, dice: u8) -> Game {
    let cur = g.current_player;
    let from = g.player(cur).position;
    let rolled = Game { dice_status: DiceStatus::Rolled(dice), ..g }.with_position(
        cur,
        ((from + dice) % (BOARD_SIZE as int)) as u8,
    );
    if from + dice >= BOARD_SIZE {
        rolled.with_balance(cur, (rolled.player(cur).balance + SALARY) as u16)
    } else {
        rolled
    }
}

/// `commit_dice_plain`: once both hashes are in, a player reveals its number
/// and salt, which must hash to its commitment. The first reveal is recorded;
/// a reveal by the other player than the recorded one ends the round (see
/// `moved`). A second reveal by the same player replaces the first.
pub open spec fn commit_dice_plain_spec(g: Game, caller: Seq<u8>, random_num: u16, salt: [u8; 32]) -> Result<
    Game,
    GameError,
> {
    match seat_of(g, caller) {
        None => Err(GameError::NotPlayer),
        Some(w) => match g.dice_status {
            DiceStatus::Rolling { hash_from_each, plain_from_either } => {
                let record = Game {
                    dice_status: DiceStatus::Rolling {
                        hash_from_each,
                        plain_from_either: Some(DicePlain { from: w, random_num, salt }),
                    },
                    ..g
                };
                if hash_from_each[0] is None || hash_from_each[1] is None {
                    Err(GameError::HashCollectNotFinish)
                } else if commitment(random_num, salt@) != committed_hash(hash_from_each, w) {
                    Err(GameError::HashVerifyFailed)
                } else {
                    match plain_from_either {
                        Some(plain) => if plain.from != w {
                            Ok(moved(g, dice_number(random_num, plain.random_num)))
                        } else {
                            Ok(record)
                        },
                        None => Ok(record),
                    }
                }
            },
            DiceStatus::Rolled(_) => Err(GameError::NotRolling),
        },
    }
}

/// Whether `commit_dice_plain` would overflow: the reveal ends the round and
/// either the two numbers sum past `u16::MAX` or the salary carries the mover's
/// balance past it. The program aborts on such an overflow.
pub open spec fn commit_dice_plain_overflows(g: Game, caller: Seq<u8>, random_num: u16, salt: [u8; 32]) -> bool {
    match seat_of(g, caller) {
        None => false,
        Some(w) => match g.dice_status {
            DiceStatus::Rolling { hash_from_each, plain_from_either } => {
                &&& hash_from_each[0] is Some
                &&& hash_from_each[1] is Some
                &&& commitment(random_num, salt@) == committed_hash(hash_from_each, w)
                &&& plain_from_either matches Some(plain)
                &&& plain.from != w
                &&& {
                    ||| random_num + plain.random_num > u16::MAX
                    ||| {
                        let cur = g.current_player;
                        &&& g.player(cur).position + dice_number(random_num, plain.random_num) >= BOARD_SIZE
                        &&& g.player(cur).balance + SALARY > u16::MAX
                    }
                }
            },
            DiceStatus::Rolled(_) => false,
        },
    }
}

pub fn roll_dice(ctx: &mut Play) -> (r: Result<(), GameError>)
    ensures
        outcome(old(ctx).game, final(ctx).game, r, roll_dice_spec(old(ctx).game, old(ctx).player@)),
        final(ctx).player == old(ctx).player,
        old(ctx).game.wf() ==> final(ctx).game.wf(),
{
    let call_from = call_from(ctx)?;
    if call_from != ctx.game.current_player {
        return Err(GameError::NotCurrentPlayer);
    }
    ctx.game.dice_status = DiceStatus::Rolling { hash_from_each: [None, None], plain_from_either: None };
    Ok(())
}

pub fn commit_dice_hash(ctx: &mut Play, hash: [u8; 32]) -> (r: Result<(), GameError>)
    ensures
        outcome(old(ctx).game, final(ctx).game, r, commit_dice_hash_spec(old(ctx).game, old(ctx).player@, hash)),
        final(ctx).player == old(ctx).player,
        old(ctx).game.wf() ==> final(ctx).game.wf(),
{
    let call_from = call_from(ctx)?;
    match ctx.game.dice_status {
        DiceStatus::Rolling { hash_from_each, plain_from_either } => {
            let mut hashes = hash_from_each;
            hashes[call_from.as_index()] = Some(hash);
            if plain_from_either.is_some() {
                hashes[call_from.either_index()] = None;
            }
            ctx.game.dice_status = DiceStatus::Rolling { hash_from_each: hashes, plain_from_either: None };
        },
        DiceStatus::Rolled(_) => {
            return Err(GameError::NotRolling);
        },
    }
    Ok(())
}

pub fn commit_dice_plain(ctx: &mut Play, random_num: u16, salt: [u8; 32]) -> (r: Result<(), GameError>)
    requires
        old(ctx).game.wf(),
        !commit_dice_plain_overflows(old(ctx).game, old(ctx).player@, random_num, salt),
    ensures
        outcome(
            old(ctx).game,
            final(ctx).game,
            r,
            commit_dice_plain_spec(old(ctx).game, old(ctx).player@, random_num, salt),
        ),
        final(ctx).player == old(ctx).player,
        final(ctx).game.wf(),
{
    let call_from = call_from(ctx)?;
    let (hash_from_each, plain_from_either) = match ctx.game.dice_status {
        DiceStatus::Rolling { hash_from_each, plain_from_either } => (hash_from_each, plain_from_either),
        DiceStatus::Rolled(_) => {
            return Err(GameError::NotRolling);
        },
    };
    let hash_commited_before = match (hash_from_each[0], hash_from_each[1]) {
        (Some(player_one_hash), Some(player_two_hash)) => match call_from {
            WhichPlayer::PlayerOne => player_one_hash,
            WhichPlayer::PlayerTwo => player_two_hash,
        },
        _ => {
            return Err(GameError::HashCollectNotFinish);
        },
    };
    let hash_from_plain = dice_commitment(random_num, &salt);
    if !bytes_equal(&hash_from_plain, &hash_commited_before) {
        return Err(GameError::HashVerifyFailed);
    }
    let ends_round = match plain_from_either {
        Some(plain) => plain.from != call_from,
        None => false,
    };
    if ends_round {
        let earlier = match plain_from_either {
            Some(plain) => plain.random_num,
            None => 0,
        };
        let dice_num = ((random_num + earlier) % 6 + 1) as u8;
        ctx.game.dice_status = DiceStatus::Rolled(dice_num);
        let i = ctx.game.current_player.as_index();
        let old_position = ctx.game.players[i].position;
        let new_position = (old_position + dice_num) % BOARD_SIZE;
        ctx.game.players[i].position = new_position;
        if old_position + dice_num >= BOARD_SIZE {
            ctx.game.players[i].balance = ctx.game.players[i].balance + SALARY;
        }
    } else {
        ctx.game.dice_status = DiceStatus::Rolling {
            hash_from_each,
            plain_from_either: Some(DicePlain { from: call_from, random_num, salt }),
        };
    }
    Ok(())
}

/// Computes `commit_dice_plain_overflows`.
fn would_overflow(ctx: &Play, random_num: u16, salt: &[u8; 32]) -> (r: bool)
    ensures
        r == commit_dice_plain_overflows(ctx.game, ctx.player@, random_num, *salt),
{
    let w = match call_from(ctx) {
        Ok(w) => w,
        Err(_) => {
            return false;
        },
    };
    match ctx.game.dice_status {
        DiceStatus::Rolling { hash_from_each, plain_from_either } => {
            let committed = match (hash_from_each[0], hash_from_each[1]) {
                (Some(player_one_hash), Some(player_two_hash)) => match w {
                    WhichPlayer::PlayerOne => player_one_hash,
                    WhichPlayer::PlayerTwo => player_two_hash,
                },
                _ => {
                    return false;
                },
            };
            let h = dice_commitment(random_num, salt);
            if !bytes_equal(&h, &committed) {
                return false;
            }
            match plain_from_either {
                Some(plain) => {
                    if plain.from == w {
                        return false;
                    }
                    let sum: u32 = random_num as u32 + plain.random_num as u32;
                    if sum > 65535 {
                        return true;
                    }
                    let dice: u8 = (sum % 6 + 1) as u8;
                    let mover = ctx.game.players[ctx.game.current_player.as_index()];
                    mover.position as u16 + dice as u16 >= BOARD_SIZE as u16 && mover.balance as u32 + SALARY as u32
                        > 65535
                },
                None => false,
            }
        },
        DiceStatus::Rolled(_) => false,
    }
}

/// `commit_dice_plain` where it does not overflow: `None`, with the game
/// untouched, where the reveal would carry a sum or a balance past `u16::MAX`.
pub fn try_commit_dice_plain(ctx: &mut Play, random_num: u16, salt: [u8; 32]) -> (r: Option<Result<(), GameError>>)
    requires
        old(ctx).game.wf(),
    ensures
        r is None <==> commit_dice_plain_overflows(old(ctx).game, old(ctx).player@, random_num, salt),
        r is None ==> *final(ctx) == *old(ctx),
        r matches Some(res) ==> outcome(
            old(ctx).game,
            final(ctx).game,
            res,
            commit_dice_plain_spec(old(ctx).game, old(ctx).player@, random_num, salt),
        ),
        final(ctx).player == old(ctx).player,
        final(ctx).game.wf(),
{
    if would_overflow(ctx, random_num, &salt) {
        None
    } else {
        Some(commit_dice_plain(ctx, random_num, salt))
    }
}

} // verus!
