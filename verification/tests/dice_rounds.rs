use monopoly::dice::{commit_dice_hash, commit_dice_plain, dice_commitment, roll_dice, try_commit_dice_plain};
use monopoly::error::GameError;
use monopoly::game::{DicePlain, DiceStatus, Game, Pubkey, WhichPlayer};
use monopoly::play::Play;

fn key(n: u8) -> Pubkey {
    Pubkey::new_from_array([n; 32])
}

fn play(game: Game, signer: u8) -> Play {
    Play { game, player: key(signer) }
}

fn rolling(hashes: [Option<[u8; 32]>; 2], plain: Option<DicePlain>) -> DiceStatus {
    DiceStatus::Rolling { hash_from_each: hashes, plain_from_either: plain }
}

fn hashes_of(g: &Game) -> [Option<[u8; 32]>; 2] {
    match g.dice_status {
        DiceStatus::Rolling { hash_from_each, .. } => hash_from_each,
        DiceStatus::Rolled(_) => panic!("not rolling"),
    }
}

#[test]
fn commitment_is_sha256_of_number_and_salt() {
    let expected: [u8; 32] = [
        46, 250, 32, 81, 237, 76, 239, 82, 229, 174, 155, 37, 139, 37, 80, 142, 174, 240, 238, 196, 146, 22, 173,
        167, 66, 161, 69, 156, 223, 112, 54, 150,
    ];
    assert_eq!(dice_commitment(3, &[7; 32]), expected);
    let other: [u8; 32] = [
        163, 142, 148, 65, 14, 161, 184, 32, 189, 254, 88, 163, 218, 132, 28, 193, 169, 168, 132, 21, 188, 172, 206,
        219, 30, 1, 19, 23, 166, 201, 76, 97,
    ];
    assert_eq!(dice_commitment(4, &[9; 32]), other);
}

#[test]
fn roll_dice_opens_a_round() {
    let mut ctx = play(Game::new(key(1), key(2)), 1);
    assert_eq!(roll_dice(&mut ctx), Ok(()));
    assert_eq!(hashes_of(&ctx.game), [None, None]);
    assert!(matches!(ctx.game.dice_status, DiceStatus::Rolling { plain_from_either: None, .. }));
}

#[test]
fn roll_dice_refuses_the_other_player() {
    let mut ctx = play(Game::new(key(1), key(2)), 2);
    assert_eq!(roll_dice(&mut ctx), Err(GameError::NotCurrentPlayer));
    assert!(matches!(ctx.game.dice_status, DiceStatus::Rolled(6)));
}

#[test]
fn roll_dice_refuses_a_stranger() {
    let mut ctx = play(Game::new(key(1), key(2)), 3);
    assert_eq!(roll_dice(&mut ctx), Err(GameError::NotPlayer));
}

#[test]
fn commit_hash_needs_a_round() {
    let mut ctx = play(Game::new(key(1), key(2)), 2);
    assert_eq!(commit_dice_hash(&mut ctx, [5; 32]), Err(GameError::NotRolling));
}

#[test]
fn commit_hash_records_each_players_hash() {
    let mut g = Game::new(key(1), key(2));
    g.dice_status = rolling([None, None], None);
    let mut ctx = play(g, 2);
    assert_eq!(commit_dice_hash(&mut ctx, [5; 32]), Ok(()));
    assert_eq!(hashes_of(&ctx.game), [None, Some([5; 32])]);
    ctx.player = key(1);
    assert_eq!(commit_dice_hash(&mut ctx, [6; 32]), Ok(()));
    assert_eq!(hashes_of(&ctx.game), [Some([6; 32]), Some([5; 32])]);
}

#[test]
fn commit_hash_after_a_reveal_drops_the_other_hash_and_the_reveal() {
    let mut g = Game::new(key(1), key(2));
    let plain = DicePlain { from: WhichPlayer::PlayerTwo, random_num: 4, salt: [9; 32] };
    g.dice_status = rolling([Some([1; 32]), Some([2; 32])], Some(plain));
    let mut ctx = play(g, 1);
    assert_eq!(commit_dice_hash(&mut ctx, [8; 32]), Ok(()));
    assert_eq!(hashes_of(&ctx.game), [Some([8; 32]), None]);
    assert!(matches!(ctx.game.dice_status, DiceStatus::Rolling { plain_from_either: None, .. }));
}

#[test]
fn reveal_needs_both_hashes() {
    let mut g = Game::new(key(1), key(2));
    g.dice_status = rolling([Some(dice_commitment(3, &[7; 32])), None], None);
    let mut ctx = play(g, 1);
    assert_eq!(commit_dice_plain(&mut ctx, 3, [7; 32]), Err(GameError::HashCollectNotFinish));
}

#[test]
fn reveal_must_match_the_commitment() {
    let mut g = Game::new(key(1), key(2));
    g.dice_status = rolling([Some(dice_commitment(3, &[7; 32])), Some(dice_commitment(4, &[9; 32]))], None);
    let mut ctx = play(g, 1);
    assert_eq!(commit_dice_plain(&mut ctx, 3, [8; 32]), Err(GameError::HashVerifyFailed));
    assert_eq!(commit_dice_plain(&mut ctx, 4, [9; 32]), Err(GameError::HashVerifyFailed));
}

#[test]
fn reveal_needs_a_round() {
    let mut ctx = play(Game::new(key(1), key(2)), 1);
    assert_eq!(commit_dice_plain(&mut ctx, 3, [7; 32]), Err(GameError::NotRolling));
}

fn full_round(first: u8, second: u8, start: u8, balance: u16) -> Game {
    let mut g = Game::new(key(1), key(2));
    g.players[0].position = start;
    g.players[0].balance = balance;
    let mut ctx = play(g, 1);
    assert_eq!(roll_dice(&mut ctx), Ok(()));
    ctx.player = key(1);
    assert_eq!(commit_dice_hash(&mut ctx, dice_commitment(3, &[7; 32])), Ok(()));
    ctx.player = key(2);
    assert_eq!(commit_dice_hash(&mut ctx, dice_commitment(4, &[9; 32])), Ok(()));
    for signer in [first, second] {
        ctx.player = key(signer);
        let result = if signer == 1 {
            commit_dice_plain(&mut ctx, 3, [7; 32])
        } else {
            commit_dice_plain(&mut ctx, 4, [9; 32])
        };
        assert_eq!(result, Ok(()));
    }
    ctx.game
}

#[test]
fn a_full_round_moves_the_current_player() {
    let g = full_round(1, 2, 0, 1500);
    assert!(matches!(g.dice_status, DiceStatus::Rolled(2)));
    assert_eq!(g.players[0].position, 2);
    assert_eq!(g.players[0].balance, 1500);
    assert_eq!(g.players[1].position, 0);
}

#[test]
fn reveal_order_does_not_change_the_outcome() {
    let a = full_round(1, 2, 0, 1500);
    let b = full_round(2, 1, 0, 1500);
    assert!(matches!(b.dice_status, DiceStatus::Rolled(2)));
    assert_eq!(a.players[0].position, b.players[0].position);
    assert_eq!(a.players[0].balance, b.players[0].balance);
}

#[test]
fn passing_the_start_pays_the_salary() {
    let g = full_round(2, 1, 15, 100);
    assert_eq!(g.players[0].position, 1);
    assert_eq!(g.players[0].balance, 300);
}

#[test]
fn landing_exactly_on_the_start_pays_the_salary() {
    let g = full_round(1, 2, 14, 0);
    assert_eq!(g.players[0].position, 0);
    assert_eq!(g.players[0].balance, 200);
}

#[test]
fn a_second_reveal_by_the_same_player_replaces_the_first() {
    let mut g = Game::new(key(1), key(2));
    g.dice_status = rolling([Some(dice_commitment(3, &[7; 32])), Some(dice_commitment(4, &[9; 32]))], None);
    let mut ctx = play(g, 1);
    assert_eq!(commit_dice_plain(&mut ctx, 3, [7; 32]), Ok(()));
    assert_eq!(commit_dice_plain(&mut ctx, 3, [7; 32]), Ok(()));
    match ctx.game.dice_status {
        DiceStatus::Rolling { plain_from_either: Some(p), .. } => {
            assert_eq!(p.from, WhichPlayer::PlayerOne);
            assert_eq!(p.random_num, 3);
        },
        _ => panic!("round ended"),
    }
    assert_eq!(ctx.game.players[0].position, 0);
}

#[test]
fn an_overflowing_reveal_is_held_back() {
    let mut g = Game::new(key(1), key(2));
    let plain = DicePlain { from: WhichPlayer::PlayerTwo, random_num: 1, salt: [1; 32] };
    g.dice_status = rolling([Some(dice_commitment(65535, &[1; 32])), Some(dice_commitment(1, &[1; 32]))], Some(plain));
    let before = g;
    let mut ctx = play(g, 1);
    assert_eq!(try_commit_dice_plain(&mut ctx, 65535, [1; 32]), None);
    assert_eq!(ctx.game.players[0].position, before.players[0].position);
    assert!(matches!(ctx.game.dice_status, DiceStatus::Rolling { plain_from_either: Some(_), .. }));
}

#[test]
fn a_reveal_that_fits_goes_through() {
    let mut g = Game::new(key(1), key(2));
    let plain = DicePlain { from: WhichPlayer::PlayerTwo, random_num: 4, salt: [9; 32] };
    g.dice_status = rolling([Some(dice_commitment(3, &[7; 32])), Some(dice_commitment(4, &[9; 32]))], Some(plain));
    let mut ctx = play(g, 1);
    assert_eq!(try_commit_dice_plain(&mut ctx, 3, [7; 32]), Some(Ok(())));
    assert!(matches!(ctx.game.dice_status, DiceStatus::Rolled(2)));
    assert_eq!(ctx.game.players[0].position, 2);
}
