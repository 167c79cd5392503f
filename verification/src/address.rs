use vstd::prelude::*;

use crate::game::{Players, Pubkey};

verus! {

/// The address `Pubkey::try_find_program_address` derives from `seeds` for the
/// program `program_id`, with its bump seed; `None` when it finds none.
pub uninterp spec fn program_address(seeds: Seq<Seq<u8>>, program_id: Seq<u8>) -> Option<(Seq<u8>, u8)>;

/// `solana_program::pubkey::Pubkey::try_find_program_address` (re-exported by
/// `anchor_lang`). Claimed: its result is `program_address` of the seeds and the
/// program id, a function of them alone. Nothing is claimed of how the address
/// is derived.
#[verifier::external_body]
fn try_find_program_address(seeds: &Vec<Vec<u8>>, program_id: &[u8; 32]) -> (r: Option<([u8; 32], u8)>)
    ensures
        match r {
            Some((address, bump)) => program_address(seeds@.map_values(|s: Vec<u8>| s@), program_id@) == Some((address@, bump)),
            None => program_address(seeds@.map_values(|s: Vec<u8>| s@), program_id@) is None,
        },
{
    let seeds: Vec<&[u8]> = seeds.iter().map(|s| s.as_slice()).collect();
    let program_id = anchor_lang::solana_program::pubkey::Pubkey::new_from_array(*program_id);
    anchor_lang::solana_program::pubkey::Pubkey::try_find_program_address(&seeds, &program_id).map(
        |(address, bump)| (address.to_bytes(), bump),
    )
}

/// The address of the program that holds the games.
pub open spec fn program_id_bytes() -> Seq<u8> {
    seq![
        228u8, 13, 56, 216, 214, 161, 210, 4, 106, 152, 12, 147, 11, 183, 124, 28,
        191, 85, 45, 127, 106, 1, 163, 239, 11, 207, 10, 3, 45, 86, 118, 155,
    ]
}

/// The address of the program that holds the games
/// (`GMDedNzaiCffFmBNVBDUzd6Ub6XLQ4xhoWfswBRmYqbG`).
pub fn program_id() -> (id: Pubkey)
    ensures
        id@ == program_id_bytes(),
{
    Pubkey {
        bytes: [
            228, 13, 56, 216, 214, 161, 210, 4, 106, 152, 12, 147, 11, 183, 124, 28,
            191, 85, 45, 127, 106, 1, 163, 239, 11, 207, 10, 3, 45, 86, 118, 155,
        ],
    }
}

/// The seeds of a game account: the word `game` and the two players' keys.
pub open spec fn game_seeds(players: Players) -> Seq<Seq<u8>> {
    seq![seq![103u8, 97, 109, 101], players.player_one@, players.player_two@]
}

/// Copies the 32 bytes of a key into a vector.
fn key_bytes(key: &Pubkey) -> (v: Vec<u8>)
    ensures
        v@ == key@,
{
    let mut v: Vec<u8> = Vec::new();
    let mut i: usize = 0;
    while i < 32
        invariant
            0 <= i <= 32,
            key@.len() == 32,
            v@ == key@.take(i as int),
        decreases 32 - i,
    {
        v.push(key.bytes[i]);
        assert(key@.take(i + 1) == key@.take(i as int).push(key@[i as int]));
        i = i + 1;
    }
    assert(key@.take(32) == key@);
    v
}

fn seeds_of(players: &Players) -> (seeds: Vec<Vec<u8>>)
    ensures
        seeds@.map_values(|s: Vec<u8>| s@) == game_seeds(*players),
{
    let mut word: Vec<u8> = Vec::new();
    word.push(103);
    word.push(97);
    word.push(109);
    word.push(101);
    let one: Vec<u8> = key_bytes(&players.player_one);
    let two: Vec<u8> = key_bytes(&players.player_two);
    assert(word@ =~= seq![103u8, 97, 109, 101]);
    let mut seeds: Vec<Vec<u8>> = Vec::new();
    seeds.push(word);
    seeds.push(one);
    seeds.push(two);
    assert(seeds@.map_values(|s: Vec<u8>| s@) =~= game_seeds(*players));
    seeds
}

impl Players {
    /// The address of the game between the two players, as the program derives it.
    pub fn to_pda(&self) -> (address: Pubkey)
        requires
            program_address(game_seeds(*self), program_id_bytes()) is Some,
        ensures
            program_address(game_seeds(*self), program_id_bytes()) matches Some((k, _)) && k == address@,
    {
        let seeds = seeds_of(self);
        let id = program_id();
        match try_find_program_address(&seeds, &id.bytes) {
            Some((address, _)) => Pubkey { bytes: address },
            None => Pubkey { bytes: [0; 32] },
        }
    }

    /// The address of the game between the two players, or `None` when the
    /// derivation finds no address.
    pub fn try_to_pda(&self) -> (address: Option<Pubkey>)
        ensures
            match address {
                Some(a) => program_address(game_seeds(*self), program_id_bytes()) matches Some((k, _)) && k == a@,
                None => program_address(game_seeds(*self), program_id_bytes()) is None,
            },
    {
        let seeds = seeds_of(self);
        let id = program_id();
        match try_find_program_address(&seeds, &id.bytes) {
            Some(_) => Some(self.to_pda()),
            None => None,
        }
    }
}

} // verus!
