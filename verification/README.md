# monopoly

The rules of a two-player, sixteen-square Monopoly game played on Solana, as a
Verus-verified library.

- `src/game.rs`: the game account (players, turn, dice, board) and the board
  table; `Game::new` opens a game.
- `src/play.rs`: who signed a move; `outcome`, the shape of every move's
  contract (a failed move leaves the game as it was).
- `src/dice.rs`: the commit-reveal dice round (`roll_dice`, `commit_dice_hash`,
  `commit_dice_plain`).
- `src/trade.rs`: buying, auctions and sales between the players.
- `src/property.rs`: mortgages and selling houses; `src/board.rs`: colour groups.
- `src/turn.rs`: ending a turn (rent, auctions, losing) and opening a game.
- `src/address.rs`: the program-derived address of a game.
- `src/client.rs`: what the browser client decides (who is looking, who won,
  who may act, what an auction and the board show, its side of a dice round)
  and how it reads typed-in bids; `game::parse_pubkey` reads typed-in keys.
- `src/monopoly_program.rs`: the program's instructions.
- `src/laws.rs`: properties that span moves, proved.
- `app/lib.rs`: the Anchor program around the library: account layout,
  signer check, errors, and the instructions a client sends.

Every move's contract gives the resulting game exactly, as a function of the
game before, the signer and the arguments; every move keeps the game playable
(`Game::wf`).
