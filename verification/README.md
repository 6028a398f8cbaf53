# aze

A verified library for a poker table whose state lives in on-chain accounts,
and for the decisions its command-line client takes.

- `src/gamestate.rs`: the table (`PokerGame`), its mathematical view
  (`GameView`), the rules of a move (`check_move`, `refusal`,
  `check_move_defined`) and the laws they keep (chips, seats, turn order).
- `src/actions.rs`: move kinds, their labels, the server's error codes.
- `src/cli/`: what each command decides between its prompts and round trips:
  the moves offered to a player, the game id in a server URL, the next step
  after consuming notes, the player id to peek with.
- `src/executor.rs`: retry decisions for node requests, and when a submitted
  transaction counts as committed.
- `app/`: the prompts, files, WebSocket and node accesses, and the copies of
  the library's types that carry serde, clap and actix-web traits.
- `tests/`: runtime tests of the library.
