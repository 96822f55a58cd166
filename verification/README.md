# guess_chess

The rules of a two-player chess server with a "Mad Scientist" pocket variant,
written in Verus and proved against their specifications.

- `src/` is the verified library:
  - `game.rs`: game records, the seat rule, the game table and matchmaking;
  - `play.rs`: whose turn it is, ordinary moves, promotions, the pockets of
    captured pieces and pocket drops, and the end of a game;
  - `fen.rs`: FEN piece placement and the board built for a drop;
  - `views.rs` and `signals.rs`: what the pages show and the refresh signals;
  - `engine.rs`: the calls into the `chess` and `uuid` crates, behind trusted
    contracts; `text.rs` and `registry.rs`: helpers and the keyed tables;
  - `laws.rs`: properties that span calls.
- `tests/` runs the library on concrete games.
- `app/` is the web server (routes, HTML, WebSocket refresh, cookies) around
  the library.
