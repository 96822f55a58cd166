//! The refresh signals between the move handlers and the WebSocket clients,
//! and the seat a matched player is sent to.

use vstd::prelude::*;
use vstd::string::*;
use crate::text::{ends_with, starts_with, has_suffix, has_prefix, head_until, tail_from};
use crate::game::{ChessGame, holds};

verus! {

/// The text that tells the clients of game `id` to reload its board.
pub open spec fn refresh_text(id: Seq<char>) -> Seq<char> {
    id + ":refresh"@
}

/// The game a refresh signal is for: the text before a final `:refresh`.
pub open spec fn refresh_target_of(msg: Seq<char>) -> Option<Seq<char>> {
    if has_suffix(msg, ":refresh"@) {
        Some(msg.subrange(0, msg.len() - 8))
    } else {
        None
    }
}

/// The game id a WebSocket request path names: the text after a leading `/ws/`.
pub open spec fn socket_game_of(path: Seq<char>) -> Option<Seq<char>> {
    if has_prefix(path, "/ws/"@) {
        Some(path.subrange(4, path.len() as int))
    } else {
        None
    }
}

/// The refresh signal for game `game_id`.
pub fn refresh_message(game_id: &str) -> (r: String)
    ensures
        r@ == refresh_text(game_id@),
{
    let mut s = String::from_str(game_id);
    s.append(":refresh");
    s
}

/// The game a signal asks to refresh (`str::strip_suffix(":refresh")`).
pub fn refresh_target(msg: &str) -> (r: Option<String>)
    ensures
        r.deep_view() == refresh_target_of(msg@),
{
    proof {
        reveal_strlit(":refresh");
    }
    if ends_with(msg, ":refresh") {
        let n = msg.unicode_len();
        Some(head_until(msg, n - 8))
    } else {
        None
    }
}

/// Whether a client watching game `game_id` must reload on signal `msg`.
pub fn should_refresh(msg: &str, game_id: &str) -> (r: bool)
    ensures
        r == (refresh_target_of(msg@) == Some(game_id@)),
{
    match refresh_target(msg) {
        Some(target) => crate::text::str_equal(target.as_str(), game_id),
        None => false,
    }
}

/// The game id in a WebSocket request path (`str::strip_prefix("/ws/")`).
pub fn socket_game_id(path: &str) -> (r: Option<String>)
    ensures
        r.deep_view() == socket_game_of(path@),
{
    proof {
        reveal_strlit("/ws/");
    }
    if starts_with(path, "/ws/") {
        Some(tail_from(path, 4))
    } else {
        None
    }
}

/// The seat a matched player is sent to: Black when the game seats the
/// player as Black, White otherwise (also when the game is gone).
pub open spec fn redirect_seat(black_player: Option<Option<Seq<char>>>, player: Seq<char>) -> Seq<
    char,
> {
    match black_player {
        Some(b) => if b == Some(player) {
            "black"@
        } else {
            "white"@
        },
        None => "white"@,
    }
}

/// The seat `player_id` is sent to in `game` after matchmaking.
pub fn redirect_role(game: &Option<ChessGame>, player_id: &str) -> (r: String)
    ensures
        r@ == redirect_seat(
            match game {
                Some(g) => Some(g@.black_player),
                None => None,
            },
            player_id@,
        ),
{
    match game {
        Some(g) => if holds(&g.black_player, player_id) {
            String::from_str("black")
        } else {
            String::from_str("white")
        },
        None => String::from_str("white"),
    }
}

/// A refresh signal reaches exactly the clients of the game it was sent
/// for.
pub proof fn law_refresh_reaches_its_game(id: Seq<char>, watched: Seq<char>)
    ensures
        (refresh_target_of(refresh_text(id)) == Some(watched)) == (id == watched),
{
    reveal_strlit(":refresh");
    let m = refresh_text(id);
    assert(m.subrange(m.len() - 8, m.len() as int) =~= ":refresh"@);
    assert(m.subrange(0, m.len() - 8) =~= id);
}

} // verus!
