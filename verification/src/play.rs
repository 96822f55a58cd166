//! The move rules: whose turn it is, ordinary moves (with promotion and the
//! pocket of captured pieces in the "Mad Scientist" variant), pocket drops,
//! and the end of a game by checkmate or stalemate.

use vstd::prelude::*;
use vstd::string::*;
use crate::pieces::{PieceKind, Side, BoardState, opponent, other_side};
use crate::text::{
    str_equal, starts_with, has_prefix, tail_from, ascii_uppercase, ascii_upper, push_char,
};
use crate::engine::{
    board_text, fen_parse, fen_squares, fen_legal, fen_after, fen_status, fen_side,
    unicode_lowercase, square_named, parse_board, side_to_move, piece_on, color_on, is_legal,
    apply_move, board_status, board_to_fen, parse_square, lowercase,
};
use crate::fen::{make_drop_board, drop_outcome, piece_letter, letter_of};
use crate::game::{
    ChessGame, GameRecord, GameManager, ManagerView, holds, game_entries, text_result,
    position_reads_back, positions_read_back,
};
use crate::registry::lemma_keyed_at;

verus! {

/// The player holding the seat of side `s`.
pub open spec fn seat_of(g: GameRecord, s: Side) -> Option<Seq<char>> {
    match s {
        Side::White => g.white_player,
        Side::Black => g.black_player,
    }
}

/// The pocket of side `s`.
pub open spec fn pocket_of(g: GameRecord, s: Side) -> Seq<Seq<char>> {
    match s {
        Side::White => g.white_pocket,
        Side::Black => g.black_pocket,
    }
}

/// `g` with the pocket of side `s` replaced by `p`.
pub open spec fn with_pocket(g: GameRecord, s: Side, p: Seq<Seq<char>>) -> GameRecord {
    match s {
        Side::White => GameRecord { white_pocket: p, ..g },
        Side::Black => GameRecord { black_pocket: p, ..g },
    }
}

/// The name of a side, as the winner field writes it.
pub open spec fn side_name(s: Side) -> Seq<char> {
    match s {
        Side::White => "White"@,
        Side::Black => "Black"@,
    }
}

/// The refusal given to a player who moves out of turn.
pub open spec fn turn_error(s: Side) -> Seq<char> {
    match s {
        Side::White => "It is White's turn, but you are not White"@,
        Side::Black => "It is Black's turn, but you are not Black"@,
    }
}

/// The piece a (lower-cased) drop name asks for; kings cannot be dropped.
pub open spec fn drop_piece_named(name: Seq<char>) -> Option<PieceKind> {
    if name == "p"@ || name == "pawn"@ {
        Some(PieceKind::Pawn)
    } else if name == "n"@ || name == "knight"@ {
        Some(PieceKind::Knight)
    } else if name == "b"@ || name == "bishop"@ {
        Some(PieceKind::Bishop)
    } else if name == "r"@ || name == "rook"@ {
        Some(PieceKind::Rook)
    } else if name == "q"@ || name == "queen"@ {
        Some(PieceKind::Queen)
    } else {
        None
    }
}

/// The piece a (lower-cased) promotion name asks for; anything unknown is a queen.
pub open spec fn promotion_named(name: Seq<char>) -> PieceKind {
    if name == "n"@ || name == "knight"@ {
        PieceKind::Knight
    } else if name == "b"@ || name == "bishop"@ {
        PieceKind::Bishop
    } else if name == "r"@ || name == "rook"@ {
        PieceKind::Rook
    } else {
        PieceKind::Queen
    }
}

/// `i` is the first position of `x` in `s`.
pub open spec fn is_first_at(s: Seq<Seq<char>>, x: Seq<char>, i: int) -> bool {
    0 <= i < s.len() && s[i] == x && forall|j: int| 0 <= j < i ==> s[j] != x
}

/// The first position of `x` in `s`, if it occurs.
pub open spec fn first_index_of(s: Seq<Seq<char>>, x: Seq<char>) -> Option<int> {
    if exists|i: int| is_first_at(s, x, i) {
        Some(choose|i: int| is_first_at(s, x, i))
    } else {
        None
    }
}

proof fn lemma_first_unique(s: Seq<Seq<char>>, x: Seq<char>, i: int)
    requires
        is_first_at(s, x, i),
    ensures
        first_index_of(s, x) == Some(i),
{
    let c = choose|k: int| is_first_at(s, x, k);
    assert(is_first_at(s, x, c));
    if c < i {
        assert(s[c] != x);
    } else if c > i {
        assert(s[i] != x);
    }
}

/// The game after its board became the one with text `t2` by a move of
/// `mover`: checkmate ends it with `mover` as winner, stalemate as a draw.
pub open spec fn settle(g: GameRecord, t2: Seq<char>, mover: Side) -> GameRecord {
    let g1 = GameRecord { fen: t2, ..g };
    match fen_status(t2) {
        BoardState::Checkmate => GameRecord {
            status: "checkmate"@,
            winner: Some(side_name(mover)),
            ..g1
        },
        BoardState::Stalemate => GameRecord {
            status: "stalemate"@,
            winner: Some("Draw (Stalemate)"@),
            ..g1
        },
        BoardState::Ongoing => g1,
    }
}

/// A pocket drop by `side` on the board with text `t`: `from` is `drop:`
/// followed by a piece name. The name is read in lower case; the first
/// entry of that name leaves the pocket before the drop is tried, and stays
/// out when the drop is then refused. A drop is written as the upper-cased
/// name, `@` and the target square.
pub open spec fn drop_spec(g: GameRecord, t: Seq<char>, side: Side, from: Seq<char>, to: Seq<char>) -> (
    GameRecord,
    Result<(), Seq<char>>,
) {
    if g.variant != "mad_scientist"@ {
        (g, Err("Drops are only allowed in Mad Scientist variant"@))
    } else {
        let name = unicode_lowercase(from.subrange(5, from.len() as int));
        match drop_piece_named(name) {
            None => (g, Err("Invalid drop piece"@)),
            Some(piece) => match square_named(to) {
                None => (g, Err("Invalid to square: "@ + to)),
                Some(sq) => match first_index_of(pocket_of(g, side), name) {
                    None => (g, Err("Piece not available in pocket: "@ + name)),
                    Some(i) => {
                        let g1 = with_pocket(g, side, pocket_of(g, side).remove(i));
                        match drop_outcome(t, piece, side, sq) {
                            Err(e) => (g1, Err(e)),
                            Ok(t2) => (
                                settle(
                                    GameRecord {
                                        moves: g1.moves.push(
                                            name.map_values(|c: char| ascii_upper(c)) + "@"@
                                                + to,
                                        ),
                                        ..g1
                                    },
                                    t2,
                                    side,
                                ),
                                Ok(()),
                            ),
                        }
                    },
                },
            },
        }
    }
}

/// Whether the piece on square `f` of the position is a pawn.
pub open spec fn pawn_on(t: Seq<char>, f: int) -> bool {
    fen_squares(t).dom().contains(f) && fen_squares(t)[f].0 == PieceKind::Pawn
}

/// The promotion a move asks for: a pawn reaching the last rank of its side
/// promotes to the piece named by `promo` (a queen when none is named).
pub open spec fn promotion_of(t: Seq<char>, side: Side, f: int, d: int, promo: Option<Seq<char>>) -> Option<
    PieceKind,
> {
    let last_rank = match side {
        Side::White => d / 8 == 7,
        Side::Black => d / 8 == 0,
    };
    if pawn_on(t, f) && last_rank {
        Some(
            promotion_named(
                unicode_lowercase(
                    match promo {
                        Some(p) => p,
                        None => "q"@,
                    },
                ),
            ),
        )
    } else {
        None
    }
}

/// The piece a move from `f` to `d` captures: the one on `d`, or the pawn
/// taken en passant when a pawn changes file onto an empty square.
pub open spec fn captured_by(t: Seq<char>, side: Side, f: int, d: int) -> Option<(PieceKind, Side)> {
    if fen_squares(t).dom().contains(d) {
        Some(fen_squares(t)[d])
    } else if pawn_on(t, f) && f % 8 != d % 8 {
        Some((PieceKind::Pawn, opponent(side)))
    } else {
        None
    }
}

/// The pockets after a capture: in the "Mad Scientist" variant the captured
/// piece goes to the pocket of its owner.
pub open spec fn pocket_capture(g: GameRecord, cap: Option<(PieceKind, Side)>) -> GameRecord {
    match cap {
        Some(c) => if g.variant == "mad_scientist"@ {
            with_pocket(g, c.1, pocket_of(g, c.1).push(seq![piece_letter(c.0)]))
        } else {
            g
        },
        None => g,
    }
}

/// An ordinary move by `side` on the board with text `t`, from square name
/// `from` to `to`, written as `from`, `to` and the promotion text.
pub open spec fn step_spec(
    g: GameRecord,
    t: Seq<char>,
    side: Side,
    from: Seq<char>,
    to: Seq<char>,
    promo: Option<Seq<char>>,
) -> (GameRecord, Result<(), Seq<char>>) {
    match square_named(from) {
        None => (g, Err("Invalid from square: "@ + from)),
        Some(f) => match square_named(to) {
            None => (g, Err("Invalid to square: "@ + to)),
            Some(d) => {
                let promotion = promotion_of(t, side, f, d, promo);
                if !fen_legal(t, f, d, promotion) {
                    (g, Err("Move is not legal"@))
                } else {
                    let g1 = pocket_capture(g, captured_by(t, side, f, d));
                    let desc = from + to + match promo {
                        Some(p) => p,
                        None => seq![],
                    };
                    (
                        settle(
                            GameRecord { moves: g1.moves.push(desc), ..g1 },
                            fen_after(t, f, d, promotion),
                            side,
                        ),
                        Ok(()),
                    )
                }
            },
        },
    }
}

/// A move request by `player` on game `g`: the game must be active and its
/// position readable, the player must hold the seat of the side to move,
/// and then `from` beginning with `drop:` asks for a pocket drop, anything
/// else for an ordinary move. Gives the stored game afterwards and the
/// outcome.
pub open spec fn play_spec(
    g: GameRecord,
    player: Seq<char>,
    from: Seq<char>,
    to: Seq<char>,
    promo: Option<Seq<char>>,
) -> (GameRecord, Result<(), Seq<char>>) {
    if g.status != "active"@ {
        (g, Err("Game is not active (status: "@ + g.status + ")"@))
    } else {
        match fen_parse(g.fen) {
            Err(e) => (g, Err("Invalid FEN in game: "@ + e)),
            Ok(t) => {
                let side = fen_side(t);
                if seat_of(g, side) != Some(player) {
                    (g, Err(turn_error(side)))
                } else if has_prefix(from, "drop:"@) {
                    drop_spec(g, t, side, from, to)
                } else {
                    step_spec(g, t, side, from, to, promo)
                }
            },
        }
    }
}

/// The characters of an optional text.
pub open spec fn opt_text(o: Option<&str>) -> Option<Seq<char>> {
    match o {
        Some(s) => Some(s@),
        None => None,
    }
}

/// What `make_move` does: an unknown id is refused; otherwise the move
/// rules decide, the game they leave is stored, and on success returned.
pub open spec fn make_move_spec(
    m: ManagerView,
    id: Seq<char>,
    player: Seq<char>,
    from: Seq<char>,
    to: Seq<char>,
    promo: Option<Seq<char>>,
) -> (ManagerView, Result<GameRecord, Seq<char>>) {
    if !m.games.dom().contains(id) {
        (m, Err("Game not found"@))
    } else {
        let (g2, r) = play_spec(m.games[id], player, from, to, promo);
        (
            ManagerView { games: m.games.insert(id, g2), ..m },
            match r {
                Ok(_) => Ok(g2),
                Err(e) => Err(e),
            },
        )
    }
}

/// `a` followed by `b`.
fn joined(a: &str, b: &str) -> (r: String)
    ensures
        r@ == a@ + b@,
{
    let mut s = String::from_str(a);
    s.append(b);
    s
}

/// Writes the new board into the game and ends it on checkmate or stalemate.
fn settle_game(g: &mut ChessGame, nb: &chess::Board, mover: Side)
    ensures
        final(g)@ == settle(old(g)@, board_text(*nb), mover),
{
    g.fen = board_to_fen(nb);
    match board_status(nb) {
        BoardState::Checkmate => {
            g.status = String::from_str("checkmate");
            g.winner = Some(
                match mover {
                    Side::White => String::from_str("White"),
                    Side::Black => String::from_str("Black"),
                },
            );
        },
        BoardState::Stalemate => {
            g.status = String::from_str("stalemate");
            g.winner = Some(String::from_str("Draw (Stalemate)"));
        },
        BoardState::Ongoing => {},
    }
}

/// The first position of `x` in `v`.
fn position_of(v: &Vec<String>, x: &str) -> (r: Option<usize>)
    ensures
        match r {
            Some(i) => first_index_of(v.deep_view(), x@) == Some(i as int),
            None => first_index_of(v.deep_view(), x@) is None,
        },
{
    let mut i: usize = 0;
    while i < v.len()
        invariant
            i <= v.len(),
            forall|j: int| 0 <= j < i ==> v.deep_view()[j] != x@,
        decreases v.len() - i,
    {
        if str_equal(v[i].as_str(), x) {
            proof {
                lemma_first_unique(v.deep_view(), x@, i as int);
            }
            return Some(i);
        }
        i = i + 1;
    }
    assert(!exists|k: int| is_first_at(v.deep_view(), x@, k));
    None
}

/// The piece a (lower-cased) drop name asks for.
fn drop_piece_of(name: &str) -> (r: Option<PieceKind>)
    ensures
        r == drop_piece_named(name@),
{
    if str_equal(name, "p") || str_equal(name, "pawn") {
        Some(PieceKind::Pawn)
    } else if str_equal(name, "n") || str_equal(name, "knight") {
        Some(PieceKind::Knight)
    } else if str_equal(name, "b") || str_equal(name, "bishop") {
        Some(PieceKind::Bishop)
    } else if str_equal(name, "r") || str_equal(name, "rook") {
        Some(PieceKind::Rook)
    } else if str_equal(name, "q") || str_equal(name, "queen") {
        Some(PieceKind::Queen)
    } else {
        None
    }
}

/// The piece a (lower-cased) promotion name asks for.
fn promotion_of_name(name: &str) -> (r: PieceKind)
    ensures
        r == promotion_named(name@),
{
    if str_equal(name, "n") || str_equal(name, "knight") {
        PieceKind::Knight
    } else if str_equal(name, "b") || str_equal(name, "bishop") {
        PieceKind::Bishop
    } else if str_equal(name, "r") || str_equal(name, "rook") {
        PieceKind::Rook
    } else {
        PieceKind::Queen
    }
}

/// A pocket drop (see `drop_spec`).
fn play_drop(g: &mut ChessGame, board: &chess::Board, side: Side, from: &str, to: &str) -> (r: Result<
    (),
    String,
>)
    requires
        has_prefix(from@, "drop:"@),
    ensures
        (final(g)@, match r {
            Ok(()) => Ok(()),
            Err(e) => Err(e@),
        }) == drop_spec(old(g)@, board_text(*board), side, from@, to@),
        r is Ok ==> fen_side(final(g)@.fen) == opponent(side),
        r is Ok ==> position_reads_back(final(g)@),
{
    proof {
        reveal_strlit("drop:");
    }
    if !str_equal(g.variant.as_str(), "mad_scientist") {
        return Err(String::from_str("Drops are only allowed in Mad Scientist variant"));
    }
    let suffix = tail_from(from, 5);
    let piece_name = lowercase(suffix.as_str());
    let drop_piece = match drop_piece_of(piece_name.as_str()) {
        Some(p) => p,
        None => {
            return Err(String::from_str("Invalid drop piece"));
        },
    };
    let to_sq = match parse_square(to) {
        Some(sq) => sq,
        None => {
            return Err(joined("Invalid to square: ", to));
        },
    };
    let idx = match side {
        Side::White => position_of(&g.white_pocket, piece_name.as_str()),
        Side::Black => position_of(&g.black_pocket, piece_name.as_str()),
    };
    let idx = match idx {
        Some(i) => i,
        None => {
            return Err(joined("Piece not available in pocket: ", piece_name.as_str()));
        },
    };
    let ghost g0 = g@;
    match side {
        Side::White => {
            g.white_pocket.remove(idx);
        },
        Side::Black => {
            g.black_pocket.remove(idx);
        },
    }
    assert(g@ =~= with_pocket(g0, side, pocket_of(g0, side).remove(idx as int)));
    let nb = match make_drop_board(board, drop_piece, side, to_sq) {
        Ok(b) => b,
        Err(e) => {
            return Err(e);
        },
    };
    let upper = ascii_uppercase(piece_name.as_str());
    let mut desc = upper;
    desc.append("@");
    desc.append(to);
    let ghost g1 = g@;
    g.moves.push(desc);
    assert(g@ =~= GameRecord { moves: g1.moves.push(desc@), ..g1 });
    settle_game(g, &nb, side);
    Ok(())
}

/// An ordinary move (see `step_spec`).
fn play_step(
    g: &mut ChessGame,
    board: &chess::Board,
    side: Side,
    from: &str,
    to: &str,
    promo: Option<&str>,
) -> (r: Result<(), String>)
    requires
        side == fen_side(board_text(*board)),
        fen_parse(board_text(*board)) == Ok::<Seq<char>, Seq<char>>(board_text(*board)),
    ensures
        (final(g)@, match r {
            Ok(()) => Ok(()),
            Err(e) => Err(e@),
        }) == step_spec(old(g)@, board_text(*board), side, from@, to@, opt_text(promo)),
        r is Ok ==> fen_side(final(g)@.fen) == opponent(side),
        r is Ok ==> position_reads_back(final(g)@),
{
    let ghost t = board_text(*board);
    let from_sq = match parse_square(from) {
        Some(sq) => sq,
        None => {
            return Err(joined("Invalid from square: ", from));
        },
    };
    let to_sq = match parse_square(to) {
        Some(sq) => sq,
        None => {
            return Err(joined("Invalid to square: ", to));
        },
    };
    let piece = piece_on(board, from_sq);
    let is_pawn = match piece {
        Some(PieceKind::Pawn) => true,
        _ => false,
    };
    let is_promo_rank = match side {
        Side::White => to_sq / 8 == 7,
        Side::Black => to_sq / 8 == 0,
    };
    let promotion = if is_pawn && is_promo_rank {
        let asked: &str = match promo {
            Some(p) => p,
            None => "q",
        };
        let name = lowercase(asked);
        Some(promotion_of_name(name.as_str()))
    } else {
        None
    };
    assert(promotion == promotion_of(t, side, from_sq as int, to_sq as int, opt_text(promo)));
    if !is_legal(board, from_sq, to_sq, promotion) {
        return Err(String::from_str("Move is not legal"));
    }
    let captured: Option<(PieceKind, Side)> = match piece_on(board, to_sq) {
        Some(cap_piece) => {
            let cap_color = match color_on(board, to_sq) {
                Some(c) => c,
                None => Side::White,
            };
            Some((cap_piece, cap_color))
        },
        None => {
            if is_pawn && from_sq % 8 != to_sq % 8 {
                Some((PieceKind::Pawn, other_side(side)))
            } else {
                None
            }
        },
    };
    assert(captured == captured_by(t, side, from_sq as int, to_sq as int));
    let nb = apply_move(board, from_sq, to_sq, promotion);
    let ghost g0 = g@;
    if str_equal(g.variant.as_str(), "mad_scientist") {
        match captured {
            Some((cap_piece, cap_color)) => {
                let mut piece_str = String::new();
                push_char(&mut piece_str, letter_of(cap_piece));
                match cap_color {
                    Side::White => g.white_pocket.push(piece_str),
                    Side::Black => g.black_pocket.push(piece_str),
                }
            },
            None => {},
        }
    }
    assert(g@ =~= pocket_capture(g0, captured));
    let mut desc = joined(from, to);
    match promo {
        Some(p) => desc.append(p),
        None => {},
    }
    let ghost g1 = g@;
    g.moves.push(desc);
    assert(g@ =~= GameRecord {
        moves: g1.moves.push(from@ + to@ + match opt_text(promo) {
            Some(p) => p,
            None => seq![],
        }),
        ..g1
    });
    settle_game(g, &nb, side);
    Ok(())
}

/// A move request on one game (see `play_spec`).
pub fn play(g: &mut ChessGame, player_id: &str, from_sq_str: &str, to_sq_str: &str, promo_str: Option<
    &str,
>) -> (r: Result<(), String>)
    ensures
        (final(g)@, match r {
            Ok(()) => Ok(()),
            Err(e) => Err(e@),
        }) == play_spec(old(g)@, player_id@, from_sq_str@, to_sq_str@, opt_text(promo_str)),
        r is Ok ==> fen_side(final(g)@.fen) == opponent(fen_side(fen_parse(old(g)@.fen)->Ok_0)),
        r is Ok ==> position_reads_back(final(g)@),
{
    if !str_equal(g.status.as_str(), "active") {
        let mut msg = joined("Game is not active (status: ", g.status.as_str());
        msg.append(")");
        return Err(msg);
    }
    let board = match parse_board(g.fen.as_str()) {
        Ok(b) => b,
        Err(e) => {
            return Err(joined("Invalid FEN in game: ", e.as_str()));
        },
    };
    let side = side_to_move(&board);
    match side {
        Side::White => {
            if !holds(&g.white_player, player_id) {
                return Err(String::from_str("It is White's turn, but you are not White"));
            }
        },
        Side::Black => {
            if !holds(&g.black_player, player_id) {
                return Err(String::from_str("It is Black's turn, but you are not Black"));
            }
        },
    }
    if starts_with(from_sq_str, "drop:") {
        play_drop(g, &board, side, from_sq_str, to_sq_str)
    } else {
        play_step(g, &board, side, from_sq_str, to_sq_str, promo_str)
    }
}

impl GameManager {
    /// Plays a move, or a pocket drop, for `player_id` in game `id` (see
    /// `play_spec`) and returns the game as it now is.
    pub fn make_move(
        &mut self,
        id: &str,
        player_id: &str,
        from_sq_str: &str,
        to_sq_str: &str,
        promo_str: Option<&str>,
    ) -> (r: Result<ChessGame, String>)
        requires
            old(self).wf(),
        ensures
            final(self).wf(),
            (final(self)@, text_result(r)) == make_move_spec(
                old(self)@,
                id@,
                player_id@,
                from_sq_str@,
                to_sq_str@,
                opt_text(promo_str),
            ),
            r is Ok ==> fen_side(r->Ok_0@.fen) == opponent(
                fen_side(fen_parse(old(self)@.games[id@].fen)->Ok_0),
            ),
            r is Ok ==> position_reads_back(r->Ok_0@),
            positions_read_back(old(self)@) ==> positions_read_back(final(self)@),
    {
        match self.find_game_index(id) {
            None => Err(String::from_str("Game not found")),
            Some(i) => {
                proof {
                    lemma_keyed_at(game_entries(self.games@), i as int);
                }
                let mut g = self.games[i].clone();
                let r = play(&mut g, player_id, from_sq_str, to_sq_str, promo_str);
                let out = g.clone();
                self.store_game(g);
                match r {
                    Ok(()) => Ok(out),
                    Err(e) => Err(e),
                }
            },
        }
    }
}

} // verus!
