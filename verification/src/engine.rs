//! The calls into the `chess` and `uuid` crates and the std case mapping
//! that the rules make, each behind a trusted contract.
//!
//! A `chess::Board` is a `Copy` value whose whole state (pieces, side to
//! move, castling rights, en-passant square) is written out by its
//! `Display` impl as a FEN text. The contracts below therefore speak of a
//! board through that text, `board_text`, and name what the crate computes
//! from it. For each board the library obtains (the starting board, a board
//! read from a text, a board after a legal move) they also state that
//! reading its text back gives the same text.

use vstd::prelude::*;
use crate::pieces::{PieceKind, Side, BoardState, opponent};
use crate::text::ws_tokens;

verus! {

#[verifier::external_type_specification]
#[verifier::external_body]
pub struct ExBoard(chess::Board);

/// What a board holds: its FEN text, as `Display for chess::Board` writes it.
pub uninterp spec fn board_text(b: chess::Board) -> Seq<char>;

/// What `chess::Board::from_str` gives for a text: `Ok` with the text of
/// the parsed board, or `Err` with the text of the error.
pub uninterp spec fn fen_parse(fen: Seq<char>) -> Result<Seq<char>, Seq<char>>;

/// The occupied squares of the board with FEN text `t`, square index
/// `8 * rank + file` to piece and colour (`Board::piece_on`, `Board::color_on`).
pub uninterp spec fn fen_squares(t: Seq<char>) -> Map<int, (PieceKind, Side)>;

/// Whether `Board::legal` accepts the move `from`-`to` (with `promo`).
pub uninterp spec fn fen_legal(t: Seq<char>, from: int, to: int, promo: Option<PieceKind>) -> bool;

/// The FEN text of the board that `Board::make_move_new` gives for a move.
pub uninterp spec fn fen_after(t: Seq<char>, from: int, to: int, promo: Option<PieceKind>) -> Seq<
    char,
>;

/// What `Board::status` says of the board with FEN text `t`.
pub uninterp spec fn fen_status(t: Seq<char>) -> BoardState;

/// What `str::to_lowercase` gives (Unicode lower case mapping).
pub uninterp spec fn unicode_lowercase(s: Seq<char>) -> Seq<char>;

/// The side to move, as the second field of a FEN text says it.
pub open spec fn fen_side(t: Seq<char>) -> Side {
    if ws_tokens(t)[1] == seq!['w'] {
        Side::White
    } else {
        Side::Black
    }
}

/// The FEN text of the standard starting position, as `Board::default`
/// writes it.
pub open spec fn start_text() -> Seq<char> {
    "rnbqkbnr/pppppppp/8/8/8/8/PPPPPPPP/RNBQKBNR w KQkq - 0 1"@
}

/// `Display for chess::Board` (via `to_string`). Trusted: the result is the
/// board's text; as the crate's `BoardBuilder` formatter shows, that text
/// is six fields without white space inside, separated by single spaces,
/// the last one always `1` (the crate keeps no move counters).
#[verifier::external_body]
pub(crate) fn board_to_fen(b: &chess::Board) -> (r: String)
    ensures
        r@ == board_text(*b),
        ws_tokens(r@).len() == 6,
        ws_tokens(r@)[5] == seq!['1'],
{
    b.to_string()
}

/// How many characters of `s` come before its first space (all of them
/// when it has none).
pub open spec fn to_space(s: Seq<char>) -> nat
    decreases s.len(),
{
    if s.len() == 0 || s[0] == ' ' {
        0
    } else {
        1 + to_space(s.drop_first())
    }
}

/// The second field of `s` cut at single spaces (`str::split(' ')`), empty
/// when `s` has no space.
pub open spec fn second_field(s: Seq<char>) -> Seq<char> {
    if to_space(s) < s.len() {
        let rest = s.skip(to_space(s) + 1int);
        rest.take(to_space(rest) as int)
    } else {
        seq![]
    }
}

/// `chess::Board::from_str`. Trusted: the result is what `fen_parse` names,
/// the error carried as its `Display` text. As the crate's `BoardBuilder`
/// reader shows, a text is read only when its second space-separated field
/// is `w`, `W`, `b` or `B`, and the board read has White to move exactly
/// for `w` and `W`. A board read is one the crate found sane; its text
/// carries the same pieces, side, castling rights and en-passant file, so
/// reading that text again builds the same board and gives the same text.
#[verifier::external_body]
pub(crate) fn parse_board(fen: &str) -> (r: Result<chess::Board, String>)
    ensures
        match r {
            Ok(b) => fen_parse(fen@) == Ok::<Seq<char>, Seq<char>>(board_text(b)),
            Err(e) => fen_parse(fen@) == Err::<Seq<char>, Seq<char>>(e@),
        },
        r matches Ok(b) ==> fen_parse(board_text(b)) is Ok && fen_parse(board_text(b))->Ok_0
            == board_text(b),
        r matches Ok(b) ==> fen_side(board_text(b)) == (if second_field(fen@) == seq!['w']
            || second_field(fen@) == seq!['W'] {
            Side::White
        } else {
            Side::Black
        }),
{
    match <chess::Board as std::str::FromStr>::from_str(fen) {
        Ok(b) => Ok(b),
        Err(e) => Err(e.to_string()),
    }
}

/// `chess::Board::default`. Trusted: it is the board built from the
/// standard starting FEN, the crate writes that board back as the same
/// text, and that text is read back as itself (the crate's own
/// `check_initial_position` test).
#[verifier::external_body]
pub(crate) fn start_board() -> (r: chess::Board)
    ensures
        board_text(r) == start_text(),
        fen_parse(board_text(r)) is Ok,
        fen_parse(board_text(r))->Ok_0 == board_text(r),
{
    chess::Board::default()
}

/// `Board::side_to_move`. Trusted: it is the side the second FEN field names.
#[verifier::external_body]
pub(crate) fn side_to_move(b: &chess::Board) -> (r: Side)
    ensures
        r == fen_side(board_text(*b)),
{
    match b.side_to_move() {
        chess::Color::White => Side::White,
        chess::Color::Black => Side::Black,
    }
}

/// `Board::piece_on` at square index `sq`. Trusted: the kind of the piece
/// that `fen_squares` puts there, if any.
#[verifier::external_body]
pub(crate) fn piece_on(b: &chess::Board, sq: usize) -> (r: Option<PieceKind>)
    requires
        sq < 64,
    ensures
        r == (if fen_squares(board_text(*b)).dom().contains(sq as int) {
            Some(fen_squares(board_text(*b))[sq as int].0)
        } else {
            None
        }),
{
    match b.piece_on(chess::ALL_SQUARES[sq]) {
        Some(chess::Piece::Pawn) => Some(PieceKind::Pawn),
        Some(chess::Piece::Knight) => Some(PieceKind::Knight),
        Some(chess::Piece::Bishop) => Some(PieceKind::Bishop),
        Some(chess::Piece::Rook) => Some(PieceKind::Rook),
        Some(chess::Piece::Queen) => Some(PieceKind::Queen),
        Some(chess::Piece::King) => Some(PieceKind::King),
        None => None,
    }
}

/// `Board::color_on` at square index `sq`. Trusted: the colour of the piece
/// that `fen_squares` puts there, if any (a board's colour and piece masks
/// cover the same squares).
#[verifier::external_body]
pub(crate) fn color_on(b: &chess::Board, sq: usize) -> (r: Option<Side>)
    requires
        sq < 64,
    ensures
        r == (if fen_squares(board_text(*b)).dom().contains(sq as int) {
            Some(fen_squares(board_text(*b))[sq as int].1)
        } else {
            None
        }),
{
    match b.color_on(chess::ALL_SQUARES[sq]) {
        Some(chess::Color::White) => Some(Side::White),
        Some(chess::Color::Black) => Some(Side::Black),
        None => None,
    }
}

/// `Board::legal` on `ChessMove::new(from, to, promo)`. Trusted: the answer
/// is what `fen_legal` names.
#[verifier::external_body]
pub(crate) fn is_legal(b: &chess::Board, from: usize, to: usize, promo: Option<PieceKind>) -> (r: bool)
    requires
        from < 64,
        to < 64,
    ensures
        r == fen_legal(board_text(*b), from as int, to as int, promo),
{
    let p = match promo {
        Some(PieceKind::Pawn) => Some(chess::Piece::Pawn),
        Some(PieceKind::Knight) => Some(chess::Piece::Knight),
        Some(PieceKind::Bishop) => Some(chess::Piece::Bishop),
        Some(PieceKind::Rook) => Some(chess::Piece::Rook),
        Some(PieceKind::Queen) => Some(chess::Piece::Queen),
        Some(PieceKind::King) => Some(chess::Piece::King),
        None => None,
    };
    b.legal(chess::ChessMove::new(chess::ALL_SQUARES[from], chess::ALL_SQUARES[to], p))
}

/// `Board::make_move_new` on `ChessMove::new(from, to, promo)`; it panics on
/// a move without a piece on `from`, so only legal moves are admitted.
/// Trusted: the new board's text is what `fen_after` names, and, as the
/// crate's `make_move` ends by flipping it, the side to move is the other.
/// Only a board whose text reads back as itself is admitted (so a sane
/// one); a legal move from a sane board gives a sane board (one king each, the
/// mover not in check, castling rights and en-passant square kept
/// consistent), so its text is read back as itself.
#[verifier::external_body]
pub(crate) fn apply_move(b: &chess::Board, from: usize, to: usize, promo: Option<PieceKind>) -> (r:
    chess::Board)
    requires
        from < 64,
        to < 64,
        fen_legal(board_text(*b), from as int, to as int, promo),
        fen_parse(board_text(*b)) == Ok::<Seq<char>, Seq<char>>(board_text(*b)),
    ensures
        board_text(r) == fen_after(board_text(*b), from as int, to as int, promo),
        fen_side(board_text(r)) == opponent(fen_side(board_text(*b))),
        fen_parse(board_text(r)) is Ok,
        fen_parse(board_text(r))->Ok_0 == board_text(r),
{
    let p = match promo {
        Some(PieceKind::Pawn) => Some(chess::Piece::Pawn),
        Some(PieceKind::Knight) => Some(chess::Piece::Knight),
        Some(PieceKind::Bishop) => Some(chess::Piece::Bishop),
        Some(PieceKind::Rook) => Some(chess::Piece::Rook),
        Some(PieceKind::Queen) => Some(chess::Piece::Queen),
        Some(PieceKind::King) => Some(chess::Piece::King),
        None => None,
    };
    b.make_move_new(chess::ChessMove::new(chess::ALL_SQUARES[from], chess::ALL_SQUARES[to], p))
}

/// `Board::status`. Trusted: the answer is what `fen_status` names.
#[verifier::external_body]
pub(crate) fn board_status(b: &chess::Board) -> (r: BoardState)
    ensures
        r == fen_status(board_text(*b)),
{
    match b.status() {
        chess::BoardStatus::Ongoing => BoardState::Ongoing,
        chess::BoardStatus::Stalemate => BoardState::Stalemate,
        chess::BoardStatus::Checkmate => BoardState::Checkmate,
    }
}

/// The square of an algebraic name such as `e4`: files `a`-`h`, ranks
/// `1`-`8`, index `8 * rank + file`; characters after the second are not
/// read.
pub open spec fn square_named(s: Seq<char>) -> Option<int> {
    if s.len() >= 2 && 97 <= (s[0] as u32) <= 104 && 49 <= (s[1] as u32) <= 56 {
        Some(8 * ((s[1] as u32) - 49) + ((s[0] as u32) - 97))
    } else {
        None
    }
}

/// `chess::Square::from_str`, giving the square's index. Trusted: as the
/// crate's source shows, it accepts exactly the texts whose first two
/// characters are a file letter and a rank digit, and reads nothing more.
#[verifier::external_body]
pub(crate) fn parse_square(s: &str) -> (r: Option<usize>)
    ensures
        match r {
            Some(i) => square_named(s@) == Some(i as int),
            None => square_named(s@) is None,
        },
{
    match <chess::Square as std::str::FromStr>::from_str(s) {
        Ok(sq) => Some(sq.to_index()),
        Err(_) => None,
    }
}

/// The hyphenated lower-case text of a UUID: 36 characters, `-` at
/// positions 8, 13, 18 and 23 and a digit `0`-`9` or a letter `a`-`f` at
/// every other position.
pub open spec fn uuid_form(s: Seq<char>) -> bool {
    &&& s.len() == 36
    &&& forall|i: int|
        0 <= i < 36 ==> if i == 8 || i == 13 || i == 18 || i == 23 {
            #[trigger] s[i] == '-'
        } else {
            (48 <= (s[i] as u32) <= 57) || (97 <= (s[i] as u32) <= 102)
        }
}

/// A fresh random game or player id (`uuid::Uuid::new_v4`, written out by
/// its `Display`, which is the lower-case hyphenated form). Trusted: only
/// that the text has that form; the value is random, so nothing more is
/// stated.
#[verifier::external_body]
pub(crate) fn fresh_id() -> (r: String)
    ensures
        uuid_form(r@),
{
    uuid::Uuid::new_v4().to_string()
}

/// `str::to_lowercase`. Trusted: the result is what `unicode_lowercase`
/// names.
#[verifier::external_body]
pub(crate) fn lowercase(s: &str) -> (r: String)
    ensures
        r@ == unicode_lowercase(s@),
{
    s.to_lowercase()
}

} // verus!
