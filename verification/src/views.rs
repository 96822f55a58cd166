//! What the game pages show: captured pieces, pocket contents, piece images,
//! and the view of one game for one visitor (perspective, role, turn, status
//! line and the 64 squares in display order).

use vstd::prelude::*;
use vstd::string::*;
use vstd::utf8::{encode_utf8, decode_utf8, is_char_boundary};
use crate::pieces::{PieceKind, Side};
use crate::text::{str_equal, starts_with, has_prefix, push_char, digit_char, digit_of};
use crate::engine::{
    board_text, fen_squares, fen_parse, fen_side, start_text, parse_board, start_board, piece_on,
    color_on, side_to_move,
};
use crate::game::{ChessGame, GameRecord, holds, copy_opt};

verus! {

/// How many pieces of each kind (kings aside) a side has lost.
pub struct CapturedPieces {
    pub pawns: usize,
    pub knights: usize,
    pub bishops: usize,
    pub rooks: usize,
    pub queens: usize,
}

/// The number of squares below `n` holding a piece of kind `kind` and side `side`.
pub open spec fn count_on(t: Seq<char>, kind: PieceKind, side: Side, n: int) -> nat
    decreases n,
{
    if n <= 0 {
        0
    } else {
        count_on(t, kind, side, n - 1) + (if fen_squares(t).dom().contains(n - 1) && fen_squares(
            t,
        )[n - 1] == (kind, side) {
            1nat
        } else {
            0nat
        })
    }
}

/// How many of `start` pieces are gone when `now` are left (none when more are left).
pub open spec fn missing(start: nat, now: nat) -> nat {
    if start > now {
        (start - now) as nat
    } else {
        0
    }
}

/// The pieces of `side` gone from the board with text `t`, against the
/// starting set of eight pawns, two knights, bishops and rooks, one queen.
pub open spec fn captured_matches(c: CapturedPieces, t: Seq<char>, side: Side) -> bool {
    &&& c.pawns == missing(8, count_on(t, PieceKind::Pawn, side, 64))
    &&& c.knights == missing(2, count_on(t, PieceKind::Knight, side, 64))
    &&& c.bishops == missing(2, count_on(t, PieceKind::Bishop, side, 64))
    &&& c.rooks == missing(2, count_on(t, PieceKind::Rook, side, 64))
    &&& c.queens == missing(1, count_on(t, PieceKind::Queen, side, 64))
}

proof fn lemma_count_bound(t: Seq<char>, kind: PieceKind, side: Side, n: int)
    ensures
        count_on(t, kind, side, n) <= if n > 0 {
            n
        } else {
            0
        },
    decreases n,
{
    if n > 0 {
        lemma_count_bound(t, kind, side, n - 1);
    }
}

fn gone(start: usize, now: usize) -> (r: usize)
    ensures
        r == missing(start as nat, now as nat),
{
    if start > now {
        start - now
    } else {
        0
    }
}

/// Counts how many pieces of side `color` have been captured from the board.
pub fn get_captured_pieces(board: &chess::Board, color: Side) -> (r: CapturedPieces)
    ensures
        captured_matches(r, board_text(*board), color),
{
    let ghost t = board_text(*board);
    let mut pawns: usize = 0;
    let mut knights: usize = 0;
    let mut bishops: usize = 0;
    let mut rooks: usize = 0;
    let mut queens: usize = 0;
    let mut sq: usize = 0;
    while sq < 64
        invariant
            sq <= 64,
            t == board_text(*board),
            pawns == count_on(t, PieceKind::Pawn, color, sq as int),
            knights == count_on(t, PieceKind::Knight, color, sq as int),
            bishops == count_on(t, PieceKind::Bishop, color, sq as int),
            rooks == count_on(t, PieceKind::Rook, color, sq as int),
            queens == count_on(t, PieceKind::Queen, color, sq as int),
        decreases 64 - sq,
    {
        proof {
            lemma_count_bound(t, PieceKind::Pawn, color, sq as int);
            lemma_count_bound(t, PieceKind::Knight, color, sq as int);
            lemma_count_bound(t, PieceKind::Bishop, color, sq as int);
            lemma_count_bound(t, PieceKind::Rook, color, sq as int);
            lemma_count_bound(t, PieceKind::Queen, color, sq as int);
        }
        match piece_on(board, sq) {
            Some(piece) => {
                if color_on(board, sq) == Some(color) {
                    match piece {
                        PieceKind::Pawn => pawns = pawns + 1,
                        PieceKind::Knight => knights = knights + 1,
                        PieceKind::Bishop => bishops = bishops + 1,
                        PieceKind::Rook => rooks = rooks + 1,
                        PieceKind::Queen => queens = queens + 1,
                        PieceKind::King => {},
                    }
                }
            },
            None => {},
        }
        sq = sq + 1;
    }
    CapturedPieces {
        pawns: gone(8, pawns),
        knights: gone(2, knights),
        bishops: gone(2, bishops),
        rooks: gone(2, rooks),
        queens: gone(1, queens),
    }
}

/// The address of the image of a piece.
pub open spec fn piece_image_url(piece: PieceKind, color: Side) -> Seq<char> {
    match (color, piece) {
        (Side::White, PieceKind::Pawn) => "https://lichess1.org/assets/piece/cburnett/wP.svg"@,
        (Side::White, PieceKind::Knight) => "https://lichess1.org/assets/piece/cburnett/wN.svg"@,
        (Side::White, PieceKind::Bishop) => "https://lichess1.org/assets/piece/cburnett/wB.svg"@,
        (Side::White, PieceKind::Rook) => "https://lichess1.org/assets/piece/cburnett/wR.svg"@,
        (Side::White, PieceKind::Queen) => "https://lichess1.org/assets/piece/cburnett/wQ.svg"@,
        (Side::White, PieceKind::King) => "https://lichess1.org/assets/piece/cburnett/wK.svg"@,
        (Side::Black, PieceKind::Pawn) => "https://lichess1.org/assets/piece/cburnett/bP.svg"@,
        (Side::Black, PieceKind::Knight) => "https://lichess1.org/assets/piece/cburnett/bN.svg"@,
        (Side::Black, PieceKind::Bishop) => "https://lichess1.org/assets/piece/cburnett/bB.svg"@,
        (Side::Black, PieceKind::Rook) => "https://lichess1.org/assets/piece/cburnett/bR.svg"@,
        (Side::Black, PieceKind::Queen) => "https://lichess1.org/assets/piece/cburnett/bQ.svg"@,
        (Side::Black, PieceKind::King) => "https://lichess1.org/assets/piece/cburnett/bK.svg"@,
    }
}

/// The Lichess (cburnett) SVG image of a piece of a side.
pub fn get_piece_image_url(piece: PieceKind, color: Side) -> (r: &'static str)
    ensures
        r@ == piece_image_url(piece, color),
{
    match (color, piece) {
        (Side::White, PieceKind::Pawn) => "https://lichess1.org/assets/piece/cburnett/wP.svg",
        (Side::White, PieceKind::Knight) => "https://lichess1.org/assets/piece/cburnett/wN.svg",
        (Side::White, PieceKind::Bishop) => "https://lichess1.org/assets/piece/cburnett/wB.svg",
        (Side::White, PieceKind::Rook) => "https://lichess1.org/assets/piece/cburnett/wR.svg",
        (Side::White, PieceKind::Queen) => "https://lichess1.org/assets/piece/cburnett/wQ.svg",
        (Side::White, PieceKind::King) => "https://lichess1.org/assets/piece/cburnett/wK.svg",
        (Side::Black, PieceKind::Pawn) => "https://lichess1.org/assets/piece/cburnett/bP.svg",
        (Side::Black, PieceKind::Knight) => "https://lichess1.org/assets/piece/cburnett/bN.svg",
        (Side::Black, PieceKind::Bishop) => "https://lichess1.org/assets/piece/cburnett/bB.svg",
        (Side::Black, PieceKind::Rook) => "https://lichess1.org/assets/piece/cburnett/bR.svg",
        (Side::Black, PieceKind::Queen) => "https://lichess1.org/assets/piece/cburnett/bQ.svg",
        (Side::Black, PieceKind::King) => "https://lichess1.org/assets/piece/cburnett/bK.svg",
    }
}

/// The number of entries of `s` equal to `a` or `b`.
pub open spec fn named_count(s: Seq<Seq<char>>, a: Seq<char>, b: Seq<char>) -> nat
    decreases s.len(),
{
    if s.len() == 0 {
        0
    } else {
        named_count(s.drop_last(), a, b) + (if s.last() == a || s.last() == b {
            1nat
        } else {
            0nat
        })
    }
}

proof fn lemma_named_count_bound(s: Seq<Seq<char>>, a: Seq<char>, b: Seq<char>)
    ensures
        named_count(s, a, b) <= s.len(),
    decreases s.len(),
{
    if s.len() > 0 {
        lemma_named_count_bound(s.drop_last(), a, b);
    }
}

/// The entry for a piece kind in a pocket listing: shown only when present.
pub open spec fn pocket_entry(kind: PieceKind, n: nat) -> Seq<(PieceKind, nat)> {
    if n > 0 {
        seq![(kind, n)]
    } else {
        seq![]
    }
}

/// A pocket as listed under a player: pawns, knights, bishops, rooks and
/// queens, each with how many the pocket holds (under a one-letter or a full
/// name), leaving out kinds it does not hold.
pub open spec fn pocket_listing(s: Seq<Seq<char>>) -> Seq<(PieceKind, nat)> {
    pocket_entry(PieceKind::Pawn, named_count(s, "p"@, "pawn"@)) + pocket_entry(
        PieceKind::Knight,
        named_count(s, "n"@, "knight"@),
    ) + pocket_entry(PieceKind::Bishop, named_count(s, "b"@, "bishop"@)) + pocket_entry(
        PieceKind::Rook,
        named_count(s, "r"@, "rook"@),
    ) + pocket_entry(PieceKind::Queen, named_count(s, "q"@, "queen"@))
}

/// The listing `r` is `l`.
pub open spec fn listing_is(r: Seq<(PieceKind, usize)>, l: Seq<(PieceKind, nat)>) -> bool {
    r.len() == l.len() && forall|i: int| 0 <= i < r.len() ==> r[i].0 == l[i].0 && r[i].1 == l[i].1
}

fn push_entry(out: &mut Vec<(PieceKind, usize)>, kind: PieceKind, n: usize)
    ensures
        forall|l: Seq<(PieceKind, nat)>|
            #![trigger listing_is(old(out)@, l)]
            listing_is(old(out)@, l) ==> listing_is(final(out)@, l + pocket_entry(kind, n as nat)),
{
    if n > 0 {
        out.push((kind, n));
    }
    assert forall|l: Seq<(PieceKind, nat)>|
        #![trigger listing_is(old(out)@, l)]
        listing_is(old(out)@, l) implies listing_is(out@, l + pocket_entry(kind, n as nat)) by {
        let l2 = l + pocket_entry(kind, n as nat);
        assert forall|i: int| 0 <= i < out@.len() implies out@[i].0 == l2[i].0 && out@[i].1
            == l2[i].1 by {
            if i < old(out)@.len() {
                assert(out@[i] == old(out)@[i]);
            }
        }
    }
}

/// Lists the pieces in a pocket by kind (see `pocket_listing`).
pub fn pocket_items(pocket: &Vec<String>) -> (r: Vec<(PieceKind, usize)>)
    ensures
        listing_is(r@, pocket_listing(pocket.deep_view())),
{
    let ghost s = pocket.deep_view();
    let mut pawns: usize = 0;
    let mut knights: usize = 0;
    let mut bishops: usize = 0;
    let mut rooks: usize = 0;
    let mut queens: usize = 0;
    let mut i: usize = 0;
    while i < pocket.len()
        invariant
            i <= pocket.len(),
            s == pocket.deep_view(),
            pawns == named_count(s.take(i as int), "p"@, "pawn"@),
            knights == named_count(s.take(i as int), "n"@, "knight"@),
            bishops == named_count(s.take(i as int), "b"@, "bishop"@),
            rooks == named_count(s.take(i as int), "r"@, "rook"@),
            queens == named_count(s.take(i as int), "q"@, "queen"@),
        decreases pocket.len() - i,
    {
        proof {
            lemma_named_count_bound(s.take(i as int), "p"@, "pawn"@);
            lemma_named_count_bound(s.take(i as int), "n"@, "knight"@);
            lemma_named_count_bound(s.take(i as int), "b"@, "bishop"@);
            lemma_named_count_bound(s.take(i as int), "r"@, "rook"@);
            lemma_named_count_bound(s.take(i as int), "q"@, "queen"@);
            assert(s.take(i + 1).drop_last() =~= s.take(i as int));
            assert(s.take(i + 1).last() == pocket[i as int]@);
        }
        let name = pocket[i].as_str();
        if str_equal(name, "p") || str_equal(name, "pawn") {
            pawns = pawns + 1;
        }
        if str_equal(name, "n") || str_equal(name, "knight") {
            knights = knights + 1;
        }
        if str_equal(name, "b") || str_equal(name, "bishop") {
            bishops = bishops + 1;
        }
        if str_equal(name, "r") || str_equal(name, "rook") {
            rooks = rooks + 1;
        }
        if str_equal(name, "q") || str_equal(name, "queen") {
            queens = queens + 1;
        }
        i = i + 1;
    }
    assert(s.take(pocket.len() as int) =~= s);
    let mut out: Vec<(PieceKind, usize)> = Vec::new();
    assert(listing_is(out@, Seq::<(PieceKind, nat)>::empty()));
    push_entry(&mut out, PieceKind::Pawn, pawns);
    push_entry(&mut out, PieceKind::Knight, knights);
    push_entry(&mut out, PieceKind::Bishop, bishops);
    push_entry(&mut out, PieceKind::Rook, rooks);
    push_entry(&mut out, PieceKind::Queen, queens);
    assert(Seq::<(PieceKind, nat)>::empty() + pocket_entry(PieceKind::Pawn, pawns as nat)
        =~= pocket_entry(PieceKind::Pawn, pawns as nat));
    out
}

/// The position shown for a game: its board, or the starting position when
/// its FEN does not read.
pub open spec fn shown_text(fen: Seq<char>) -> Seq<char> {
    match fen_parse(fen) {
        Ok(t) => t,
        Err(_) => start_text(),
    }
}

/// Whether the board is shown from Black's side: as the `role` asked in the
/// query says, or else when the visitor holds the Black seat.
pub open spec fn black_view(g: GameRecord, player: Seq<char>, role_query: Option<Seq<char>>) -> bool {
    match role_query {
        Some(r) => r == "black"@,
        None => g.black_player == Some(player),
    }
}

/// The visitor's role: the one asked in the query, or else the seat the
/// visitor holds, or `spectator`.
pub open spec fn viewer_role(g: GameRecord, player: Seq<char>, role_query: Option<Seq<char>>) -> Seq<
    char,
> {
    match role_query {
        Some(r) => r,
        None => if g.white_player == Some(player) {
            "white"@
        } else if g.black_player == Some(player) {
            "black"@
        } else {
            "spectator"@
        },
    }
}

/// Whether a visitor in role `role` is to move when `side` is to move.
pub open spec fn turn_of(role: Seq<char>, side: Side) -> bool {
    match side {
        Side::White => role == "white"@,
        Side::Black => role == "black"@,
    }
}

/// The colour scheme of the status box.
pub open spec fn status_style(status: Seq<char>) -> Seq<char> {
    if status == "waiting"@ {
        "bg-[#363532] text-yellow-400 border-yellow-500/30"@
    } else if status == "active"@ {
        "bg-[#1e1e1c] text-[#81b64c] border-[#769656]/30"@
    } else {
        "bg-[#1e1e1c] text-red-400 border-red-500/30"@
    }
}

/// The name of the side to move.
pub open spec fn turn_name(side: Side) -> Seq<char> {
    match side {
        Side::White => "White"@,
        Side::Black => "Black"@,
    }
}

/// The status line of a game.
pub open spec fn status_line(g: GameRecord, my_turn: bool, side: Side) -> Seq<char> {
    if g.status == "waiting"@ {
        "Waiting for players to join... Send the URL to invite a friend."@
    } else if g.status == "active"@ {
        if my_turn {
            "Your turn! Play as "@ + turn_name(side)
        } else {
            turn_name(side) + "'s turn to move..."@
        }
    } else if g.status == "checkmate"@ {
        "Checkmate! Winner: "@ + match g.winner {
            Some(w) => w,
            None => "Unknown"@,
        }
    } else if g.status == "stalemate"@ {
        "Draw (Stalemate)"@
    } else {
        "Game Over: "@ + g.status
    }
}

/// Characters 2 and 3 of a move text taken as bytes `2..4` of its UTF-8 form.
pub open spec fn middle_chars(m: Seq<char>) -> Seq<char> {
    decode_utf8(encode_utf8(m).subrange(2, 4))
}

/// A move text whose UTF-8 form has at least four bytes, with character
/// boundaries after the second and the fourth.
pub open spec fn sliceable(m: Seq<char>) -> bool {
    encode_utf8(m).len() >= 4 && is_char_boundary(encode_utf8(m), 2) && is_char_boundary(
        encode_utf8(m),
        4,
    )
}

/// Whether the last move marks the square named `name`: the move text
/// starts with the name, or its bytes `2..4` do.
pub open spec fn marks(last: Option<Seq<char>>, name: Seq<char>) -> bool {
    match last {
        Some(m) => has_prefix(m, name) || has_prefix(middle_chars(m), name),
        None => false,
    }
}

/// Whether the last move text `lm` marks the square named `name`.
pub fn marks_square(lm: &str, name: &str) -> (r: bool)
    requires
        sliceable(lm@),
    ensures
        r == marks(Some(lm@), name@),
{
    if starts_with(lm, name) {
        return true;
    }
    let (head, _) = lm.split_at(4);
    proof {
        vstd::utf8::encode_utf8_valid_utf8(lm@);
        vstd::utf8::encode_utf8_valid_utf8(head@);
        vstd::utf8::is_char_boundary_iff_not_is_continuation_byte(lm.spec_bytes(), 2);
        vstd::utf8::is_char_boundary_iff_not_is_continuation_byte(head.spec_bytes(), 2);
        assert(head.spec_bytes()[2] == lm.spec_bytes()[2]);
    }
    let (_, mid) = head.split_at(2);
    proof {
        vstd::utf8::encode_utf8_decode_utf8(mid@);
        assert(mid.spec_bytes() =~= encode_utf8(lm@).subrange(2, 4));
    }
    starts_with(mid, name)
}

/// The letter of file `f` (`a` for the first).
pub open spec fn file_letter(f: int) -> char {
    (97 + f) as char
}

/// The algebraic name of the square on rank `rank` and file `file`.
pub open spec fn square_name(rank: int, file: int) -> Seq<char> {
    seq![file_letter(file), digit_char(rank + 1)]
}

/// The rank shown in row `row` (rows counted from the top).
pub open spec fn shown_rank(black: bool, row: int) -> int {
    if black {
        row
    } else {
        7 - row
    }
}

/// The file shown in column `col`.
pub open spec fn shown_file(black: bool, col: int) -> int {
    if black {
        7 - col
    } else {
        col
    }
}

/// One square of the board as shown.
pub struct SquareView {
    pub name: String,
    pub light: bool,
    pub last_move: bool,
    pub piece: Option<PieceKind>,
    pub color: Option<Side>,
    pub rank_label: Option<u32>,
    pub file_label: Option<char>,
}

/// `v` is the square shown in row `row`, column `col` of the board with text
/// `t`, seen from Black's side when `black`, with last move `last`.
pub open spec fn square_shown(
    v: SquareView,
    t: Seq<char>,
    black: bool,
    last: Option<Seq<char>>,
    row: int,
    col: int,
) -> bool {
    let rank = shown_rank(black, row);
    let file = shown_file(black, col);
    let sq = 8 * rank + file;
    &&& v.name@ == square_name(rank, file)
    &&& v.light == ((row + col) % 2 == 0)
    &&& v.last_move == marks(last, square_name(rank, file))
    &&& v.piece == (if fen_squares(t).dom().contains(sq) {
        Some(fen_squares(t)[sq].0)
    } else {
        None
    })
    &&& v.color == (if fen_squares(t).dom().contains(sq) {
        Some(fen_squares(t)[sq].1)
    } else {
        None
    })
    &&& v.rank_label == (if col == 0 {
        Some((rank + 1) as u32)
    } else {
        None
    })
    &&& v.file_label == (if row == 7 {
        Some(file_letter(file))
    } else {
        None
    })
}

/// The information bar of one player.
pub struct PlayerPanel {
    pub label: String,
    pub player: Option<String>,
    pub captured: CapturedPieces,
    pub white_pieces: bool,
    pub role_to_join: String,
    pub pocket: Vec<(PieceKind, usize)>,
}

/// `p` is the bar of the player of `side`: the seat's holder, the pieces of
/// the other side that are gone (drawn in the other side's colour), the
/// role a visitor asks for to join that seat, and the pocket listing.
pub open spec fn panel_shown(p: PlayerPanel, g: GameRecord, t: Seq<char>, side: Side) -> bool {
    &&& p.label@ == turn_name(side)
    &&& p.player.deep_view() == crate::play::seat_of(g, side)
    &&& captured_matches(p.captured, t, crate::pieces::opponent(side))
    &&& p.white_pieces == (side == Side::Black)
    &&& p.role_to_join@ == (match side {
        Side::White => "white"@,
        Side::Black => "black"@,
    })
    &&& listing_is(p.pocket@, pocket_listing(crate::play::pocket_of(g, side)))
}

/// The view of one game for one visitor.
pub struct GameView {
    pub black_perspective: bool,
    pub player_role: String,
    pub my_turn: bool,
    pub status_class: String,
    pub status_text: String,
    pub top: PlayerPanel,
    pub bottom: PlayerPanel,
    pub squares: Vec<SquareView>,
}

/// The last entry of a move list, if any.
pub open spec fn last_move(moves: Seq<Seq<char>>) -> Option<Seq<char>> {
    if moves.len() > 0 {
        Some(moves.last())
    } else {
        None
    }
}

fn panel_for(game: &ChessGame, board: &chess::Board, side: Side) -> (p: PlayerPanel)
    ensures
        panel_shown(p, game@, board_text(*board), side),
{
    match side {
        Side::White => PlayerPanel {
            label: String::from_str("White"),
            player: copy_opt(&game.white_player),
            captured: get_captured_pieces(board, Side::Black),
            white_pieces: false,
            role_to_join: String::from_str("white"),
            pocket: pocket_items(&game.white_pocket),
        },
        Side::Black => PlayerPanel {
            label: String::from_str("Black"),
            player: copy_opt(&game.black_player),
            captured: get_captured_pieces(board, Side::White),
            white_pieces: true,
            role_to_join: String::from_str("black"),
            pocket: pocket_items(&game.black_pocket),
        },
    }
}

fn status_line_of(game: &ChessGame, my_turn: bool, side: Side) -> (r: String)
    ensures
        r@ == status_line(game@, my_turn, side),
{
    let status = game.status.as_str();
    let turn = match side {
        Side::White => "White",
        Side::Black => "Black",
    };
    if str_equal(status, "waiting") {
        String::from_str("Waiting for players to join... Send the URL to invite a friend.")
    } else if str_equal(status, "active") {
        if my_turn {
            let mut s = String::from_str("Your turn! Play as ");
            s.append(turn);
            s
        } else {
            let mut s = String::from_str(turn);
            s.append("'s turn to move...");
            s
        }
    } else if str_equal(status, "checkmate") {
        let mut s = String::from_str("Checkmate! Winner: ");
        match &game.winner {
            Some(w) => s.append(w.as_str()),
            None => s.append("Unknown"),
        }
        s
    } else if str_equal(status, "stalemate") {
        String::from_str("Draw (Stalemate)")
    } else {
        let mut s = String::from_str("Game Over: ");
        s.append(status);
        s
    }
}

/// Decides everything the game page shows to the visitor `player_id`
/// (with the `role` of the page's query, if any): the side the board is
/// seen from, the visitor's role and whether it is to move, the status box,
/// the two player bars (the seen-from side at the bottom) and the 64
/// squares row by row from the top.
pub fn game_view(game: &ChessGame, player_id: &str, role_query: Option<&str>) -> (r: GameView)
    requires
        game.moves@.len() > 0 ==> sliceable(game.moves.deep_view().last()),
    ensures
        ({
            let g = game@;
            let t = shown_text(g.fen);
            let q = crate::play::opt_text(role_query);
            let black = black_view(g, player_id@, q);
            let role = viewer_role(g, player_id@, q);
            let side = fen_side(t);
            let mine = turn_of(role, side);
            &&& r.black_perspective == black
            &&& r.player_role@ == role
            &&& r.my_turn == mine
            &&& r.status_class@ == status_style(g.status)
            &&& r.status_text@ == status_line(g, mine, side)
            &&& panel_shown(r.top, g, t, if black { Side::White } else { Side::Black })
            &&& panel_shown(r.bottom, g, t, if black { Side::Black } else { Side::White })
            &&& r.squares.len() == 64
            &&& forall|k: int|
                0 <= k < 64 ==> square_shown(
                    #[trigger] r.squares[k],
                    t,
                    black,
                    last_move(g.moves),
                    k / 8,
                    k % 8,
                )
        }),
{
    let board = match parse_board(game.fen.as_str()) {
        Ok(b) => b,
        Err(_) => start_board(),
    };
    let ghost t = board_text(board);
    assert(t == shown_text(game@.fen));
    let black = match role_query {
        Some(role) => str_equal(role, "black"),
        None => holds(&game.black_player, player_id),
    };
    let role: String = match role_query {
        Some(role) => String::from_str(role),
        None => if holds(&game.white_player, player_id) {
            String::from_str("white")
        } else if holds(&game.black_player, player_id) {
            String::from_str("black")
        } else {
            String::from_str("spectator")
        },
    };
    let side = side_to_move(&board);
    let my_turn = match side {
        Side::White => str_equal(role.as_str(), "white"),
        Side::Black => str_equal(role.as_str(), "black"),
    };
    let status_class = if str_equal(game.status.as_str(), "waiting") {
        String::from_str("bg-[#363532] text-yellow-400 border-yellow-500/30")
    } else if str_equal(game.status.as_str(), "active") {
        String::from_str("bg-[#1e1e1c] text-[#81b64c] border-[#769656]/30")
    } else {
        String::from_str("bg-[#1e1e1c] text-red-400 border-red-500/30")
    };
    let status_text = status_line_of(game, my_turn, side);
    let top = if black {
        panel_for(game, &board, Side::White)
    } else {
        panel_for(game, &board, Side::Black)
    };
    let bottom = if black {
        panel_for(game, &board, Side::Black)
    } else {
        panel_for(game, &board, Side::White)
    };
    let n = game.moves.len();
    let ghost last = last_move(game@.moves);
    let mut squares: Vec<SquareView> = Vec::new();
    let mut row: usize = 0;
    while row < 8
        invariant
            row <= 8,
            n == game.moves@.len(),
            n > 0 ==> sliceable(game.moves.deep_view().last()),
            last == last_move(game@.moves),
            t == board_text(board),
            squares.len() == 8 * row,
            forall|k: int|
                0 <= k < squares.len() ==> square_shown(
                    #[trigger] squares[k],
                    t,
                    black,
                    last,
                    k / 8,
                    k % 8,
                ),
        decreases 8 - row,
    {
        let mut col: usize = 0;
        while col < 8
            invariant
                row < 8,
                col <= 8,
                n == game.moves@.len(),
                n > 0 ==> sliceable(game.moves.deep_view().last()),
                last == last_move(game@.moves),
                t == board_text(board),
                squares.len() == 8 * row + col,
                forall|k: int|
                    0 <= k < squares.len() ==> square_shown(
                        #[trigger] squares[k],
                        t,
                        black,
                        last,
                        k / 8,
                        k % 8,
                    ),
            decreases 8 - col,
        {
            let rank: usize = if black {
                row
            } else {
                7 - row
            };
            let file: usize = if black {
                7 - col
            } else {
                col
            };
            let sq = 8 * rank + file;
            let letter_code: u8 = 97 + (file as u8);
            let letter = letter_code as char;
            let mut name = String::new();
            push_char(&mut name, letter);
            push_char(&mut name, digit_of((rank + 1) as u32));
            assert(name@ =~= square_name(rank as int, file as int));
            let marked = if n > 0 {
                proof {
                    assert(game.moves.deep_view().last() == game.moves[n - 1]@);
                }
                marks_square(game.moves[n - 1].as_str(), name.as_str())
            } else {
                false
            };
            let v = SquareView {
                name,
                light: (row + col) % 2 == 0,
                last_move: marked,
                piece: piece_on(&board, sq),
                color: color_on(&board, sq),
                rank_label: if col == 0 {
                    Some((rank + 1) as u32)
                } else {
                    None
                },
                file_label: if row == 7 {
                    Some(letter)
                } else {
                    None
                },
            };
            let ghost k = squares.len() as int;
            assert(k / 8 == row && k % 8 == col);
            squares.push(v);
            assert(square_shown(squares[k], t, black, last, k / 8, k % 8));
            col = col + 1;
        }
        row = row + 1;
    }
    GameView {
        black_perspective: black,
        player_role: role,
        my_turn,
        status_class,
        status_text,
        top,
        bottom,
        squares,
    }
}

} // verus!
