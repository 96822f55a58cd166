//! FEN piece placement and the pocket drop of the "Mad Scientist" variant:
//! a drop puts a piece from the pocket on an empty square by writing the
//! position out as a new FEN text and asking the `chess` crate to read it.

use vstd::prelude::*;
use vstd::string::*;
use crate::pieces::{PieceKind, Side, opponent};
use crate::text::{
    push_char, push_decimal, decimal_text, digit_char, ws_tokens, split_ws, parse_u32, parsed_u32,
};
use crate::engine::{
    board_text, fen_squares, fen_parse, fen_side, to_space, second_field, piece_on, color_on,
    board_to_fen, parse_board,
};

verus! {

/// The lower-case letter of a piece kind, as FEN and the pockets write it.
pub open spec fn piece_letter(p: PieceKind) -> char {
    match p {
        PieceKind::Pawn => 'p',
        PieceKind::Knight => 'n',
        PieceKind::Bishop => 'b',
        PieceKind::Rook => 'r',
        PieceKind::Queen => 'q',
        PieceKind::King => 'k',
    }
}

/// The FEN letter of a piece: upper case for White, lower case for Black.
pub open spec fn fen_letter(p: PieceKind, s: Side) -> char {
    match s {
        Side::White => match p {
            PieceKind::Pawn => 'P',
            PieceKind::Knight => 'N',
            PieceKind::Bishop => 'B',
            PieceKind::Rook => 'R',
            PieceKind::Queen => 'Q',
            PieceKind::King => 'K',
        },
        Side::Black => piece_letter(p),
    }
}

/// The lower-case letter of a piece kind.
pub fn letter_of(p: PieceKind) -> (c: char)
    ensures
        c == piece_letter(p),
{
    match p {
        PieceKind::Pawn => 'p',
        PieceKind::Knight => 'n',
        PieceKind::Bishop => 'b',
        PieceKind::Rook => 'r',
        PieceKind::Queen => 'q',
        PieceKind::King => 'k',
    }
}

/// The FEN letter of a piece of side `s`.
pub fn fen_letter_of(p: PieceKind, s: Side) -> (c: char)
    ensures
        c == fen_letter(p, s),
{
    match s {
        Side::White => match p {
            PieceKind::Pawn => 'P',
            PieceKind::Knight => 'N',
            PieceKind::Bishop => 'B',
            PieceKind::Rook => 'R',
            PieceKind::Queen => 'Q',
            PieceKind::King => 'K',
        },
        Side::Black => letter_of(p),
    }
}

/// The count of a run of empty squares, written only when the run is not empty.
pub open spec fn run_text(run: int) -> Seq<char> {
    if run > 0 {
        decimal_text(run as nat)
    } else {
        seq![]
    }
}

/// The FEN text of one rank from `file` on, `run` empty squares just before
/// it not yet written.
pub open spec fn rank_code(
    cells: spec_fn(int) -> Option<(PieceKind, Side)>,
    rank: int,
    file: int,
    run: int,
) -> Seq<char>
    decreases 8 - file,
{
    if file >= 8 {
        run_text(run)
    } else {
        match cells(8 * rank + file) {
            Some(pc) => run_text(run) + seq![fen_letter(pc.0, pc.1)] + rank_code(
                cells,
                rank,
                file + 1,
                0,
            ),
            None => rank_code(cells, rank, file + 1, run + 1),
        }
    }
}

/// The FEN text of ranks `rank` down to the first, separated by `/`.
pub open spec fn ranks_code(cells: spec_fn(int) -> Option<(PieceKind, Side)>, rank: int) -> Seq<
    char,
>
    decreases rank,
{
    if rank <= 0 {
        rank_code(cells, 0, 0, 0)
    } else {
        rank_code(cells, rank, 0, 0) + seq!['/'] + ranks_code(cells, rank - 1)
    }
}

/// The FEN piece placement of a position: ranks eighth to first, files a to
/// h, a letter per piece and a count per run of empty squares.
pub open spec fn placement(cells: spec_fn(int) -> Option<(PieceKind, Side)>) -> Seq<char> {
    ranks_code(cells, 7)
}

/// The position of the board with text `t` after a piece of kind `piece`
/// and side `side` is put on square `to`.
pub open spec fn drop_cells(t: Seq<char>, piece: PieceKind, side: Side, to: int) -> spec_fn(
    int,
) -> Option<(PieceKind, Side)> {
    |sq: int|
        if sq == to {
            Some((piece, side))
        } else if fen_squares(t).dom().contains(sq) {
            Some(fen_squares(t)[sq])
        } else {
            None
        }
}

/// The full-move number written after a drop: the sixth field of the old
/// text read as a number (1 if it is not one), plus one after a Black drop.
pub open spec fn drop_fullmove(t: Seq<char>, side: Side) -> int {
    (match parsed_u32(ws_tokens(t)[5]) {
        Some(n) => n as int,
        None => 1,
    }) + (if side == Side::Black {
        1int
    } else {
        0int
    })
}

/// The FEN text written for a drop: the new placement, the other side to
/// move, the old castling field, no en-passant square, a zero half-move
/// clock and the full-move number.
pub open spec fn drop_fen(t: Seq<char>, piece: PieceKind, side: Side, to: int) -> Seq<char> {
    placement(drop_cells(t, piece, side, to)) + seq![' '] + (if side == Side::White {
        seq!['b']
    } else {
        seq!['w']
    }) + seq![' '] + ws_tokens(t)[2] + " - 0 "@ + decimal_text(drop_fullmove(t, side) as nat)
}

/// Whether `s` holds no space.
pub open spec fn spaceless(s: Seq<char>) -> bool {
    forall|i: int| 0 <= i < s.len() ==> #[trigger] s[i] != ' '
}

proof fn lemma_to_space_after(a: Seq<char>, b: Seq<char>)
    requires
        spaceless(a),
    ensures
        to_space(a + b) == a.len() + to_space(b),
    decreases a.len(),
{
    if a.len() > 0 {
        assert((a + b).drop_first() =~= a.drop_first() + b);
        assert(spaceless(a.drop_first()) && (a + b)[0] == a[0]);
        lemma_to_space_after(a.drop_first(), b);
    } else {
        assert(a + b =~= b);
    }
}

proof fn lemma_decimal_spaceless(n: nat)
    ensures
        spaceless(decimal_text(n)),
    decreases n,
{
    if n >= 10 {
        lemma_decimal_spaceless(n / 10);
    }
    assert forall|d: int| #![auto] digit_char(d) != ' ' by {}
}

proof fn lemma_rank_spaceless(
    cells: spec_fn(int) -> Option<(PieceKind, Side)>,
    rank: int,
    file: int,
    run: int,
)
    ensures
        spaceless(rank_code(cells, rank, file, run)),
    decreases 8 - file,
{
    if run > 0 {
        lemma_decimal_spaceless(run as nat);
    }
    assert(spaceless(run_text(run)));
    if file < 8 {
        lemma_rank_spaceless(cells, rank, file + 1, 0);
        lemma_rank_spaceless(cells, rank, file + 1, run + 1);
        match cells(8 * rank + file) {
            Some(pc) => {
                let a = run_text(run) + seq![fen_letter(pc.0, pc.1)];
                assert(spaceless(a));
                assert(spaceless(a + rank_code(cells, rank, file + 1, 0)));
            },
            None => {},
        }
    }
}

proof fn lemma_placement_spaceless(cells: spec_fn(int) -> Option<(PieceKind, Side)>, rank: int)
    ensures
        spaceless(ranks_code(cells, rank)),
    decreases rank,
{
    lemma_rank_spaceless(cells, rank, 0, 0);
    lemma_rank_spaceless(cells, 0, 0, 0);
    if rank > 0 {
        lemma_placement_spaceless(cells, rank - 1);
        let a = rank_code(cells, rank, 0, 0) + seq!['/'];
        assert(spaceless(a));
        assert(spaceless(a + ranks_code(cells, rank - 1)));
    }
}

/// The second field of the text written for a drop names the other side.
proof fn lemma_drop_fen_side(t: Seq<char>, piece: PieceKind, side: Side, to: int)
    ensures
        second_field(drop_fen(t, piece, side, to)) == (if side == Side::White {
            seq!['b']
        } else {
            seq!['w']
        }),
{
    let p = placement(drop_cells(t, piece, side, to));
    let c: Seq<char> = if side == Side::White {
        seq!['b']
    } else {
        seq!['w']
    };
    let rest = seq![' '] + ws_tokens(t)[2] + " - 0 "@ + decimal_text(drop_fullmove(t, side) as nat);
    let f = drop_fen(t, piece, side, to);
    lemma_placement_spaceless(drop_cells(t, piece, side, to), 7);
    assert(f =~= p + (seq![' '] + (c + rest)));
    lemma_to_space_after(p, seq![' '] + (c + rest));
    assert(to_space(f) == p.len());
    assert(f.skip(p.len() + 1int) =~= c + rest);
    assert(spaceless(c));
    lemma_to_space_after(c, rest);
    assert(to_space(c + rest) == 1);
    assert((c + rest).take(1) =~= c);
}

/// The outcome of dropping a piece of kind `piece` and side `side` on square
/// `to` of the board with text `t`: the text of the new board, or the error.
pub open spec fn drop_outcome(t: Seq<char>, piece: PieceKind, side: Side, to: int) -> Result<
    Seq<char>,
    Seq<char>,
> {
    if fen_squares(t).dom().contains(to) {
        Err("Destination square is occupied"@)
    } else if piece == PieceKind::Pawn && (to / 8 == 0 || to / 8 == 7) {
        Err("Pawns cannot be dropped on the 1st or 8th rank"@)
    } else if ws_tokens(t).len() < 6 {
        Err("Invalid original FEN format"@)
    } else {
        match fen_parse(drop_fen(t, piece, side, to)) {
            Ok(t2) => Ok(t2),
            Err(e) => Err("Invalid drop position: "@ + e),
        }
    }
}

/// Writes the piece placement of `board` with a piece of kind `piece` and
/// side `side` put on square `to`.
fn drop_placement(board: &chess::Board, piece: PieceKind, side: Side, to: usize) -> (r: String)
    requires
        to < 64,
    ensures
        r@ == placement(drop_cells(board_text(*board), piece, side, to as int)),
{
    let ghost cells = drop_cells(board_text(*board), piece, side, to as int);
    let ghost full = placement(cells);
    let mut out = String::new();
    let mut left: usize = 8;
    assert(out@ + ranks_code(cells, 7) =~= full);
    while left > 0
        invariant
            left <= 8,
            to < 64,
            cells == drop_cells(board_text(*board), piece, side, to as int),
            full == placement(cells),
            left > 0 ==> out@ + ranks_code(cells, left - 1) == full,
            left == 0 ==> out@ == full,
        decreases left,
    {
        left = left - 1;
        let rank = left;
        let ghost before = out@;
        let mut file: usize = 0;
        let mut run: u32 = 0;
        assert(out@ + rank_code(cells, rank as int, 0, 0) == before + rank_code(
            cells,
            rank as int,
            0,
            0,
        ));
        while file < 8
            invariant
                rank < 8,
                file <= 8,
                run <= file,
                to < 64,
                cells == drop_cells(board_text(*board), piece, side, to as int),
                out@ + rank_code(cells, rank as int, file as int, run as int) == before
                    + rank_code(cells, rank as int, 0, 0),
            decreases 8 - file,
        {
            let sq = 8 * rank + file;
            let (p, c) = if sq == to {
                (Some(piece), Some(side))
            } else {
                (piece_on(board, sq), color_on(board, sq))
            };
            let ghost rest = rank_code(cells, rank as int, file + 1, 0);
            match (p, c) {
                (Some(pk), Some(cl)) => {
                    assert(cells(sq as int) == Some((pk, cl)));
                    let ghost o = out@;
                    if run > 0 {
                        push_decimal(&mut out, run);
                    }
                    push_char(&mut out, fen_letter_of(pk, cl));
                    assert(out@ =~= o + run_text(run as int) + seq![fen_letter(pk, cl)]);
                    assert(o + rank_code(cells, rank as int, file as int, run as int) =~= out@
                        + rest);
                    run = 0;
                },
                _ => {
                    assert(cells(sq as int) is None);
                    run = run + 1;
                },
            }
            file = file + 1;
        }
        let ghost o = out@;
        if run > 0 {
            push_decimal(&mut out, run);
        }
        assert(out@ =~= o + run_text(run as int));
        assert(out@ == before + rank_code(cells, rank as int, 0, 0));
        if rank > 0 {
            push_char(&mut out, '/');
            assert(before + ranks_code(cells, rank as int) =~= out@ + ranks_code(
                cells,
                rank - 1,
            ));
        } else {
            assert(before + ranks_code(cells, 0) =~= out@);
        }
    }
    out
}

/// Puts a piece of kind `drop_piece` and side `drop_color` from a pocket on
/// square `to_sq` of `board`, with the other side to move next.
pub fn make_drop_board(board: &chess::Board, drop_piece: PieceKind, drop_color: Side, to_sq: usize) -> (r:
    Result<chess::Board, String>)
    requires
        to_sq < 64,
    ensures
        match r {
            Ok(b) => drop_outcome(board_text(*board), drop_piece, drop_color, to_sq as int) == Ok::<
                Seq<char>,
                Seq<char>,
            >(board_text(b)),
            Err(e) => drop_outcome(board_text(*board), drop_piece, drop_color, to_sq as int)
                == Err::<Seq<char>, Seq<char>>(e@),
        },
        r matches Ok(b) ==> fen_side(board_text(b)) == opponent(drop_color),
        r matches Ok(b) ==> fen_parse(board_text(b)) is Ok && fen_parse(board_text(b))->Ok_0
            == board_text(b),
{
    let ghost t = board_text(*board);
    if piece_on(board, to_sq).is_some() {
        return Err(String::from_str("Destination square is occupied"));
    }
    let rank = to_sq / 8;
    if drop_piece == PieceKind::Pawn && (rank == 0 || rank == 7) {
        return Err(String::from_str("Pawns cannot be dropped on the 1st or 8th rank"));
    }
    let placement = drop_placement(board, drop_piece, drop_color, to_sq);
    let orig_fen = board_to_fen(board);
    let parts = split_ws(orig_fen.as_str());
    if parts.len() < 6 {
        return Err(String::from_str("Invalid original FEN format"));
    }
    assert(parts.deep_view()[5] == parts[5]@);
    assert(parts.deep_view()[2] == parts[2]@);
    let mut fullmove: u32 = match parse_u32(parts[5].as_str()) {
        Some(n) => n,
        None => 1,
    };
    proof {
        assert(parts[5]@ =~= seq!['1']);
        assert(parsed_u32(seq!['1']) == Some(1u32)) by {
            assert(('1' as u32) == 49);
            assert(seq!['1'][0] != '+');
            assert(crate::text::unsigned_part(seq!['1']) =~= seq!['1']);
            assert(crate::text::all_digits(seq!['1']));
            assert(seq!['1'].drop_last() =~= Seq::<char>::empty());
            assert(crate::text::decimal_value(Seq::<char>::empty()) == 0);
            assert(seq!['1'].last() == '1');
            assert(crate::text::decimal_value(seq!['1']) == 1);
        }
    }
    if drop_color == Side::Black {
        fullmove = fullmove + 1;
    }
    let mut new_fen = placement;
    new_fen.append(" ");
    if drop_color == Side::White {
        new_fen.append("b");
    } else {
        new_fen.append("w");
    }
    new_fen.append(" ");
    new_fen.append(parts[2].as_str());
    new_fen.append(" - 0 ");
    push_decimal(&mut new_fen, fullmove);
    proof {
        reveal_strlit(" ");
        reveal_strlit("b");
        reveal_strlit("w");
        assert(new_fen@ =~= drop_fen(t, drop_piece, drop_color, to_sq as int));
        lemma_drop_fen_side(t, drop_piece, drop_color, to_sq as int);
        assert(seq!['b'][0] != seq!['w'][0] && seq!['b'][0] != seq!['W'][0]);
    }
    match parse_board(new_fen.as_str()) {
        Ok(b) => Ok(b),
        Err(e) => {
            let mut msg = String::from_str("Invalid drop position: ");
            msg.append(e.as_str());
            Err(msg)
        },
    }
}

} // verus!
