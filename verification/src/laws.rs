//! Properties of the rules that span calls or hold of every state.

use vstd::prelude::*;
use crate::pieces::{PieceKind, Side, BoardState};
use crate::text::has_prefix;
use crate::engine::{
    fen_parse, fen_side, fen_status, fen_squares, square_named, fen_legal, unicode_lowercase,
};
use crate::fen::{drop_outcome, drop_fen, drop_cells, piece_letter};
use crate::game::{
    GameRecord, GameManager, ManagerView, seat_join, start_if_full, join_game_spec,
    create_game_spec, cancel_spec, matchmaking_spec, match_of, game_of, fresh_record, ids_match,
    game_entries, position_reads_back, positions_read_back,
};
use crate::play::{
    play_spec, drop_spec, step_spec, make_move_spec, seat_of, pocket_of, with_pocket,
    captured_by, promotion_of, first_index_of, is_first_at, side_name, pawn_on, drop_piece_named,
    promotion_named,
};
use crate::views::{count_on, viewer_role, turn_of};
use crate::registry::lemma_keyed_at;

verus! {

/// Every game is stored under its own id.
pub proof fn law_games_keyed_by_id(mgr: GameManager)
    requires
        mgr.wf(),
    ensures
        ids_match(mgr@),
{
    assert forall|k: Seq<char>| #[trigger] mgr@.games.dom().contains(k) implies mgr@.games[k].id
        == k by {
        let s = game_entries(mgr.games@);
        let j = choose|j: int| 0 <= j < s.len() && #[trigger] s[j].0 == k;
        lemma_keyed_at(s, j);
    }
}

/// Asking again for the seat one was just given changes nothing and is
/// accepted again: joining is idempotent.
pub proof fn law_join_idempotent(g: GameRecord, player: Seq<char>, role: Seq<char>)
    requires
        seat_join(g, player, role) is Ok,
    ensures
        seat_join(seat_join(g, player, role)->Ok_0, player, role) == seat_join(g, player, role),
{
    let h = seat_join(g, player, role)->Ok_0;
    reveal_strlit("white");
    reveal_strlit("black");
    reveal_strlit("spectator");
    reveal_strlit("waiting");
    reveal_strlit("active");
    assert(start_if_full(h) == h);
}

/// A seat held by someone else is refused, and the game is left as it was.
pub proof fn law_taken_seat_refused(m: ManagerView, id: Seq<char>, player: Seq<char>, side: Side)
    requires
        m.games.dom().contains(id),
        seat_of(m.games[id], side) is Some,
        seat_of(m.games[id], side) != Some(player),
    ensures
        join_game_spec(
            m,
            id,
            player,
            match side {
                Side::White => "white"@,
                Side::Black => "black"@,
            },
        ).0 == m,
        join_game_spec(
            m,
            id,
            player,
            match side {
                Side::White => "white"@,
                Side::Black => "black"@,
            },
        ).1 is Err,
{
    reveal_strlit("white");
    reveal_strlit("black");
    assert("white"@ != "black"@) by {
        assert("white"@[0] != "black"@[0]);
    }
}

/// A waiting game starts as soon as a join leaves both seats taken.
pub proof fn law_full_game_starts(g: GameRecord, player: Seq<char>, role: Seq<char>)
    requires
        g.status == "waiting"@,
        seat_join(g, player, role) is Ok,
        seat_join(g, player, role)->Ok_0.white_player is Some,
        seat_join(g, player, role)->Ok_0.black_player is Some,
    ensures
        seat_join(g, player, role)->Ok_0.status == "active"@,
{
}

/// A spectator changes no seat.
pub proof fn law_spectator_takes_no_seat(g: GameRecord, player: Seq<char>)
    ensures
        seat_join(g, player, "spectator"@) is Ok,
        seat_join(g, player, "spectator"@)->Ok_0.white_player == g.white_player,
        seat_join(g, player, "spectator"@)->Ok_0.black_player == g.black_player,
{
    reveal_strlit("white");
    reveal_strlit("black");
    reveal_strlit("spectator");
    assert("spectator"@.len() == 9);
    assert("white"@.len() == 5);
    assert("black"@.len() == 5);
}

/// A game that was created can be read back: it waits for players, has no
/// moves and starts from the initial position.
pub proof fn law_created_game_readable(m: ManagerView, id: Seq<char>, variant: Seq<char>)
    ensures
        game_of(create_game_spec(m, id, variant), id) == Some(
            fresh_record(id, variant, None, None, "waiting"@),
        ),
{
}

/// No operation ever removes a game, and each changes at most the game it
/// names (a new game in the case of creation and matchmaking).
pub proof fn law_games_persist(
    m: ManagerView,
    id: Seq<char>,
    other: Seq<char>,
    player: Seq<char>,
    arg1: Seq<char>,
    arg2: Seq<char>,
    promo: Option<Seq<char>>,
)
    requires
        m.games.dom().contains(other),
        other != id,
    ensures
        join_game_spec(m, id, player, arg1).0.games[other] == m.games[other],
        make_move_spec(m, id, player, arg1, arg2, promo).0.games[other] == m.games[other],
        create_game_spec(m, id, arg1).games[other] == m.games[other],
        matchmaking_spec(m, player, arg1, id).0.games[other] == m.games[other],
        cancel_spec(m, player).games == m.games,
        join_game_spec(m, id, player, arg1).0.games.dom().contains(other),
        make_move_spec(m, id, player, arg1, arg2, promo).0.games.dom().contains(other),
        create_game_spec(m, id, arg1).games.dom().contains(other),
        matchmaking_spec(m, player, arg1, id).0.games.dom().contains(other),
{
}

/// Two different players asking for the same variant are paired: the one
/// who waited plays White, the newcomer Black, the game is active, the
/// queue is empty again, and both players find the game through
/// `check_matchmaking`.
pub proof fn law_matchmaking_pairs(m: ManagerView, waiting: Seq<char>, player: Seq<char>, variant: Seq<
    char,
>, id: Seq<char>)
    requires
        waiting != player,
        (if variant == "mad_scientist"@ {
            m.queue_mad_scientist
        } else {
            m.queue_standard
        }) == Some(waiting),
    ensures
        ({
            let (m2, r) = matchmaking_spec(m, player, variant, id);
            &&& r == Some(id)
            &&& match_of(m2, waiting) == Some(id)
            &&& match_of(m2, player) == Some(id)
            &&& game_of(m2, id) == Some(
                fresh_record(id, variant, Some(waiting), Some(player), "active"@),
            )
            &&& (if variant == "mad_scientist"@ {
                m2.queue_mad_scientist
            } else {
                m2.queue_standard
            }) is None
        }),
{
}

/// A player alone in a queue waits there and is not matched; asking again
/// while waiting changes no queue and gives no game.
pub proof fn law_matchmaking_waits(m: ManagerView, player: Seq<char>, variant: Seq<char>, id: Seq<char>)
    requires
        (if variant == "mad_scientist"@ {
            m.queue_mad_scientist
        } else {
            m.queue_standard
        }) is None,
    ensures
        ({
            let (m2, r) = matchmaking_spec(m, player, variant, id);
            let (m3, r3) = matchmaking_spec(m2, player, variant, id);
            &&& r is None
            &&& match_of(m2, player) is None
            &&& (if variant == "mad_scientist"@ {
                m2.queue_mad_scientist
            } else {
                m2.queue_standard
            }) == Some(player)
            &&& r3 is None
            &&& m3 == m2
            &&& m2.games == m.games
        }),
{
    let (m2, r) = matchmaking_spec(m, player, variant, id);
    let (m3, r3) = matchmaking_spec(m2, player, variant, id);
    assert(m3.active_matches =~= m2.active_matches);
    assert(m3 =~= m2);
}

/// After cancelling, a player waits in no queue and has no match.
pub proof fn law_cancel_clears(m: ManagerView, player: Seq<char>)
    ensures
        match_of(cancel_spec(m, player), player) is None,
        cancel_spec(m, player).queue_standard != Some(player),
        cancel_spec(m, player).queue_mad_scientist != Some(player),
        cancel_spec(m, player).games == m.games,
{
}

/// A move is accepted only in an active game whose position reads, from the
/// player holding the seat of the side to move.
pub proof fn law_only_mover_moves(
    g: GameRecord,
    player: Seq<char>,
    from: Seq<char>,
    to: Seq<char>,
    promo: Option<Seq<char>>,
)
    requires
        play_spec(g, player, from, to, promo).1 is Ok,
    ensures
        g.status == "active"@,
        fen_parse(g.fen) is Ok,
        seat_of(g, fen_side(fen_parse(g.fen)->Ok_0)) == Some(player),
{
}

/// An accepted move adds exactly one entry to the move list, and the game
/// is then at the position the move produced.
pub proof fn law_move_recorded(
    g: GameRecord,
    player: Seq<char>,
    from: Seq<char>,
    to: Seq<char>,
    promo: Option<Seq<char>>,
)
    requires
        play_spec(g, player, from, to, promo).1 is Ok,
    ensures
        play_spec(g, player, from, to, promo).0.moves.len() == g.moves.len() + 1,
        play_spec(g, player, from, to, promo).0.moves.drop_last() == g.moves,
        play_spec(g, player, from, to, promo).0.id == g.id,
        play_spec(g, player, from, to, promo).0.variant == g.variant,
        play_spec(g, player, from, to, promo).0.white_player == g.white_player,
        play_spec(g, player, from, to, promo).0.black_player == g.black_player,
{
    let t = fen_parse(g.fen)->Ok_0;
    let side = fen_side(t);
    let r = play_spec(g, player, from, to, promo).0;
    assert(r.moves.drop_last() =~= g.moves);
}

/// A refused move leaves the position, the seats, the status, the winner
/// and the move list as they were. Only a drop refused by the board after
/// its piece left the pocket changes anything: that pocket entry stays out.
pub proof fn law_refusal_keeps_game(
    g: GameRecord,
    player: Seq<char>,
    from: Seq<char>,
    to: Seq<char>,
    promo: Option<Seq<char>>,
)
    requires
        play_spec(g, player, from, to, promo).1 is Err,
    ensures
        ({
            let h = play_spec(g, player, from, to, promo).0;
            &&& h.fen == g.fen
            &&& h.status == g.status
            &&& h.winner == g.winner
            &&& h.moves == g.moves
            &&& h.white_player == g.white_player
            &&& h.black_player == g.black_player
            &&& h.variant == g.variant
            &&& (h == g || exists|s: Side, i: int|
                0 <= i < pocket_of(g, s).len() && h == with_pocket(
                    g,
                    s,
                    pocket_of(g, s).remove(i),
                ))
        }),
{
    let h = play_spec(g, player, from, to, promo).0;
    if h != g {
        let t = fen_parse(g.fen)->Ok_0;
        let side = fen_side(t);
        let name = crate::engine::unicode_lowercase(from.subrange(5, from.len() as int));
        let i = first_index_of(pocket_of(g, side), name)->Some_0;
        assert(is_first_at(pocket_of(g, side), name, i));
    }
}

/// In the "Mad Scientist" variant a captured piece goes to the pocket of
/// its owner; in the standard game the pockets never change on a move.
pub proof fn law_capture_to_owner_pocket(
    g: GameRecord,
    player: Seq<char>,
    from: Seq<char>,
    to: Seq<char>,
    promo: Option<Seq<char>>,
)
    requires
        play_spec(g, player, from, to, promo).1 is Ok,
        !has_prefix(from, "drop:"@),
    ensures
        ({
            let h = play_spec(g, player, from, to, promo).0;
            let t = fen_parse(g.fen)->Ok_0;
            let side = fen_side(t);
            let f = square_named(from)->Some_0;
            let d = square_named(to)->Some_0;
            &&& square_named(from) is Some
            &&& square_named(to) is Some
            &&& fen_legal(t, f, d, promotion_of(t, side, f, d, promo))
            &&& match captured_by(t, side, f, d) {
                Some(c) => if g.variant == "mad_scientist"@ {
                    &&& pocket_of(h, c.1) == pocket_of(g, c.1).push(seq![piece_letter(c.0)])
                    &&& pocket_of(h, crate::pieces::opponent(c.1)) == pocket_of(
                        g,
                        crate::pieces::opponent(c.1),
                    )
                } else {
                    h.white_pocket == g.white_pocket && h.black_pocket == g.black_pocket
                },
                None => h.white_pocket == g.white_pocket && h.black_pocket == g.black_pocket,
            }
        }),
{
}

/// An accepted drop happens only in the "Mad Scientist" variant and takes
/// exactly one piece of the dropped kind out of the mover's pocket.
pub proof fn law_drop_uses_pocket(
    g: GameRecord,
    player: Seq<char>,
    from: Seq<char>,
    to: Seq<char>,
    promo: Option<Seq<char>>,
)
    requires
        play_spec(g, player, from, to, promo).1 is Ok,
        has_prefix(from, "drop:"@),
    ensures
        ({
            let h = play_spec(g, player, from, to, promo).0;
            let side = fen_side(fen_parse(g.fen)->Ok_0);
            let name = crate::engine::unicode_lowercase(from.subrange(5, from.len() as int));
            &&& g.variant == "mad_scientist"@
            &&& pocket_of(g, side).contains(name)
            &&& pocket_of(h, side).to_multiset() == pocket_of(g, side).to_multiset().remove(name)
            &&& pocket_of(h, crate::pieces::opponent(side)) == pocket_of(
                g,
                crate::pieces::opponent(side),
            )
        }),
{
    let t = fen_parse(g.fen)->Ok_0;
    let side = fen_side(t);
    let name = crate::engine::unicode_lowercase(from.subrange(5, from.len() as int));
    let p = pocket_of(g, side);
    let i = first_index_of(p, name)->Some_0;
    assert(is_first_at(p, name, i));
    vstd::seq_lib::to_multiset_remove(p, i);
}

/// A pawn is never dropped on the first or last rank, nor any piece on an
/// occupied square.
pub proof fn law_drop_squares(t: Seq<char>, piece: PieceKind, side: Side, sq: int)
    requires
        0 <= sq < 64,
        drop_outcome(t, piece, side, sq) is Ok,
    ensures
        !crate::engine::fen_squares(t).dom().contains(sq),
        piece == PieceKind::Pawn ==> 1 <= sq / 8 <= 6,
{
}

/// Once a move ends the game by checkmate or stalemate, the winner is set
/// and every further move is refused without changing the game.
pub proof fn law_finished_game_is_final(
    g: GameRecord,
    player: Seq<char>,
    from: Seq<char>,
    to: Seq<char>,
    promo: Option<Seq<char>>,
    player2: Seq<char>,
    from2: Seq<char>,
    to2: Seq<char>,
    promo2: Option<Seq<char>>,
)
    requires
        play_spec(g, player, from, to, promo).1 is Ok,
        fen_status(play_spec(g, player, from, to, promo).0.fen) != BoardState::Ongoing,
    ensures
        play_spec(g, player, from, to, promo).0.winner is Some,
        fen_status(play_spec(g, player, from, to, promo).0.fen) == BoardState::Checkmate
            ==> play_spec(g, player, from, to, promo).0.winner == Some(
            side_name(fen_side(fen_parse(g.fen)->Ok_0)),
        ),
        play_spec(play_spec(g, player, from, to, promo).0, player2, from2, to2, promo2) == (
            play_spec(g, player, from, to, promo).0,
            play_spec(play_spec(g, player, from, to, promo).0, player2, from2, to2, promo2).1,
        ),
        play_spec(play_spec(g, player, from, to, promo).0, player2, from2, to2, promo2).1 is Err,
{
    reveal_strlit("active");
    reveal_strlit("checkmate");
    reveal_strlit("stalemate");
}

/// Cancelling right after starting to wait in an empty queue restores the
/// manager as it was, when the player had no match and waited nowhere.
pub proof fn law_cancel_undoes_wait(m: ManagerView, player: Seq<char>, variant: Seq<char>, id: Seq<char>)
    requires
        m.queue_standard != Some(player),
        m.queue_mad_scientist != Some(player),
        !m.active_matches.dom().contains(player),
        (if variant == "mad_scientist"@ {
            m.queue_mad_scientist
        } else {
            m.queue_standard
        }) is None,
    ensures
        cancel_spec(matchmaking_spec(m, player, variant, id).0, player) == m,
{
    let m2 = matchmaking_spec(m, player, variant, id).0;
    assert(m2.active_matches =~= m.active_matches);
    assert(cancel_spec(m2, player).active_matches =~= m.active_matches);
    assert(cancel_spec(m2, player) =~= m);
}

/// A game's status is `waiting`, `active`, `checkmate` or `stalemate`, and
/// it has a winner exactly when it is over.
pub open spec fn record_ok(g: GameRecord) -> bool {
    &&& (g.status == "waiting"@ || g.status == "active"@ || g.status == "checkmate"@ || g.status
        == "stalemate"@)
    &&& (g.winner is Some <==> (g.status == "checkmate"@ || g.status == "stalemate"@))
}

/// Every stored game satisfies `record_ok`.
pub open spec fn records_ok(m: ManagerView) -> bool {
    forall|k: Seq<char>| #[trigger] m.games.dom().contains(k) ==> record_ok(m.games[k])
}

proof fn lemma_status_words_differ()
    ensures
        "waiting"@ != "active"@,
        "waiting"@ != "checkmate"@,
        "waiting"@ != "stalemate"@,
        "active"@ != "checkmate"@,
        "active"@ != "stalemate"@,
        "checkmate"@ != "stalemate"@,
{
    reveal_strlit("waiting");
    reveal_strlit("active");
    reveal_strlit("checkmate");
    reveal_strlit("stalemate");
    assert("waiting"@.len() != "active"@.len());
    assert("waiting"@[0] != "checkmate"@[0]);
    assert("waiting"@[0] != "stalemate"@[0]);
    assert("active"@.len() != "checkmate"@.len());
    assert("active"@.len() != "stalemate"@.len());
    assert("checkmate"@[0] != "stalemate"@[0]);
}

proof fn lemma_play_keeps_record_ok(
    g: GameRecord,
    player: Seq<char>,
    from: Seq<char>,
    to: Seq<char>,
    promo: Option<Seq<char>>,
)
    requires
        record_ok(g),
    ensures
        record_ok(play_spec(g, player, from, to, promo).0),
{
    lemma_status_words_differ();
    reveal_strlit("checkmate");
    reveal_strlit("stalemate");
}

/// Creating, joining, matchmaking, cancelling and moving all keep every
/// stored game's status one of the four, with a winner exactly when the game
/// is over.
pub proof fn law_records_stay_ok(
    m: ManagerView,
    id: Seq<char>,
    player: Seq<char>,
    arg1: Seq<char>,
    arg2: Seq<char>,
    promo: Option<Seq<char>>,
)
    requires
        records_ok(m),
    ensures
        records_ok(create_game_spec(m, id, arg1)),
        records_ok(join_game_spec(m, id, player, arg1).0),
        records_ok(matchmaking_spec(m, player, arg1, id).0),
        records_ok(cancel_spec(m, player)),
        records_ok(make_move_spec(m, id, player, arg1, arg2, promo).0),
{
    lemma_status_words_differ();
    if m.games.dom().contains(id) {
        lemma_play_keeps_record_ok(m.games[id], player, arg1, arg2, promo);
    }
}

/// Every game a player is matched into is a stored game.
pub open spec fn matches_stored(m: ManagerView) -> bool {
    forall|p: Seq<char>| #[trigger] m.active_matches.dom().contains(p) ==> m.games.dom().contains(
        m.active_matches[p],
    )
}

/// Every game id in the match table names a stored game, and creating,
/// joining, matchmaking, cancelling and moving all keep it so.
pub proof fn law_matches_stay_stored(
    m: ManagerView,
    id: Seq<char>,
    player: Seq<char>,
    arg1: Seq<char>,
    arg2: Seq<char>,
    promo: Option<Seq<char>>,
)
    requires
        matches_stored(m),
    ensures
        matches_stored(create_game_spec(m, id, arg1)),
        matches_stored(join_game_spec(m, id, player, arg1).0),
        matches_stored(matchmaking_spec(m, player, arg1, id).0),
        matches_stored(cancel_spec(m, player)),
        matches_stored(make_move_spec(m, id, player, arg1, arg2, promo).0),
{
    let r = matchmaking_spec(m, player, arg1, id).0;
    assert forall|p: Seq<char>| #[trigger] r.active_matches.dom().contains(p) implies r.games.dom(
    ).contains(r.active_matches[p]) by {
        if r.active_matches[p] != id {
            assert(m.active_matches.dom().contains(p));
        }
    }
}

/// Joining and cancelling leave every stored position readable as itself
/// (creating, matchmaking and moving say the same in their `ensures`).
pub proof fn law_positions_stay_readable(
    m: ManagerView,
    id: Seq<char>,
    player: Seq<char>,
    role: Seq<char>,
)
    requires
        positions_read_back(m),
    ensures
        positions_read_back(join_game_spec(m, id, player, role).0),
        positions_read_back(cancel_spec(m, player)),
{
}

/// In an active game whose stored position reads back as itself, a move of
/// the player holding the seat of the side to move is judged on exactly
/// that stored position.
pub proof fn law_stored_position_is_played(
    g: GameRecord,
    player: Seq<char>,
    from: Seq<char>,
    to: Seq<char>,
    promo: Option<Seq<char>>,
)
    requires
        position_reads_back(g),
        g.status == "active"@,
        seat_of(g, fen_side(g.fen)) == Some(player),
    ensures
        play_spec(g, player, from, to, promo) == (if has_prefix(from, "drop:"@) {
            drop_spec(g, g.fen, fen_side(g.fen), from, to)
        } else {
            step_spec(g, g.fen, fen_side(g.fen), from, to, promo)
        }),
{
}

/// A move asks for a promotion exactly when a pawn moves onto the far rank
/// of its side: the eighth rank for White, the first for Black.
pub proof fn law_promotion_on_far_rank(
    t: Seq<char>,
    side: Side,
    f: int,
    d: int,
    promo: Option<Seq<char>>,
)
    ensures
        promotion_of(t, side, f, d, promo) is Some <==> (pawn_on(t, f) && d / 8 == (if side
            == Side::White {
            7int
        } else {
            0int
        })),
{
}

proof fn lemma_letters_are_names()
    ensures
        "p"@ == seq!['p'],
        "n"@ == seq!['n'],
        "b"@ == seq!['b'],
        "r"@ == seq!['r'],
        "q"@ == seq!['q'],
        "k"@ == seq!['k'],
        "pawn"@.len() == 4,
        "knight"@.len() == 6,
        "bishop"@.len() == 6,
        "rook"@.len() == 4,
        "queen"@.len() == 5,
{
    reveal_strlit("p");
    reveal_strlit("n");
    reveal_strlit("b");
    reveal_strlit("r");
    reveal_strlit("q");
    reveal_strlit("k");
    reveal_strlit("pawn");
    reveal_strlit("knight");
    reveal_strlit("bishop");
    reveal_strlit("rook");
    reveal_strlit("queen");
}

/// The letter a capture puts in a pocket is dropped back as the kind that
/// was captured (a king is never captured, so never dropped).
pub proof fn law_pocket_letter_drops_its_kind(k: PieceKind)
    ensures
        k != PieceKind::King ==> drop_piece_named(seq![piece_letter(k)]) == Some(k),
        k == PieceKind::King ==> drop_piece_named(seq![piece_letter(k)]) is None,
{
    lemma_letters_are_names();
    assert(seq!['p'] != seq!['n'] && seq!['p'] != seq!['b'] && seq!['p'] != seq!['r']
        && seq!['p'] != seq!['q'] && seq!['n'] != seq!['b'] && seq!['n'] != seq!['r']
        && seq!['n'] != seq!['q'] && seq!['b'] != seq!['r'] && seq!['b'] != seq!['q']
        && seq!['r'] != seq!['q'] && seq!['k'] != seq!['p'] && seq!['k'] != seq!['n']
        && seq!['k'] != seq!['b'] && seq!['k'] != seq!['r'] && seq!['k'] != seq!['q']) by {
        assert(seq!['p'][0] != seq!['n'][0]);
        assert(seq!['p'][0] != seq!['b'][0]);
        assert(seq!['p'][0] != seq!['r'][0]);
        assert(seq!['p'][0] != seq!['q'][0]);
        assert(seq!['n'][0] != seq!['b'][0]);
        assert(seq!['n'][0] != seq!['r'][0]);
        assert(seq!['n'][0] != seq!['q'][0]);
        assert(seq!['b'][0] != seq!['r'][0]);
        assert(seq!['b'][0] != seq!['q'][0]);
        assert(seq!['r'][0] != seq!['q'][0]);
        assert(seq!['k'][0] != seq!['p'][0]);
        assert(seq!['k'][0] != seq!['n'][0]);
        assert(seq!['k'][0] != seq!['b'][0]);
        assert(seq!['k'][0] != seq!['r'][0]);
        assert(seq!['k'][0] != seq!['q'][0]);
    }
}

/// Drops and promotions read a piece name alike: a name that drops a
/// knight, bishop, rook or queen promotes to that same piece.
pub proof fn law_drop_and_promotion_names_agree(name: Seq<char>)
    ensures
        drop_piece_named(name) is Some && drop_piece_named(name)->Some_0 != PieceKind::Pawn
            ==> promotion_named(name) == drop_piece_named(name)->Some_0,
{
    lemma_letters_are_names();
}

/// An accepted drop of a pocket entry whose (lower-cased) name is the
/// letter of kind `k` writes the position with a piece of kind `k` and the
/// mover's colour on the target square, and stores what the chess crate
/// reads of that text.
pub proof fn law_drop_places_named_piece(
    g: GameRecord,
    t: Seq<char>,
    side: Side,
    from: Seq<char>,
    to: Seq<char>,
    k: PieceKind,
)
    requires
        drop_spec(g, t, side, from, to).1 is Ok,
        unicode_lowercase(from.subrange(5, from.len() as int)) == seq![piece_letter(k)],
    ensures
        square_named(to) is Some,
        ({
            let sq = square_named(to)->Some_0;
            &&& drop_cells(t, k, side, sq)(sq) == Some((k, side))
            &&& fen_parse(drop_fen(t, k, side, sq)) is Ok
            &&& drop_spec(g, t, side, from, to).0.fen == fen_parse(drop_fen(t, k, side, sq))->Ok_0
        }),
{
    law_pocket_letter_drops_its_kind(k);
    if k == PieceKind::King {
        assert(drop_spec(g, t, side, from, to).1 is Err);
    }
}

proof fn lemma_names_differ()
    ensures
        "White"@ != "Black"@,
        "white"@ != "black"@,
        "white"@ != "spectator"@,
        "black"@ != "spectator"@,
{
    reveal_strlit("White");
    reveal_strlit("Black");
    reveal_strlit("white");
    reveal_strlit("black");
    reveal_strlit("spectator");
    assert("White"@[0] != "Black"@[0]);
    assert("white"@[0] != "black"@[0]);
    assert("white"@.len() != "spectator"@.len());
    assert("black"@.len() != "spectator"@.len());
}

/// When a move ends the game by checkmate, the winner field names the side
/// that moved: "White" exactly when White was to move (and held by the
/// player who moved), "Black" exactly when Black was.
pub proof fn law_checkmate_credits_mover(
    g: GameRecord,
    player: Seq<char>,
    from: Seq<char>,
    to: Seq<char>,
    promo: Option<Seq<char>>,
)
    requires
        play_spec(g, player, from, to, promo).1 is Ok,
        play_spec(g, player, from, to, promo).0.status == "checkmate"@,
    ensures
        ({
            let mover = fen_side(fen_parse(g.fen)->Ok_0);
            let w = play_spec(g, player, from, to, promo).0.winner;
            &&& w == Some("White"@) <==> mover == Side::White
            &&& w == Some("Black"@) <==> mover == Side::Black
            &&& w == Some("White"@) ==> g.white_player == Some(player)
            &&& w == Some("Black"@) ==> g.black_player == Some(player)
        }),
{
    lemma_status_words_differ();
    lemma_names_differ();
    reveal_strlit("checkmate");
}

/// With no role asked in the query, the game page says "your turn" to a
/// visitor exactly when that visitor holds the seat of the side to move,
/// the seat a move is accepted from (a visitor holding both seats is shown
/// as White).
pub proof fn law_page_turn_is_seat_turn(g: GameRecord, player: Seq<char>, side: Side)
    ensures
        turn_of(viewer_role(g, player, None), side) <==> (seat_of(g, side) == Some(player) && (side
            == Side::Black ==> g.white_player != Some(player))),
        viewer_role(g, player, None) == "white"@ <==> g.white_player == Some(player),
{
    lemma_names_differ();
}

/// The squares of the position with text `t` below `n` that hold a piece
/// of kind `kind` and side `side`.
pub open spec fn squares_holding(t: Seq<char>, kind: PieceKind, side: Side, n: int) -> Set<int> {
    Set::new(
        |sq: int|
            0 <= sq < n && fen_squares(t).dom().contains(sq) && fen_squares(t)[sq] == (kind, side),
    )
}

proof fn lemma_count_is_card(t: Seq<char>, kind: PieceKind, side: Side, n: int)
    requires
        0 <= n,
    ensures
        squares_holding(t, kind, side, n).finite(),
        count_on(t, kind, side, n) == squares_holding(t, kind, side, n).len(),
    decreases n,
{
    if n == 0 {
        assert(squares_holding(t, kind, side, 0) =~= Set::<int>::empty());
    } else {
        lemma_count_is_card(t, kind, side, n - 1);
        let prev = squares_holding(t, kind, side, n - 1);
        let cur = squares_holding(t, kind, side, n);
        if fen_squares(t).dom().contains(n - 1) && fen_squares(t)[n - 1] == (kind, side) {
            assert(cur =~= prev.insert(n - 1));
            assert(!prev.contains(n - 1));
        } else {
            assert(cur =~= prev);
        }
    }
}

/// The count of pieces of a kind and side on a board is the number of the
/// 64 squares that hold such a piece.
pub proof fn law_count_is_squares_holding(t: Seq<char>, kind: PieceKind, side: Side)
    ensures
        squares_holding(t, kind, side, 64).finite(),
        count_on(t, kind, side, 64) == squares_holding(t, kind, side, 64).len(),
{
    lemma_count_is_card(t, kind, side, 64);
}

} // verus!
