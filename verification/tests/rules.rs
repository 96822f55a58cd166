use guess_chess::fen::make_drop_board;
use guess_chess::game::{ChessGame, GameManager};
use guess_chess::pieces::{PieceKind, Side};
use std::str::FromStr;

const START: &str = "rnbqkbnr/pppppppp/8/8/8/8/PPPPPPPP/RNBQKBNR w KQkq - 0 1";

fn seated(variant: &str) -> (GameManager, String) {
    let mut m = GameManager::new();
    let id = m.create_game(variant.to_string());
    m.join_game(&id, "w", "white").unwrap();
    m.join_game(&id, "b", "black").unwrap();
    (m, id)
}

fn game_mut<'a>(m: &'a mut GameManager, id: &str) -> &'a mut ChessGame {
    m.games.iter_mut().find(|g| g.id == id).unwrap()
}

#[test]
fn created_game_starts_waiting_at_initial_position() {
    let mut m = GameManager::new();
    let id = m.create_game("mad_scientist".to_string());
    assert_eq!(id.len(), 36);
    let g = m.get_game(&id).unwrap();
    assert_eq!(g.id, id);
    assert_eq!(g.fen, START);
    assert_eq!(g.status, "waiting");
    assert_eq!(g.variant, "mad_scientist");
    assert!(g.moves.is_empty() && g.white_pocket.is_empty() && g.black_pocket.is_empty());
    assert!(g.winner.is_none());
    assert!(m.get_game("nope").is_none());
}

#[test]
fn two_games_get_different_ids() {
    let mut m = GameManager::new();
    let a = m.create_game("standard".to_string());
    let b = m.create_game("standard".to_string());
    assert_ne!(a, b);
    assert_eq!(m.games.len(), 2);
}

#[test]
fn join_unknown_game_is_refused() {
    let mut m = GameManager::new();
    let r = m.join_game("missing", "p", "white");
    assert_eq!(r.err().unwrap(), "Game not found");
}

#[test]
fn seats_are_exclusive() {
    let mut m = GameManager::new();
    let id = m.create_game("standard".to_string());
    m.join_game(&id, "a", "black").unwrap();
    assert_eq!(m.join_game(&id, "b", "black").err().unwrap(), "Black slot is already taken");
    m.join_game(&id, "a", "white").unwrap();
    assert_eq!(m.join_game(&id, "c", "white").err().unwrap(), "White slot is already taken");
    // the same player in both seats starts the game
    assert_eq!(m.get_game(&id).unwrap().status, "active");
}

#[test]
fn spectator_and_auto_seating() {
    let mut m = GameManager::new();
    let id = m.create_game("standard".to_string());
    let g = m.join_game(&id, "s", "spectator").unwrap();
    assert!(g.white_player.is_none() && g.black_player.is_none());
    let g = m.join_game(&id, "a", "").unwrap();
    assert_eq!(g.white_player.as_deref(), Some("a"));
    assert!(g.black_player.is_none());
    // the same player asking again takes no second seat
    let g = m.join_game(&id, "a", "anything").unwrap();
    assert!(g.black_player.is_none());
    let g = m.join_game(&id, "b", "auto").unwrap();
    assert_eq!(g.black_player.as_deref(), Some("b"));
    assert_eq!(g.status, "active");
    // with both seats taken nothing changes
    let g = m.join_game(&id, "c", "auto").unwrap();
    assert_eq!(g.white_player.as_deref(), Some("a"));
    assert_eq!(g.black_player.as_deref(), Some("b"));
}

#[test]
fn matchmaking_pairs_two_players() {
    let mut m = GameManager::new();
    assert!(m.join_matchmaking("p1", "standard").is_none());
    assert_eq!(m.matchmaking_queue_standard.as_deref(), Some("p1"));
    // waiting again changes nothing
    assert!(m.join_matchmaking("p1", "standard").is_none());
    assert!(m.check_matchmaking("p1").is_none());
    let id = m.join_matchmaking("p2", "standard").unwrap();
    assert_eq!(id.len(), 36);
    assert!(m.matchmaking_queue_standard.is_none());
    assert_eq!(m.check_matchmaking("p1").as_deref(), Some(id.as_str()));
    assert_eq!(m.check_matchmaking("p2").as_deref(), Some(id.as_str()));
    let g = m.get_game(&id).unwrap();
    assert_eq!(g.white_player.as_deref(), Some("p1"));
    assert_eq!(g.black_player.as_deref(), Some("p2"));
    assert_eq!(g.status, "active");
    assert_eq!(g.variant, "standard");
    assert_eq!(g.fen, START);
}

#[test]
fn matchmaking_queues_are_per_variant() {
    let mut m = GameManager::new();
    assert!(m.join_matchmaking("p1", "mad_scientist").is_none());
    assert!(m.join_matchmaking("p2", "standard").is_none());
    assert_eq!(m.matchmaking_queue_mad_scientist.as_deref(), Some("p1"));
    assert_eq!(m.matchmaking_queue_standard.as_deref(), Some("p2"));
    let id = m.join_matchmaking("p3", "mad_scientist").unwrap();
    assert_eq!(m.get_game(&id).unwrap().variant, "mad_scientist");
    assert_eq!(m.matchmaking_queue_standard.as_deref(), Some("p2"));
    // any other variant name uses the standard queue
    let id2 = m.join_matchmaking("p4", "blitz").unwrap();
    assert_eq!(m.get_game(&id2).unwrap().white_player.as_deref(), Some("p2"));
    assert_eq!(m.get_game(&id2).unwrap().variant, "blitz");
}

#[test]
fn new_search_forgets_old_match_and_cancel_clears() {
    let mut m = GameManager::new();
    m.join_matchmaking("p1", "standard");
    let id = m.join_matchmaking("p2", "standard").unwrap();
    assert!(m.join_matchmaking("p1", "standard").is_none());
    assert!(m.check_matchmaking("p1").is_none());
    assert_eq!(m.check_matchmaking("p2").as_deref(), Some(id.as_str()));
    m.cancel_matchmaking("p1");
    assert!(m.matchmaking_queue_standard.is_none());
    m.cancel_matchmaking("p2");
    assert!(m.check_matchmaking("p2").is_none());
    // the game itself stays
    assert!(m.get_game(&id).is_some());
    // cancelling someone else's wait does nothing
    m.join_matchmaking("p3", "mad_scientist");
    m.cancel_matchmaking("p4");
    assert_eq!(m.matchmaking_queue_mad_scientist.as_deref(), Some("p3"));
}

#[test]
fn moves_need_an_active_game() {
    let mut m = GameManager::new();
    let id = m.create_game("standard".to_string());
    let r = m.make_move(&id, "x", "e2", "e4", None);
    assert_eq!(r.err().unwrap(), "Game is not active (status: waiting)");
    assert_eq!(m.make_move("zz", "x", "e2", "e4", None).err().unwrap(), "Game not found");
}

#[test]
fn move_errors_are_reported() {
    let (mut m, id) = seated("standard");
    assert_eq!(
        m.make_move(&id, "b", "e7", "e5", None).err().unwrap(),
        "It is White's turn, but you are not White"
    );
    assert_eq!(m.make_move(&id, "w", "z2", "e4", None).err().unwrap(), "Invalid from square: z2");
    assert_eq!(m.make_move(&id, "w", "e2", "e9", None).err().unwrap(), "Invalid to square: e9");
    assert_eq!(m.make_move(&id, "w", "e2", "e5", None).err().unwrap(), "Move is not legal");
    assert_eq!(
        m.make_move(&id, "w", "drop:p", "e4", None).err().unwrap(),
        "Drops are only allowed in Mad Scientist variant"
    );
    m.make_move(&id, "w", "e2", "e4", None).unwrap();
    assert_eq!(
        m.make_move(&id, "w", "d2", "d4", None).err().unwrap(),
        "It is Black's turn, but you are not Black"
    );
    // refused moves change nothing
    let g = m.get_game(&id).unwrap();
    assert_eq!(g.moves, vec!["e2e4".to_string()]);
}

#[test]
fn square_names_read_only_two_characters() {
    let (mut m, id) = seated("standard");
    let g = m.make_move(&id, "w", "e2xx", "e4yy", None).unwrap();
    assert_eq!(g.moves[0], "e2xxe4yy");
    assert!(g.fen.starts_with("rnbqkbnr/pppppppp/8/8/4P3/8/PPPP1PPP/RNBQKBNR b"));
}

#[test]
fn fools_mate_ends_the_game() {
    let (mut m, id) = seated("standard");
    m.make_move(&id, "w", "f2", "f3", None).unwrap();
    m.make_move(&id, "b", "e7", "e5", None).unwrap();
    m.make_move(&id, "w", "g2", "g4", None).unwrap();
    let g = m.make_move(&id, "b", "d8", "h4", None).unwrap();
    assert_eq!(g.status, "checkmate");
    assert_eq!(g.winner.as_deref(), Some("Black"));
    let r = m.make_move(&id, "w", "a2", "a3", None);
    assert_eq!(r.err().unwrap(), "Game is not active (status: checkmate)");
}

#[test]
fn stalemate_is_a_draw() {
    let (mut m, id) = seated("standard");
    game_mut(&mut m, &id).fen = "k7/8/3Q4/8/8/8/8/K7 w - - 0 1".to_string();
    let g = m.make_move(&id, "w", "d6", "c7", None).unwrap();
    assert_eq!(g.status, "stalemate");
    assert_eq!(g.winner.as_deref(), Some("Draw (Stalemate)"));
}

#[test]
fn promotion_follows_the_request() {
    let (mut m, id) = seated("standard");
    game_mut(&mut m, &id).fen = "7k/P7/8/8/8/8/8/K7 w - - 0 1".to_string();
    let g = m.make_move(&id, "w", "a7", "a8", Some("N")).unwrap();
    assert_eq!(g.moves[0], "a7a8N");
    assert!(g.fen.starts_with("N6k/"));
    let (mut m, id) = seated("standard");
    game_mut(&mut m, &id).fen = "7k/P7/8/8/8/8/8/K7 w - - 0 1".to_string();
    let g = m.make_move(&id, "w", "a7", "a8", None).unwrap();
    assert_eq!(g.moves[0], "a7a8");
    assert!(g.fen.starts_with("Q6k/"));
}

#[test]
fn broken_position_is_reported() {
    let (mut m, id) = seated("standard");
    game_mut(&mut m, &id).fen = "not a fen".to_string();
    let r = m.make_move(&id, "w", "e2", "e4", None);
    assert!(r.err().unwrap().starts_with("Invalid FEN in game: "));
}

#[test]
fn standard_captures_fill_no_pocket() {
    let (mut m, id) = seated("standard");
    m.make_move(&id, "w", "e2", "e4", None).unwrap();
    m.make_move(&id, "b", "d7", "d5", None).unwrap();
    let g = m.make_move(&id, "w", "e4", "d5", None).unwrap();
    assert!(g.black_pocket.is_empty() && g.white_pocket.is_empty());
}

#[test]
fn en_passant_capture_goes_to_owner_pocket() {
    let (mut m, id) = seated("mad_scientist");
    m.make_move(&id, "w", "e2", "e4", None).unwrap();
    m.make_move(&id, "b", "a7", "a6", None).unwrap();
    m.make_move(&id, "w", "e4", "e5", None).unwrap();
    m.make_move(&id, "b", "d7", "d5", None).unwrap();
    let g = m.make_move(&id, "w", "e5", "d6", None).unwrap();
    assert_eq!(g.black_pocket, vec!["p".to_string()]);
    assert!(g.white_pocket.is_empty());
}

#[test]
fn drop_names_are_read_in_lower_case() {
    let (mut m, id) = seated("mad_scientist");
    game_mut(&mut m, &id).white_pocket.push("knight".to_string());
    let g = m.make_move(&id, "w", "drop:KNIGHT", "e4", None).unwrap();
    assert_eq!(g.moves[0], "KNIGHT@e4");
    assert!(g.white_pocket.is_empty());
    assert!(g.fen.contains("4N3"));
    assert!(g.fen.contains(" b "));
}

#[test]
fn drop_errors_are_reported() {
    let (mut m, id) = seated("mad_scientist");
    assert_eq!(m.make_move(&id, "w", "drop:k", "e4", None).err().unwrap(), "Invalid drop piece");
    assert_eq!(m.make_move(&id, "w", "drop:q", "x4", None).err().unwrap(), "Invalid to square: x4");
    assert_eq!(
        m.make_move(&id, "w", "drop:q", "e4", None).err().unwrap(),
        "Piece not available in pocket: q"
    );
}

#[test]
fn refused_drop_loses_the_pocket_piece() {
    let (mut m, id) = seated("mad_scientist");
    game_mut(&mut m, &id).white_pocket.push("p".to_string());
    game_mut(&mut m, &id).white_pocket.push("q".to_string());
    let r = m.make_move(&id, "w", "drop:p", "e2", None);
    assert_eq!(r.err().unwrap(), "Destination square is occupied");
    let g = m.get_game(&id).unwrap();
    assert_eq!(g.white_pocket, vec!["q".to_string()]);
    assert!(g.moves.is_empty());
    assert_eq!(g.fen, START);
}

#[test]
fn pawn_drop_on_last_rank_is_refused() {
    let board = chess::Board::from_str("4k3/8/8/8/8/8/8/4K3 w - - 0 1").unwrap();
    let r = make_drop_board(&board, PieceKind::Pawn, Side::White, 56);
    assert_eq!(r.err().unwrap(), "Pawns cannot be dropped on the 1st or 8th rank");
    let r = make_drop_board(&board, PieceKind::Pawn, Side::Black, 0);
    assert_eq!(r.err().unwrap(), "Pawns cannot be dropped on the 1st or 8th rank");
    let r = make_drop_board(&board, PieceKind::Rook, Side::White, 56).unwrap();
    assert_eq!(r.to_string(), "R3k3/8/8/8/8/8/8/4K3 b - - 0 1");
}

#[test]
fn black_drop_passes_the_move_to_white() {
    let board = chess::Board::from_str("4k3/8/8/8/8/8/8/4K3 b - - 0 1").unwrap();
    let r = make_drop_board(&board, PieceKind::Knight, Side::Black, 35).unwrap();
    assert_eq!(r.to_string(), "4k3/8/8/3n4/8/8/8/4K3 w - - 0 1");
}

#[test]
fn drop_into_illegal_position_is_refused() {
    // a drop that leaves the dropping side in check is refused by the board
    let board = chess::Board::from_str("4k3/8/8/8/8/8/4r3/4K3 w - - 0 1").unwrap();
    let r = make_drop_board(&board, PieceKind::Knight, Side::White, 0);
    assert!(r.err().unwrap().starts_with("Invalid drop position: "));
}

#[test]
fn cancel_right_after_waiting_restores_the_queues() {
    let mut m = GameManager::new();
    let id = m.create_game("standard".to_string());
    assert!(m.join_matchmaking("p1", "mad_scientist").is_none());
    m.cancel_matchmaking("p1");
    assert!(m.matchmaking_queue_mad_scientist.is_none());
    assert!(m.matchmaking_queue_standard.is_none());
    assert!(m.active_matches.is_empty());
    assert_eq!(m.games.len(), 1);
    assert_eq!(m.get_game(&id).unwrap().status, "waiting");
}

#[test]
fn lobby_game_seats_its_creator_as_white() {
    let mut m = GameManager::new();
    let id = m.open_game_for(None, "host");
    let g = m.get_game(&id).unwrap();
    assert_eq!(g.variant, "standard");
    assert_eq!(g.white_player.as_deref(), Some("host"));
    assert!(g.black_player.is_none());
    assert_eq!(g.status, "waiting");
    let id2 = m.open_game_for(Some("mad_scientist".to_string()), "host");
    assert_eq!(m.get_game(&id2).unwrap().variant, "mad_scientist");
    assert_eq!(guess_chess::game::variant_or_standard(None), "standard");
}

fn has_uuid_form(id: &str) -> bool {
    id.len() == 36
        && id.chars().enumerate().all(|(i, c)| {
            if i == 8 || i == 13 || i == 18 || i == 23 {
                c == '-'
            } else {
                c.is_ascii_digit() || ('a'..='f').contains(&c)
            }
        })
}

#[test]
fn ids_are_lower_case_hyphenated_uuids() {
    let mut m = GameManager::new();
    let a = m.create_game("standard".to_string());
    assert!(has_uuid_form(&a));
    let b = m.open_game_for(None, "p");
    assert!(has_uuid_form(&b));
    assert_eq!(m.join_matchmaking("x", "standard"), None);
    let c = m.join_matchmaking("y", "standard").unwrap();
    assert!(has_uuid_form(&c));
}

#[test]
fn each_move_passes_the_turn() {
    let (mut m, id) = seated("standard");
    let g = m.make_move(&id, "w", "e2", "e4", None).unwrap();
    assert_eq!(g.fen.split(' ').nth(1), Some("b"));
    let g = m.make_move(&id, "b", "e7", "e5", None).unwrap();
    assert_eq!(g.fen.split(' ').nth(1), Some("w"));
    let g = m.make_move(&id, "w", "g1", "f3", None).unwrap();
    assert_eq!(g.fen.split(' ').nth(1), Some("b"));

    let (mut m, id) = seated("mad_scientist");
    game_mut(&mut m, &id).white_pocket.push("n".to_string());
    game_mut(&mut m, &id).black_pocket.push("b".to_string());
    let g = m.make_move(&id, "w", "drop:n", "d4", None).unwrap();
    assert_eq!(g.fen.split(' ').nth(1), Some("b"));
    let g = m.make_move(&id, "b", "drop:b", "d5", None).unwrap();
    assert_eq!(g.fen.split(' ').nth(1), Some("w"));
}

#[test]
fn matched_games_are_stored() {
    let mut m = GameManager::new();
    m.join_matchmaking("a", "standard");
    let id = m.join_matchmaking("b", "standard").unwrap();
    m.join_matchmaking("c", "mad_scientist");
    let id2 = m.join_matchmaking("d", "mad_scientist").unwrap();
    m.create_game("standard".to_string());
    m.cancel_matchmaking("a");
    for (player, gid) in m.active_matches.iter() {
        assert!(m.get_game(gid).is_some(), "match of {} names no stored game", player);
    }
    assert_eq!(m.check_matchmaking("b"), Some(id));
    assert_eq!(m.check_matchmaking("d"), Some(id2));
    assert_eq!(m.check_matchmaking("a"), None);
}

fn reads_back(fen: &str) -> bool {
    chess::Board::from_str(fen).map(|b| b.to_string() == fen).unwrap_or(false)
}

#[test]
fn stored_positions_read_back_as_themselves() {
    let (mut m, id) = seated("mad_scientist");
    assert!(reads_back(&m.get_game(&id).unwrap().fen));
    for (p, f, t) in [("w", "e2", "e4"), ("b", "a7", "a6"), ("w", "e4", "e5"), ("b", "d7", "d5")] {
        let g = m.make_move(&id, p, f, t, None).unwrap();
        assert!(reads_back(&g.fen), "{}", g.fen);
    }
    // the en-passant square written after d7d5 is read back too
    let g = m.make_move(&id, "w", "e5", "d6", None).unwrap();
    assert!(reads_back(&g.fen));
    game_mut(&mut m, &id).black_pocket.push("n".to_string());
    let g = m.make_move(&id, "b", "drop:n", "h5", None).unwrap();
    assert!(reads_back(&g.fen));
    let g = m.make_move(&id, "w", "d6", "c7", None).unwrap();
    assert!(reads_back(&g.fen));
}
