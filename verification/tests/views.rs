use guess_chess::game::{ChessGame, GameManager};
use guess_chess::pieces::{PieceKind, Side};
use guess_chess::signals::{redirect_role, refresh_message, refresh_target, should_refresh, socket_game_id};
use guess_chess::views::{game_view, get_captured_pieces, get_piece_image_url, marks_square, pocket_items};
use std::str::FromStr;

fn sample_game() -> ChessGame {
    let mut m = GameManager::new();
    let id = m.create_game("mad_scientist".to_string());
    m.join_game(&id, "alice_0001", "white").unwrap();
    m.join_game(&id, "bob_000002", "black").unwrap();
    m.make_move(&id, "alice_0001", "e2", "e4", None).unwrap()
}

#[test]
fn piece_images() {
    assert_eq!(get_piece_image_url(PieceKind::Pawn, Side::White), "https://lichess1.org/assets/piece/cburnett/wP.svg");
    assert_eq!(get_piece_image_url(PieceKind::King, Side::Black), "https://lichess1.org/assets/piece/cburnett/bK.svg");
    assert_eq!(get_piece_image_url(PieceKind::Queen, Side::Black), "https://lichess1.org/assets/piece/cburnett/bQ.svg");
}

#[test]
fn captured_counts() {
    let start = chess::Board::default();
    let c = get_captured_pieces(&start, Side::White);
    assert_eq!((c.pawns, c.knights, c.bishops, c.rooks, c.queens), (0, 0, 0, 0, 0));
    let b = chess::Board::from_str("4k3/pp6/8/8/8/8/8/4K2R w - - 0 1").unwrap();
    let black = get_captured_pieces(&b, Side::Black);
    assert_eq!((black.pawns, black.knights, black.bishops, black.rooks, black.queens), (6, 2, 2, 2, 1));
    let white = get_captured_pieces(&b, Side::White);
    assert_eq!((white.pawns, white.rooks, white.queens), (8, 1, 1));
}

#[test]
fn pocket_listing_counts_kinds() {
    let pocket: Vec<String> = vec!["p", "q", "pawn", "knight", "x", "p"].into_iter().map(String::from).collect();
    let items = pocket_items(&pocket);
    assert_eq!(items, vec![(PieceKind::Pawn, 3), (PieceKind::Knight, 1), (PieceKind::Queen, 1)]);
    assert!(pocket_items(&Vec::new()).is_empty());
}

#[test]
fn view_for_black_player() {
    let g = sample_game();
    let v = game_view(&g, "bob_000002", None);
    assert!(v.black_perspective);
    assert_eq!(v.player_role, "black");
    assert!(v.my_turn);
    assert_eq!(v.status_text, "Your turn! Play as Black");
    assert_eq!(v.status_class, "bg-[#1e1e1c] text-[#81b64c] border-[#769656]/30");
    assert_eq!(v.top.label, "White");
    assert_eq!(v.bottom.label, "Black");
    assert_eq!(v.top.player.as_deref(), Some("alice_0001"));
    assert_eq!(v.squares.len(), 64);
    // seen from Black, the top-left square is h1
    assert_eq!(v.squares[0].name, "h1");
    assert_eq!(v.squares[0].piece, Some(PieceKind::Rook));
    assert_eq!(v.squares[0].color, Some(Side::White));
    assert_eq!(v.squares[0].rank_label, Some(1));
    assert!(v.squares[0].light);
    assert_eq!(v.squares[63].name, "a8");
    assert_eq!(v.squares[63].file_label, Some('a'));
    let e4 = v.squares.iter().find(|s| s.name == "e4").unwrap();
    assert!(e4.last_move);
    assert_eq!(e4.piece, Some(PieceKind::Pawn));
    let e2 = v.squares.iter().find(|s| s.name == "e2").unwrap();
    assert!(e2.last_move);
    assert!(e2.piece.is_none());
    assert_eq!(v.squares.iter().filter(|s| s.last_move).count(), 2);
}

#[test]
fn view_for_spectator_and_query_role() {
    let g = sample_game();
    let v = game_view(&g, "carol", None);
    assert!(!v.black_perspective);
    assert_eq!(v.player_role, "spectator");
    assert!(!v.my_turn);
    assert_eq!(v.status_text, "Black's turn to move...");
    assert_eq!(v.squares[0].name, "a8");
    assert_eq!(v.squares[0].rank_label, Some(8));
    let v = game_view(&g, "carol", Some("black"));
    assert!(v.black_perspective);
    assert_eq!(v.player_role, "black");
    assert!(v.my_turn);
}

#[test]
fn status_lines() {
    let mut g = sample_game();
    g.status = "waiting".to_string();
    let v = game_view(&g, "x", None);
    assert_eq!(v.status_text, "Waiting for players to join... Send the URL to invite a friend.");
    assert_eq!(v.status_class, "bg-[#363532] text-yellow-400 border-yellow-500/30");
    g.status = "checkmate".to_string();
    g.winner = Some("White".to_string());
    assert_eq!(game_view(&g, "x", None).status_text, "Checkmate! Winner: White");
    g.winner = None;
    assert_eq!(game_view(&g, "x", None).status_text, "Checkmate! Winner: Unknown");
    g.status = "stalemate".to_string();
    assert_eq!(game_view(&g, "x", None).status_text, "Draw (Stalemate)");
    g.status = "resigned".to_string();
    let v = game_view(&g, "x", None);
    assert_eq!(v.status_text, "Game Over: resigned");
    assert_eq!(v.status_class, "bg-[#1e1e1c] text-red-400 border-red-500/30");
}

#[test]
fn unreadable_position_shows_the_start() {
    let mut g = sample_game();
    g.fen = "garbage".to_string();
    g.moves.clear();
    let v = game_view(&g, "x", None);
    assert_eq!(v.squares[0].piece, Some(PieceKind::Rook));
    assert_eq!(v.squares[0].color, Some(Side::Black));
    assert!(v.squares.iter().all(|s| !s.last_move));
}

#[test]
fn last_move_marks() {
    assert!(marks_square("e2e4", "e2"));
    assert!(marks_square("e2e4", "e4"));
    assert!(!marks_square("e2e4", "e3"));
    assert!(marks_square("P@d4", "d4"));
    assert!(!marks_square("P@d4", "d3"));
}

#[test]
fn refresh_signals() {
    let msg = refresh_message("abc");
    assert_eq!(msg, "abc:refresh");
    assert!(should_refresh(&msg, "abc"));
    assert!(!should_refresh(&msg, "ab"));
    assert!(!should_refresh("abc", "abc"));
    assert_eq!(refresh_target("x:refresh").as_deref(), Some("x"));
    assert_eq!(refresh_target(":refresh").as_deref(), Some(""));
    assert!(refresh_target("x:refres").is_none());
}

#[test]
fn socket_paths() {
    assert_eq!(socket_game_id("/ws/123").as_deref(), Some("123"));
    assert_eq!(socket_game_id("/ws/").as_deref(), Some(""));
    assert!(socket_game_id("/game/1").is_none());
}

#[test]
fn redirect_seats() {
    let g = sample_game();
    assert_eq!(redirect_role(&Some(g.clone()), "bob_000002"), "black");
    assert_eq!(redirect_role(&Some(g), "alice_0001"), "white");
    assert_eq!(redirect_role(&None, "bob_000002"), "white");
}
