use guess_chess::game::GameManager;

#[test]
fn test_game_creation_and_joining() {
    let mut manager = GameManager::new();
    let game_id = manager.create_game("standard".to_string());

    let game = manager.get_game(&game_id).unwrap();
    assert_eq!(game.status, "waiting");
    assert!(game.white_player.is_none());
    assert!(game.black_player.is_none());

    // Join White
    let player1 = "player_1";
    let game = manager.join_game(&game_id, player1, "white").unwrap();
    assert_eq!(game.white_player.as_deref(), Some(player1));
    assert_eq!(game.status, "waiting"); // Still waiting for Black

    // Joining same role should succeed (idempotent)
    let game = manager.join_game(&game_id, player1, "white").unwrap();
    assert_eq!(game.white_player.as_deref(), Some(player1));

    // Join Black
    let player2 = "player_2";
    let game = manager.join_game(&game_id, player2, "black").unwrap();
    assert_eq!(game.black_player.as_deref(), Some(player2));
    assert_eq!(game.status, "active"); // Both slots filled

    // Try to join when slot is taken
    let player3 = "player_3";
    let res = manager.join_game(&game_id, player3, "white");
    assert!(res.is_err());
}

#[test]
fn test_make_move() {
    let mut manager = GameManager::new();
    let game_id = manager.create_game("standard".to_string());

    let player1 = "player_1";
    let player2 = "player_2";

    manager.join_game(&game_id, player1, "white").unwrap();
    manager.join_game(&game_id, player2, "black").unwrap();

    // White move e2 to e4
    let game = manager.make_move(&game_id, player1, "e2", "e4", None).unwrap();
    assert_eq!(game.moves.len(), 1);
    assert_eq!(game.moves[0], "e2e4");

    // Attempting to move out of turn (White moves again)
    let res = manager.make_move(&game_id, player1, "e4", "e5", None);
    assert!(res.is_err());

    // Black moves e7 to e5
    let game = manager.make_move(&game_id, player2, "e7", "e5", None).unwrap();
    assert_eq!(game.moves.len(), 2);
    assert_eq!(game.moves[1], "e7e5");

    // Illegal move (White moves knight through a piece illegally)
    let res = manager.make_move(&game_id, player1, "g1", "g3", None);
    assert!(res.is_err());
}

#[test]
fn test_mad_scientist_drops() {
    let mut manager = GameManager::new();
    let game_id = manager.create_game("mad_scientist".to_string());

    let player1 = "player_1";
    let player2 = "player_2";

    manager.join_game(&game_id, player1, "white").unwrap();
    manager.join_game(&game_id, player2, "black").unwrap();

    // 1. Manually add a White pawn to White's pocket and drop it on e4
    {
        let game = manager.games.iter_mut().find(|g| g.id == game_id).unwrap();
        game.white_pocket.push("p".to_string());
    }

    // Drop pawn on e4
    let game = manager.make_move(&game_id, player1, "drop:p", "e4", None).unwrap();
    assert_eq!(game.moves.len(), 1);
    assert_eq!(game.moves[0], "P@e4");
    assert_eq!(game.white_pocket.len(), 0);

    // 2. Black moves d7d5
    let _game = manager.make_move(&game_id, player2, "d7", "d5", None).unwrap();

    // White e4xd5 captures Black pawn.
    // Under Mad Scientist rules:
    // Black's captured pawn goes to Black's pocket (its owner's pocket)!
    let game = manager.make_move(&game_id, player1, "e4", "d5", None).unwrap();
    assert_eq!(game.black_pocket.len(), 1);
    assert_eq!(game.black_pocket[0], "p");

    // 3. Black drops the pawn back on d4
    let game = manager.make_move(&game_id, player2, "drop:p", "d4", None).unwrap();
    assert_eq!(game.black_pocket.len(), 0);
    assert_eq!(game.moves.len(), 4);
    assert_eq!(game.moves[3], "P@d4");

    // 4. Test dropping pawn on 1st/8th rank fails
    {
        let game = manager.games.iter_mut().find(|g| g.id == game_id).unwrap();
        game.white_pocket.push("p".to_string());
    }
    // White tries to drop on e8
    let res = manager.make_move(&game_id, player1, "drop:p", "e8", None);
    assert!(res.is_err()); // Pawn cannot drop on 8th rank
}
