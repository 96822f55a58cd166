//! The game records and the game manager: creating games, taking seats,
//! matchmaking, and looking games up.

use vstd::prelude::*;
use vstd::string::*;
use crate::text::str_equal;
use crate::engine::{start_text, start_board, board_to_fen, fresh_id, uuid_form, fen_parse};
use crate::registry::{unique_keys, has_key, keyed_map, lemma_keyed_at, lemma_keyed_update,
    lemma_keyed_push, lemma_keyed_remove};

verus! {

/// A game as the rules see it: every text field by its characters.
#[verifier::ext_equal]
pub struct GameRecord {
    pub id: Seq<char>,
    pub fen: Seq<char>,
    pub white_player: Option<Seq<char>>,
    pub black_player: Option<Seq<char>>,
    pub status: Seq<char>,
    pub winner: Option<Seq<char>>,
    pub moves: Seq<Seq<char>>,
    pub variant: Seq<char>,
    pub white_pocket: Seq<Seq<char>>,
    pub black_pocket: Seq<Seq<char>>,
}

/// One game: its id, position (FEN), seats, status
/// (`waiting`, `active`, `checkmate`, `stalemate`), winner, moves played,
/// variant (`standard` or `mad_scientist`) and the two pockets of the
/// variant.
pub struct ChessGame {
    pub id: String,
    pub fen: String,
    pub white_player: Option<String>,
    pub black_player: Option<String>,
    pub status: String,
    pub winner: Option<String>,
    pub moves: Vec<String>,
    pub variant: String,
    pub white_pocket: Vec<String>,
    pub black_pocket: Vec<String>,
}

impl View for ChessGame {
    type V = GameRecord;

    open spec fn view(&self) -> GameRecord {
        GameRecord {
            id: self.id@,
            fen: self.fen@,
            white_player: self.white_player.deep_view(),
            black_player: self.black_player.deep_view(),
            status: self.status@,
            winner: self.winner.deep_view(),
            moves: self.moves.deep_view(),
            variant: self.variant@,
            white_pocket: self.white_pocket.deep_view(),
            black_pocket: self.black_pocket.deep_view(),
        }
    }
}

/// A copy of an optional text.
pub fn copy_opt(o: &Option<String>) -> (r: Option<String>)
    ensures
        r.deep_view() == o.deep_view(),
{
    match o {
        Some(s) => Some(s.clone()),
        None => None,
    }
}

/// A copy of a list of texts.
pub fn copy_texts(v: &Vec<String>) -> (r: Vec<String>)
    ensures
        r.deep_view() == v.deep_view(),
{
    let mut out: Vec<String> = Vec::new();
    let mut i: usize = 0;
    while i < v.len()
        invariant
            i <= v.len(),
            out.deep_view() =~= v.deep_view().take(i as int),
        decreases v.len() - i,
    {
        out.push(v[i].clone());
        i = i + 1;
        assert(v.deep_view().take(i as int) =~= v.deep_view().take(i - 1).push(v[i - 1]@));
    }
    assert(v.deep_view().take(v.len() as int) =~= v.deep_view());
    out
}

impl Clone for ChessGame {
    fn clone(&self) -> (r: Self)
        ensures
            r@ == self@,
    {
        ChessGame {
            id: self.id.clone(),
            fen: self.fen.clone(),
            white_player: copy_opt(&self.white_player),
            black_player: copy_opt(&self.black_player),
            status: self.status.clone(),
            winner: copy_opt(&self.winner),
            moves: copy_texts(&self.moves),
            variant: self.variant.clone(),
            white_pocket: copy_texts(&self.white_pocket),
            black_pocket: copy_texts(&self.black_pocket),
        }
    }
}

/// Whether the optional text `o` holds exactly `p`.
pub fn holds(o: &Option<String>, p: &str) -> (r: bool)
    ensures
        r == (o.deep_view() == Some(p@)),
{
    match o {
        Some(s) => str_equal(s.as_str(), p),
        None => false,
    }
}

/// A game with no moves and empty pockets, at the starting position.
pub open spec fn fresh_record(
    id: Seq<char>,
    variant: Seq<char>,
    white: Option<Seq<char>>,
    black: Option<Seq<char>>,
    status: Seq<char>,
) -> GameRecord {
    GameRecord {
        id,
        fen: start_text(),
        white_player: white,
        black_player: black,
        status,
        winner: None,
        moves: seq![],
        variant,
        white_pocket: seq![],
        black_pocket: seq![],
    }
}

/// Starts a game whose two seats are taken and that is still waiting.
pub open spec fn start_if_full(g: GameRecord) -> GameRecord {
    if g.white_player is Some && g.black_player is Some && g.status == "waiting"@ {
        GameRecord { status: "active"@, ..g }
    } else {
        g
    }
}

/// The seat rule: `player` asks for `role` (`white`, `black`, `spectator`,
/// or anything else for the first free seat). A seat held by someone else is
/// refused; asking again for one's own seat changes nothing. When both seats
/// are taken a waiting game starts.
pub open spec fn seat_join(g: GameRecord, player: Seq<char>, role: Seq<char>) -> Result<
    GameRecord,
    Seq<char>,
> {
    if role == "white"@ {
        if g.white_player is None {
            Ok(start_if_full(GameRecord { white_player: Some(player), ..g }))
        } else if g.white_player != Some(player) {
            Err("White slot is already taken"@)
        } else {
            Ok(start_if_full(g))
        }
    } else if role == "black"@ {
        if g.black_player is None {
            Ok(start_if_full(GameRecord { black_player: Some(player), ..g }))
        } else if g.black_player != Some(player) {
            Err("Black slot is already taken"@)
        } else {
            Ok(start_if_full(g))
        }
    } else if role == "spectator"@ {
        Ok(start_if_full(g))
    } else if g.white_player is None {
        Ok(start_if_full(GameRecord { white_player: Some(player), ..g }))
    } else if g.black_player is None && g.white_player != Some(player) {
        Ok(start_if_full(GameRecord { black_player: Some(player), ..g }))
    } else {
        Ok(start_if_full(g))
    }
}

fn start_if_full_exec(g: &mut ChessGame)
    ensures
        final(g)@ == start_if_full(old(g)@),
{
    if g.white_player.is_some() && g.black_player.is_some() && str_equal(
        g.status.as_str(),
        "waiting",
    ) {
        g.status = String::from_str("active");
    }
}

/// Applies the seat rule to `g`; on refusal `g` is left as it was.
pub fn take_seat(g: &mut ChessGame, player: &str, role: &str) -> (r: Result<(), String>)
    ensures
        match seat_join(old(g)@, player@, role@) {
            Ok(h) => r is Ok && final(g)@ == h,
            Err(e) => r matches Err(m) && m@ == e && final(g)@ == old(g)@,
        },
{
    if str_equal(role, "white") {
        if g.white_player.is_none() {
            g.white_player = Some(String::from_str(player));
        } else if !holds(&g.white_player, player) {
            return Err(String::from_str("White slot is already taken"));
        }
    } else if str_equal(role, "black") {
        if g.black_player.is_none() {
            g.black_player = Some(String::from_str(player));
        } else if !holds(&g.black_player, player) {
            return Err(String::from_str("Black slot is already taken"));
        }
    } else if str_equal(role, "spectator") {
    } else {
        if g.white_player.is_none() {
            g.white_player = Some(String::from_str(player));
        } else if g.black_player.is_none() && !holds(&g.white_player, player) {
            g.black_player = Some(String::from_str(player));
        }
    }
    start_if_full_exec(g);
    Ok(())
}

/// The state of a game manager as the rules see it.
#[verifier::ext_equal]
pub struct ManagerView {
    pub games: Map<Seq<char>, GameRecord>,
    pub queue_standard: Option<Seq<char>>,
    pub queue_mad_scientist: Option<Seq<char>>,
    pub active_matches: Map<Seq<char>, Seq<char>>,
}

/// Whether the game's stored position is a text the `chess` crate reads
/// back as itself.
pub open spec fn position_reads_back(g: GameRecord) -> bool {
    fen_parse(g.fen) == Ok::<Seq<char>, Seq<char>>(g.fen)
}

/// Whether every stored game's position reads back as itself.
pub open spec fn positions_read_back(m: ManagerView) -> bool {
    forall|k: Seq<char>| #[trigger] m.games.dom().contains(k) ==> position_reads_back(m.games[k])
}

/// All games, the player waiting in each matchmaking queue, and the game
/// each matched player was put in.
pub struct GameManager {
    pub games: Vec<ChessGame>,
    pub matchmaking_queue_standard: Option<String>,
    pub matchmaking_queue_mad_scientist: Option<String>,
    pub active_matches: Vec<(String, String)>,
}

/// The game table as keyed entries.
pub open spec fn game_entries(v: Seq<ChessGame>) -> Seq<(Seq<char>, GameRecord)> {
    v.map_values(|g: ChessGame| (g.id@, g@))
}

/// The match table as keyed entries.
pub open spec fn match_entries(v: Seq<(String, String)>) -> Seq<(Seq<char>, Seq<char>)> {
    v.map_values(|p: (String, String)| (p.0@, p.1@))
}

/// Every game is stored under its own id.
pub open spec fn ids_match(m: ManagerView) -> bool {
    forall|k: Seq<char>| #[trigger] m.games.dom().contains(k) ==> m.games[k].id == k
}

impl View for GameManager {
    type V = ManagerView;

    open spec fn view(&self) -> ManagerView {
        ManagerView {
            games: keyed_map(game_entries(self.games@)),
            queue_standard: self.matchmaking_queue_standard.deep_view(),
            queue_mad_scientist: self.matchmaking_queue_mad_scientist.deep_view(),
            active_matches: keyed_map(match_entries(self.active_matches@)),
        }
    }
}

/// What a text result is as the rules see it.
pub open spec fn text_result(r: Result<ChessGame, String>) -> Result<GameRecord, Seq<char>> {
    match r {
        Ok(g) => Ok(g@),
        Err(e) => Err(e@),
    }
}

/// What `join_game` does: an unknown id is refused, otherwise the seat rule
/// decides, and the changed game is stored and returned.
pub open spec fn join_game_spec(m: ManagerView, id: Seq<char>, player: Seq<char>, role: Seq<char>) -> (
    ManagerView,
    Result<GameRecord, Seq<char>>,
) {
    if !m.games.dom().contains(id) {
        (m, Err("Game not found"@))
    } else {
        match seat_join(m.games[id], player, role) {
            Ok(h) => (ManagerView { games: m.games.insert(id, h), ..m }, Ok(h)),
            Err(e) => (m, Err(e)),
        }
    }
}

/// What `create_game` does with the fresh id `id`: a waiting game of the
/// variant, with no players.
pub open spec fn create_game_spec(m: ManagerView, id: Seq<char>, variant: Seq<char>) -> ManagerView {
    ManagerView {
        games: m.games.insert(id, fresh_record(id, variant, None, None, "waiting"@)),
        ..m
    }
}

/// The game a player was matched into, if any.
pub open spec fn match_of(m: ManagerView, player: Seq<char>) -> Option<Seq<char>> {
    if m.active_matches.dom().contains(player) {
        Some(m.active_matches[player])
    } else {
        None
    }
}

/// The game stored under `id`, if any.
pub open spec fn game_of(m: ManagerView, id: Seq<char>) -> Option<GameRecord> {
    if m.games.dom().contains(id) {
        Some(m.games[id])
    } else {
        None
    }
}

/// What `cancel_matchmaking` does: the player leaves both queues and forgets
/// its match.
pub open spec fn cancel_spec(m: ManagerView, player: Seq<char>) -> ManagerView {
    ManagerView {
        queue_standard: if m.queue_standard == Some(player) {
            None
        } else {
            m.queue_standard
        },
        queue_mad_scientist: if m.queue_mad_scientist == Some(player) {
            None
        } else {
            m.queue_mad_scientist
        },
        active_matches: m.active_matches.remove(player),
        ..m
    }
}

/// What `join_matchmaking` does, `id` being the fresh id a new game gets.
/// The player first forgets an old match. If the queue of the variant
/// (`mad_scientist`, else standard) holds someone else, the two are paired:
/// the queue empties, an active game starts with the waiting player as White
/// and the new one as Black, both are matched into it, and its id is
/// returned. If the queue holds the player already, nothing more happens.
/// If it is empty, the player waits in it.
pub open spec fn matchmaking_spec(m: ManagerView, player: Seq<char>, variant: Seq<char>, id: Seq<
    char,
>) -> (ManagerView, Option<Seq<char>>) {
    let m1 = ManagerView { active_matches: m.active_matches.remove(player), ..m };
    let mad = variant == "mad_scientist"@;
    let queue = if mad {
        m.queue_mad_scientist
    } else {
        m.queue_standard
    };
    match queue {
        Some(other) => if other == player {
            (m1, None)
        } else {
            let g = fresh_record(id, variant, Some(other), Some(player), "active"@);
            let m2 = ManagerView {
                games: m1.games.insert(id, g),
                active_matches: m1.active_matches.insert(other, id).insert(player, id),
                ..m1
            };
            if mad {
                (ManagerView { queue_mad_scientist: None, ..m2 }, Some(id))
            } else {
                (ManagerView { queue_standard: None, ..m2 }, Some(id))
            }
        },
        None => if mad {
            (ManagerView { queue_mad_scientist: Some(player), ..m1 }, None)
        } else {
            (ManagerView { queue_standard: Some(player), ..m1 }, None)
        },
    }
}

impl GameManager {
    /// The table invariant: game ids and matched players are unique.
    pub open spec fn wf(&self) -> bool {
        &&& unique_keys(game_entries(self.games@))
        &&& unique_keys(match_entries(self.active_matches@))
    }

    /// An empty manager: no games, empty queues, no matches.
    pub fn new() -> (r: Self)
        ensures
            r.wf(),
            r@.games == Map::<Seq<char>, GameRecord>::empty(),
            r@.queue_standard is None,
            r@.queue_mad_scientist is None,
            r@.active_matches == Map::<Seq<char>, Seq<char>>::empty(),
    {
        let r = GameManager {
            games: Vec::new(),
            matchmaking_queue_standard: None,
            matchmaking_queue_mad_scientist: None,
            active_matches: Vec::new(),
        };
        assert(r@.games =~= Map::<Seq<char>, GameRecord>::empty());
        assert(r@.active_matches =~= Map::<Seq<char>, Seq<char>>::empty());
        r
    }

    /// The index of the game with id `id`.
    pub(crate) fn find_game_index(&self, id: &str) -> (r: Option<usize>)
        ensures
            match r {
                Some(i) => i < self.games.len() && self.games[i as int].id@ == id@,
                None => !has_key(game_entries(self.games@), id@),
            },
    {
        let mut i: usize = 0;
        while i < self.games.len()
            invariant
                i <= self.games.len(),
                forall|j: int| 0 <= j < i ==> self.games[j].id@ != id@,
            decreases self.games.len() - i,
        {
            if str_equal(self.games[i].id.as_str(), id) {
                return Some(i);
            }
            i = i + 1;
        }
        assert forall|j: int| 0 <= j < self.games.len() implies #[trigger] game_entries(
            self.games@,
        )[j].0 != id@ by {}
        None
    }

    /// The index of the match of `player`.
    fn find_match(&self, player: &str) -> (r: Option<usize>)
        ensures
            match r {
                Some(i) => i < self.active_matches.len() && self.active_matches[i as int].0@
                    == player@,
                None => !has_key(match_entries(self.active_matches@), player@),
            },
    {
        let mut i: usize = 0;
        while i < self.active_matches.len()
            invariant
                i <= self.active_matches.len(),
                forall|j: int| 0 <= j < i ==> self.active_matches[j].0@ != player@,
            decreases self.active_matches.len() - i,
        {
            if str_equal(self.active_matches[i].0.as_str(), player) {
                return Some(i);
            }
            i = i + 1;
        }
        assert forall|j: int| 0 <= j < self.active_matches.len() implies #[trigger] match_entries(
            self.active_matches@,
        )[j].0 != player@ by {}
        None
    }

    /// Stores `g` under its id, replacing a game with the same id.
    pub(crate) fn store_game(&mut self, g: ChessGame)
        requires
            old(self).wf(),
        ensures
            final(self).wf(),
            final(self)@ == (ManagerView { games: old(self)@.games.insert(g.id@, g@), ..old(self)@ }),
    {
        let ghost k = g.id@;
        let ghost v = g@;
        match self.find_game_index(g.id.as_str()) {
            Some(i) => {
                proof {
                    assert(game_entries(self.games@)[i as int].0 == k);
                    lemma_keyed_update(game_entries(self.games@), i as int, v);
                    assert(game_entries(self.games@.update(i as int, g)) =~= game_entries(
                        self.games@,
                    ).update(i as int, (k, v)));
                }
                self.games.set(i, g);
            },
            None => {
                proof {
                    lemma_keyed_push(game_entries(self.games@), k, v);
                    assert(game_entries(self.games@.push(g)) =~= game_entries(self.games@).push(
                        (k, v),
                    ));
                }
                self.games.push(g);
            },
        }
    }

    /// Records that `player` is matched into game `id`.
    fn put_match(&mut self, player: String, id: String)
        requires
            old(self).wf(),
        ensures
            final(self).wf(),
            final(self)@ == (ManagerView {
                active_matches: old(self)@.active_matches.insert(player@, id@),
                ..old(self)@
            }),
    {
        let ghost k = player@;
        let ghost v = id@;
        match self.find_match(player.as_str()) {
            Some(i) => {
                proof {
                    lemma_keyed_update(match_entries(self.active_matches@), i as int, v);
                    assert(match_entries(self.active_matches@.update(i as int, (player, id)))
                        =~= match_entries(self.active_matches@).update(i as int, (k, v)));
                }
                self.active_matches.set(i, (player, id));
            },
            None => {
                proof {
                    lemma_keyed_push(match_entries(self.active_matches@), k, v);
                    assert(match_entries(self.active_matches@.push((player, id))) =~= match_entries(
                        self.active_matches@,
                    ).push((k, v)));
                }
                self.active_matches.push((player, id));
            },
        }
    }

    /// Forgets the match of `player`.
    fn drop_match(&mut self, player: &str)
        requires
            old(self).wf(),
        ensures
            final(self).wf(),
            final(self)@ == (ManagerView {
                active_matches: old(self)@.active_matches.remove(player@),
                ..old(self)@
            }),
    {
        match self.find_match(player) {
            Some(i) => {
                proof {
                    lemma_keyed_remove(match_entries(self.active_matches@), i as int);
                    assert(match_entries(self.active_matches@.remove(i as int)) =~= match_entries(
                        self.active_matches@,
                    ).remove(i as int));
                }
                self.active_matches.remove(i);
            },
            None => {
                assert(self@.active_matches.remove(player@) =~= self@.active_matches);
            },
        }
    }

    /// The game stored under `id`, copied out.
    pub fn get_game(&self, id: &str) -> (r: Option<ChessGame>)
        requires
            self.wf(),
        ensures
            match r {
                Some(g) => game_of(self@, id@) == Some(g@),
                None => game_of(self@, id@) is None,
            },
    {
        match self.find_game_index(id) {
            Some(i) => {
                proof {
                    lemma_keyed_at(game_entries(self.games@), i as int);
                }
                Some(self.games[i].clone())
            },
            None => None,
        }
    }

    /// The game `player` was matched into, if any.
    pub fn check_matchmaking(&self, player_id: &str) -> (r: Option<String>)
        requires
            self.wf(),
        ensures
            r.deep_view() == match_of(self@, player_id@),
    {
        match self.find_match(player_id) {
            Some(i) => {
                proof {
                    lemma_keyed_at(match_entries(self.active_matches@), i as int);
                }
                Some(self.active_matches[i].1.clone())
            },
            None => None,
        }
    }

    /// Takes `player_id` out of both matchmaking queues and forgets its match.
    pub fn cancel_matchmaking(&mut self, player_id: &str)
        requires
            old(self).wf(),
        ensures
            final(self).wf(),
            final(self)@ == cancel_spec(old(self)@, player_id@),
    {
        if holds(&self.matchmaking_queue_standard, player_id) {
            self.matchmaking_queue_standard = None;
        }
        if holds(&self.matchmaking_queue_mad_scientist, player_id) {
            self.matchmaking_queue_mad_scientist = None;
        }
        self.drop_match(player_id);
    }

    /// Opens a new game of `variant` under a fresh random id and returns the id.
    pub fn create_game(&mut self, variant: String) -> (r: String)
        requires
            old(self).wf(),
        ensures
            final(self).wf(),
            uuid_form(r@),
            final(self)@ == create_game_spec(old(self)@, r@, variant@),
            position_reads_back(final(self)@.games[r@]),
            positions_read_back(old(self)@) ==> positions_read_back(final(self)@),
    {
        let id = fresh_id();
        let starting_fen = board_to_fen(&start_board());
        let game = ChessGame {
            id: id.clone(),
            fen: starting_fen,
            white_player: None,
            black_player: None,
            status: String::from_str("waiting"),
            winner: None,
            moves: Vec::new(),
            variant,
            white_pocket: Vec::new(),
            black_pocket: Vec::new(),
        };
        assert(game@ =~= fresh_record(id@, game.variant@, None, None, "waiting"@));
        self.store_game(game);
        id
    }

    /// Seats `player_id` in game `id` by the seat rule (see `seat_join`) and
    /// returns the game as it now is.
    pub fn join_game(&mut self, id: &str, player_id: &str, role: &str) -> (r: Result<ChessGame, String>)
        requires
            old(self).wf(),
        ensures
            final(self).wf(),
            (final(self)@, text_result(r)) == join_game_spec(old(self)@, id@, player_id@, role@),
    {
        match self.find_game_index(id) {
            None => Err(String::from_str("Game not found")),
            Some(i) => {
                proof {
                    lemma_keyed_at(game_entries(self.games@), i as int);
                }
                let mut g = self.games[i].clone();
                match take_seat(&mut g, player_id, role) {
                    Err(e) => Err(e),
                    Ok(()) => {
                        let out = g.clone();
                        self.store_game(g);
                        Ok(out)
                    },
                }
            },
        }
    }

    /// Puts `player_id` in the matchmaking queue of `variant`, or pairs it
    /// with the player waiting there (see `matchmaking_spec`); returns the id
    /// of the new game when a pair is made.
    pub fn join_matchmaking(&mut self, player_id: &str, variant: &str) -> (r: Option<String>)
        requires
            old(self).wf(),
        ensures
            final(self).wf(),
            r matches Some(id) ==> uuid_form(id@),
            r matches Some(id) ==> position_reads_back(final(self)@.games[id@]),
            positions_read_back(old(self)@) ==> positions_read_back(final(self)@),
            (final(self)@, r.deep_view()) == matchmaking_spec(
                old(self)@,
                player_id@,
                variant@,
                match r {
                    Some(id) => id@,
                    None => Seq::empty(),
                },
            ),
    {
        self.drop_match(player_id);
        let mad = str_equal(variant, "mad_scientist");
        let queued = if mad {
            copy_opt(&self.matchmaking_queue_mad_scientist)
        } else {
            copy_opt(&self.matchmaking_queue_standard)
        };
        match queued {
            Some(other) => {
                if str_equal(other.as_str(), player_id) {
                    return None;
                }
                if mad {
                    self.matchmaking_queue_mad_scientist = None;
                } else {
                    self.matchmaking_queue_standard = None;
                }
                let game_id = fresh_id();
                let starting_fen = board_to_fen(&start_board());
                let game = ChessGame {
                    id: game_id.clone(),
                    fen: starting_fen,
                    white_player: Some(other.clone()),
                    black_player: Some(String::from_str(player_id)),
                    status: String::from_str("active"),
                    winner: None,
                    moves: Vec::new(),
                    variant: String::from_str(variant),
                    white_pocket: Vec::new(),
                    black_pocket: Vec::new(),
                };
                assert(game@ =~= fresh_record(
                    game_id@,
                    variant@,
                    Some(other@),
                    Some(player_id@),
                    "active"@,
                ));
                self.store_game(game);
                self.put_match(other, game_id.clone());
                self.put_match(String::from_str(player_id), game_id.clone());
                Some(game_id)
            },
            None => {
                if mad {
                    self.matchmaking_queue_mad_scientist = Some(String::from_str(player_id));
                } else {
                    self.matchmaking_queue_standard = Some(String::from_str(player_id));
                }
                None
            },
        }
    }

    /// Opens a game for `player_id` from the lobby: the variant asked for
    /// (`standard` when none is), with the player seated as White. Returns
    /// the new game's id.
    pub fn open_game_for(&mut self, variant: Option<String>, player_id: &str) -> (r: String)
        requires
            old(self).wf(),
        ensures
            final(self).wf(),
            uuid_form(r@),
            positions_read_back(old(self)@) ==> positions_read_back(final(self)@),
            final(self)@ == join_game_spec(
                create_game_spec(old(self)@, r@, requested_variant(variant.deep_view())),
                r@,
                player_id@,
                "white"@,
            ).0,
    {
        let id = self.create_game(variant_or_standard(variant));
        let _ = self.join_game(id.as_str(), player_id, "white");
        id
    }
}

/// The variant a request asks for: the one named, or `standard`.
pub open spec fn requested_variant(v: Option<Seq<char>>) -> Seq<char> {
    match v {
        Some(x) => x,
        None => "standard"@,
    }
}

/// The variant a request asks for, `standard` when it names none.
pub fn variant_or_standard(v: Option<String>) -> (r: String)
    ensures
        r@ == requested_variant(v.deep_view()),
{
    match v {
        Some(x) => x,
        None => String::from_str("standard"),
    }
}

} // verus!
