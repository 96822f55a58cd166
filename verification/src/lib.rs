//! A verified model of a two-player chess server: the game records, the
//! seat rules, the matchmaking queues, the move and pocket-drop rules of the
//! "Mad Scientist" variant, and the decisions behind the rendered views.

pub mod pieces;

pub mod text;
pub mod engine;
pub mod fen;
pub mod registry;
pub mod game;
pub mod play;
pub mod laws;
pub mod views;
pub mod signals;
