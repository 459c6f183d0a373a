//! Event-sourced state machine of a two-player, turn-based battle game.
//!
//! An authoritative server owns the state of the game. Clients send events;
//! the server validates each against the state, applies the legal ones and
//! tells every client, which applies the same events to its own copy.

pub mod event;
pub mod handshake;
pub mod laws;
pub mod player;
pub mod server;
pub mod state;

pub use crate::event::{EndGameReason, GameEvent};
pub use crate::player::{BaseStats, Player, PlayerId, PlayerType};
pub use crate::state::{GameState, Stage};
