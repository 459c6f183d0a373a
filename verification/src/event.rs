//! The closed vocabulary of facts that can change the state of a game.

use vstd::prelude::*;
use crate::player::{Player, PlayerId, PlayerView};

verus! {

/// Why a game came to an end.
#[derive(Debug, Clone, Copy, PartialEq, Eq, Structural)]
pub enum EndGameReason {
    PlayerSurrender { player_id: PlayerId },
    PlayerWon { winner: PlayerId },
}

/// A fact that changes the state of a game.
#[derive(Debug, PartialEq)]
pub enum GameEvent {
    BeginGame { goes_first: PlayerId },
    EndGame { reason: EndGameReason },
    PlayerJoined { player_id: PlayerId, player: Player },
    PlayerDisconnected { player_id: PlayerId },
    PlayerAttack { player_id: PlayerId, enemy_id: PlayerId },
}

/// A game event as a mathematical value.
pub enum GameEventView {
    BeginGame { goes_first: PlayerId },
    EndGame { reason: EndGameReason },
    PlayerJoined { player_id: PlayerId, player: PlayerView },
    PlayerDisconnected { player_id: PlayerId },
    PlayerAttack { player_id: PlayerId, enemy_id: PlayerId },
}

impl View for GameEvent {
    type V = GameEventView;

    open spec fn view(&self) -> GameEventView {
        match *self {
            GameEvent::BeginGame { goes_first } => GameEventView::BeginGame { goes_first },
            GameEvent::EndGame { reason } => GameEventView::EndGame { reason },
            GameEvent::PlayerJoined { player_id, player } => GameEventView::PlayerJoined {
                player_id,
                player: player@,
            },
            GameEvent::PlayerDisconnected { player_id } => GameEventView::PlayerDisconnected {
                player_id,
            },
            GameEvent::PlayerAttack { player_id, enemy_id } => GameEventView::PlayerAttack {
                player_id,
                enemy_id,
            },
        }
    }
}

impl Clone for GameEvent {
    fn clone(&self) -> (copy: Self)
        ensures
            copy == *self,
    {
        match self {
            GameEvent::BeginGame { goes_first } => GameEvent::BeginGame { goes_first: *goes_first },
            GameEvent::EndGame { reason } => GameEvent::EndGame { reason: *reason },
            GameEvent::PlayerJoined { player_id, player } => GameEvent::PlayerJoined {
                player_id: *player_id,
                player: player.clone(),
            },
            GameEvent::PlayerDisconnected { player_id } => GameEvent::PlayerDisconnected {
                player_id: *player_id,
            },
            GameEvent::PlayerAttack { player_id, enemy_id } => GameEvent::PlayerAttack {
                player_id: *player_id,
                enemy_id: *enemy_id,
            },
        }
    }
}

} // verus!
