//! What the rules of the game and the decisions of the server guarantee,
//! proved over the mathematical views of state, events and messages.

use vstd::prelude::*;
use crate::event::GameEventView;
use crate::player::{PlayerId, PlayerView};
use crate::server::{
    after_connect, after_message, begins_game, connect_broadcasts, joined, message_broadcasts,
    outcome_of, Outcome, OutgoingView,
};
use crate::state::{GameStateView, Stage};

verus! {

/// A game begins only once: as soon as the stage is no longer `PreGame`, no
/// `BeginGame` event is legal, whoever is to go first.
pub proof fn begin_game_needs_pre_game(state: GameStateView, goes_first: PlayerId)
    requires
        state.stage != Stage::PreGame,
    ensures
        !state.validate(GameEventView::BeginGame { goes_first }),
{
}

/// An illegal event is never applied: the server rejects it, leaves the state
/// as it is and sends nothing.
pub proof fn illegal_event_is_dropped(state: GameStateView, event: GameEventView)
    requires
        !state.validate(event),
    ensures
        outcome_of(state, event) == Outcome::Rejected,
        after_message(state, event) == state,
        message_broadcasts(state, event) == Seq::<OutgoingView>::empty(),
{
}

/// Once a player has joined under an identifier, joining under the same
/// identifier again is illegal, whoever the second player is.
pub proof fn second_join_is_illegal(
    state: GameStateView,
    player_id: PlayerId,
    first: PlayerView,
    second: PlayerView,
)
    ensures
        !state.trigger(joined(player_id, first)).validate(joined(player_id, second)),
{
}

/// A legal attack hands the turn to the defender, whatever the attack does
/// to the defender's health.
pub proof fn attack_passes_turn(state: GameStateView, player_id: PlayerId, enemy_id: PlayerId)
    requires
        state.validate(GameEventView::PlayerAttack { player_id, enemy_id }),
    ensures
        ({
            let after = state.trigger(GameEventView::PlayerAttack { player_id, enemy_id });
            after.active_player_id == enemy_id && after.knows(after.active_player_id)
        }),
{
}

/// A legal attack takes the attacker's attack minus the defender's defense
/// from the defender's health: it hurts where the attack is the greater and
/// heals where the defense is. Nothing else about any player changes, and
/// nobody joins or leaves.
pub proof fn attack_costs_attack_minus_defense(
    state: GameStateView,
    player_id: PlayerId,
    enemy_id: PlayerId,
)
    requires
        state.validate(GameEventView::PlayerAttack { player_id, enemy_id }),
    ensures
        ({
            let after = state.trigger(GameEventView::PlayerAttack { player_id, enemy_id });
            let attacker = state.players[player_id];
            let defender = state.players[enemy_id];
            &&& after.players.dom() == state.players.dom()
            &&& after.players[enemy_id].base_stats.health == defender.base_stats.health - (
            attacker.base_stats.attack - defender.base_stats.defense)
            &&& after.players[enemy_id].base_stats.attack == defender.base_stats.attack
            &&& after.players[enemy_id].base_stats.defense == defender.base_stats.defense
            &&& after.players[enemy_id].name == defender.name
            &&& after.players[enemy_id].player_type == defender.player_type
            &&& forall|other: PlayerId|
                state.knows(other) && other != enemy_id ==> after.players[other]
                    == state.players[other]
            &&& after.stage == state.stage
        }),
{
    let after = state.trigger(GameEventView::PlayerAttack { player_id, enemy_id });
    assert(after.players.dom() =~= state.players.dom());
}

/// Where exactly two players have joined, of whom one is defeated and the
/// other is not, the other is the winner, and nobody else is.
pub proof fn survivor_wins(state: GameStateView, loser: PlayerId, winner: PlayerId)
    requires
        state.decided_between(loser, winner),
    ensures
        state.has_winner(),
        state.winner() == winner,
        forall|id: PlayerId| state.is_won_by(id) <==> id == winner,
{
    assert(state.is_won_by(winner));
    state.winner_is_unique(winner);
    assert forall|id: PlayerId| state.is_won_by(id) implies id == winner by {
        state.winner_is_unique(id);
    }
}

/// A connection begins the game exactly when it brings the number of players
/// to two. So the game begins with the second player, and does not begin
/// again when a third or a later one joins: such a join leaves the stage and
/// the turn as they are and is announced by the join event alone.
pub proof fn game_begins_with_second_player(
    state: GameStateView,
    client_id: PlayerId,
    player: PlayerView,
)
    requires
        state.wf(),
        !state.knows(client_id),
    ensures
        begins_game(state, client_id) <==> state.players.len() == 1,
        state.players.len() != 1 ==> {
            &&& after_connect(state, client_id, player).stage == state.stage
            &&& after_connect(state, client_id, player).active_player_id
                == state.active_player_id
            &&& connect_broadcasts(state, client_id, player) == seq![
                OutgoingView::Broadcast { event: joined(client_id, player) },
            ]
        },
        state.players.len() == 1 ==> {
            &&& after_connect(state, client_id, player).stage == Stage::InGame
            &&& after_connect(state, client_id, player).active_player_id == client_id
        },
{
}

} // verus!
