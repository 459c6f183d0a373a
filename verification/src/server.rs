//! The decisions of the authoritative server: what a connection, a
//! disconnection or an inbound event does to the game, and which messages go
//! out in response. Polling the transport and sending are left to the caller.

use vstd::prelude::*;
use vstd::std_specs::hash::*;
use crate::event::{EndGameReason, GameEvent, GameEventView};
use crate::player::{Player, PlayerId, PlayerView};
use crate::state::{GameState, GameStateView};

verus! {

/// A message that the server sends in response to an input.
#[derive(Debug, PartialEq)]
pub enum Outgoing {
    /// An event for one client only.
    Send { client_id: PlayerId, event: GameEvent },
    /// An event for every connected client.
    Broadcast { event: GameEvent },
}

/// An outgoing message as a mathematical value.
pub enum OutgoingView {
    Send { client_id: PlayerId, event: GameEventView },
    Broadcast { event: GameEventView },
}

impl View for Outgoing {
    type V = OutgoingView;

    open spec fn view(&self) -> OutgoingView {
        match *self {
            Outgoing::Send { client_id, event } => OutgoingView::Send { client_id, event: event@ },
            Outgoing::Broadcast { event } => OutgoingView::Broadcast { event: event@ },
        }
    }
}

/// The messages of `outgoing`, each as a mathematical value.
pub open spec fn views(outgoing: Seq<Outgoing>) -> Seq<OutgoingView> {
    outgoing.map_values(|message: Outgoing| message@)
}

/// Why the server cannot go on.
#[derive(Debug, Clone, Copy, PartialEq, Eq, Structural)]
pub enum Fault {
    /// A legal attack whose arithmetic does not fit 64-bit signed integers.
    Overflow,
    /// After an attack somebody is defeated, but it is not the case that
    /// exactly two players have joined of whom exactly one is defeated.
    NoClearWinner,
}

/// What became of an inbound event.
#[derive(Debug, Clone, Copy, PartialEq, Eq, Structural)]
pub enum Outcome {
    /// The event was legal and has been applied.
    Applied,
    /// The event was illegal and has been dropped.
    Rejected,
    /// The server has to stop.
    Halted(Fault),
}

/// The server's answer to an inbound event.
#[derive(Debug, PartialEq)]
pub struct Reaction {
    pub outcome: Outcome,
    pub outgoing: Vec<Outgoing>,
}

/// The event that announces that `player` joined under `player_id`.
pub open spec fn joined(player_id: PlayerId, player: PlayerView) -> GameEventView {
    GameEventView::PlayerJoined { player_id, player }
}

/// The event that ends a game because `player_id` gave up.
pub open spec fn surrendered(player_id: PlayerId) -> GameEventView {
    GameEventView::EndGame { reason: EndGameReason::PlayerSurrender { player_id } }
}

/// The event that ends a game because `winner` won.
pub open spec fn won(winner: PlayerId) -> GameEventView {
    GameEventView::EndGame { reason: EndGameReason::PlayerWon { winner } }
}

/// Whether `ids` lists the joined players of `state`, each once.
pub open spec fn is_roll_call(state: GameStateView, ids: Seq<PlayerId>) -> bool {
    &&& ids.no_duplicates()
    &&& forall|id: PlayerId| ids.contains(id) <==> state.knows(id)
}

/// The messages that bring the client `to` up to date: one join event for
/// each player of `ids`, in that order.
pub open spec fn replay(state: GameStateView, to: PlayerId, ids: Seq<PlayerId>) -> Seq<
    OutgoingView,
> {
    Seq::new(
        ids.len(),
        |i: int| OutgoingView::Send { client_id: to, event: joined(ids[i], state.players[ids[i]]) },
    )
}

/// Whether the connection of `client_id` starts the game: whether it brings
/// the number of players to exactly two.
pub open spec fn begins_game(state: GameStateView, client_id: PlayerId) -> bool {
    state.players.dom().insert(client_id).len() == 2
}

/// The state after `player` connected as `client_id`.
pub open spec fn after_connect(
    state: GameStateView,
    client_id: PlayerId,
    player: PlayerView,
) -> GameStateView {
    let with_player = state.trigger(joined(client_id, player));
    if begins_game(state, client_id) {
        with_player.trigger(GameEventView::BeginGame { goes_first: client_id })
    } else {
        with_player
    }
}

/// What every client is told when `player` connected as `client_id`.
pub open spec fn connect_broadcasts(
    state: GameStateView,
    client_id: PlayerId,
    player: PlayerView,
) -> Seq<OutgoingView> {
    let join = OutgoingView::Broadcast { event: joined(client_id, player) };
    if begins_game(state, client_id) {
        seq![
            join,
            OutgoingView::Broadcast { event: GameEventView::BeginGame { goes_first: client_id } },
        ]
    } else {
        seq![join]
    }
}

/// The join events that bring a newly connected client up to date, one for
/// each player of `state`, in no particular order.
pub fn replay_players(state: &GameState, client_id: PlayerId) -> (outgoing: Vec<Outgoing>)
    ensures
        exists|ids: Seq<PlayerId>|
            is_roll_call(state@, ids) && views(outgoing@) == #[trigger] replay(
                state@,
                client_id,
                ids,
            ),
{
    broadcast use group_hash_axioms;

    let ids = state.player_ids();
    let mut outgoing: Vec<Outgoing> = Vec::new();
    let mut i: usize = 0;
    while i < ids.len()
        invariant
            i <= ids.len(),
            is_roll_call(state@, ids@),
            outgoing@.len() == i,
            forall|j: int|
                0 <= j < i ==> (#[trigger] outgoing@[j])@ == replay(state@, client_id, ids@)[j],
        decreases ids.len() - i,
    {
        let player_id = ids[i];
        assert(ids@.contains(player_id));
        if let Some(player) = state.players.get(&player_id) {
            outgoing.push(
                Outgoing::Send {
                    client_id,
                    event: GameEvent::PlayerJoined { player_id, player: player.clone() },
                },
            );
        }
        i += 1;
    }
    assert(views(outgoing@) =~= replay(state@, client_id, ids@));
    outgoing
}

/// Handles a new connection: brings the newcomer up to date, adds it to the
/// game and announces it, and begins the game with the newcomer going first
/// if it is the second player.
pub fn on_connect(state: &mut GameState, client_id: PlayerId, player: Player) -> (outgoing: Vec<
    Outgoing,
>)
    ensures
        final(state)@ == after_connect(old(state)@, client_id, player@),
        exists|ids: Seq<PlayerId>|
            is_roll_call(old(state)@, ids) && views(outgoing@) == #[trigger] replay(
                old(state)@,
                client_id,
                ids,
            ) + connect_broadcasts(old(state)@, client_id, player@),
{
    broadcast use group_hash_axioms;

    let mut outgoing = replay_players(state, client_id);
    let ghost ids = choose|ids: Seq<PlayerId>|
        is_roll_call(state@, ids) && views(outgoing@) == #[trigger] replay(state@, client_id, ids);
    let ghost replayed = outgoing@;

    let event = GameEvent::PlayerJoined { player_id: client_id, player };
    state.trigger(&event);
    outgoing.push(Outgoing::Broadcast { event });

    assert(state@.players.dom() =~= old(state)@.players.dom().insert(client_id));
    assert(state@.players.dom() =~= state.players@.dom());
    if state.players.len() == 2 {
        let event = GameEvent::BeginGame { goes_first: client_id };
        state.trigger(&event);
        outgoing.push(Outgoing::Broadcast { event });
    }
    assert(views(outgoing@) =~= views(replayed) + connect_broadcasts(
        old(state)@,
        client_id,
        player@,
    ));
    outgoing
}

/// The state after the client `client_id` went away: the player is removed
/// and the game is over, whatever its stage was.
pub open spec fn after_disconnect(state: GameStateView, client_id: PlayerId) -> GameStateView {
    state.trigger(GameEventView::PlayerDisconnected { player_id: client_id }).trigger(
        surrendered(client_id),
    )
}

/// What every client is told when the client `client_id` went away.
pub open spec fn disconnect_broadcasts(client_id: PlayerId) -> Seq<OutgoingView> {
    seq![
        OutgoingView::Broadcast {
            event: GameEventView::PlayerDisconnected { player_id: client_id },
        },
        OutgoingView::Broadcast { event: surrendered(client_id) },
    ]
}

/// Handles a lost connection: removes the player and ends the game, the
/// departed player counting as having surrendered. Neither event is
/// validated.
pub fn on_disconnect(state: &mut GameState, client_id: PlayerId) -> (outgoing: Vec<Outgoing>)
    ensures
        final(state)@ == after_disconnect(old(state)@, client_id),
        views(outgoing@) == disconnect_broadcasts(client_id),
{
    let mut outgoing: Vec<Outgoing> = Vec::new();

    let event = GameEvent::PlayerDisconnected { player_id: client_id };
    state.trigger(&event);
    outgoing.push(Outgoing::Broadcast { event });

    let event = GameEvent::EndGame {
        reason: EndGameReason::PlayerSurrender { player_id: client_id },
    };
    state.trigger(&event);
    outgoing.push(Outgoing::Broadcast { event });

    assert(views(outgoing@) =~= disconnect_broadcasts(client_id));
    outgoing
}

/// Whether the inbound `event` is applied to `state`: whether it is legal and
/// can be computed.
pub open spec fn accepts(state: GameStateView, event: GameEventView) -> bool {
    state.validate(event) && state.can_apply(event)
}

/// Whether the inbound `event` is an attack that is applied to `state` and
/// leaves the game with a winner.
pub open spec fn attack_wins(state: GameStateView, event: GameEventView) -> bool {
    event is PlayerAttack && accepts(state, event) && state.trigger(event).has_winner()
}

/// What an inbound `event` comes to in `state`.
///
/// An illegal event is rejected. A legal one is applied, unless it is an
/// attack that overflows. After an attack the players are looked over: if
/// nobody is defeated the game goes on, if the game has a winner it ends,
/// and otherwise the server halts.
pub open spec fn outcome_of(state: GameStateView, event: GameEventView) -> Outcome {
    if !state.validate(event) {
        Outcome::Rejected
    } else if !state.can_apply(event) {
        Outcome::Halted(Fault::Overflow)
    } else if event is PlayerAttack && state.trigger(event).someone_defeated()
        && !state.trigger(event).has_winner() {
        Outcome::Halted(Fault::NoClearWinner)
    } else {
        Outcome::Applied
    }
}

/// The state after the server has dealt with an inbound `event`.
pub open spec fn after_message(state: GameStateView, event: GameEventView) -> GameStateView {
    if !accepts(state, event) {
        state
    } else if attack_wins(state, event) {
        state.trigger(event).trigger(won(state.trigger(event).winner()))
    } else {
        state.trigger(event)
    }
}

/// What every client is told after the server has dealt with an inbound
/// `event`.
pub open spec fn message_broadcasts(state: GameStateView, event: GameEventView) -> Seq<
    OutgoingView,
> {
    if !accepts(state, event) {
        seq![]
    } else if attack_wins(state, event) {
        seq![
            OutgoingView::Broadcast { event },
            OutgoingView::Broadcast { event: won(state.trigger(event).winner()) },
        ]
    } else {
        seq![OutgoingView::Broadcast { event }]
    }
}

/// Handles an event that a client sent.
///
/// An illegal event changes nothing and sends nothing. A legal event is
/// applied and broadcast. After an attack, a game that has a winner is ended
/// with that winner, and the end is broadcast too.
pub fn on_message(state: &mut GameState, event: &GameEvent) -> (reaction: Reaction)
    ensures
        reaction.outcome == outcome_of(old(state)@, event@),
        final(state)@ == after_message(old(state)@, event@),
        views(reaction.outgoing@) == message_broadcasts(old(state)@, event@),
{
    let mut outgoing: Vec<Outgoing> = Vec::new();
    if !state.validate(event) {
        assert(views(outgoing@) =~= seq![]);
        return Reaction { outcome: Outcome::Rejected, outgoing };
    }
    if !state.can_trigger(event) {
        assert(views(outgoing@) =~= seq![]);
        return Reaction { outcome: Outcome::Halted(Fault::Overflow), outgoing };
    }
    state.trigger(event);
    outgoing.push(Outgoing::Broadcast { event: event.clone() });
    assert(views(outgoing@) =~= seq![OutgoingView::Broadcast { event: event@ }]);

    let mut outcome = Outcome::Applied;
    if let GameEvent::PlayerAttack { player_id: _, enemy_id: _ } = event {
        if state.find_defeated().is_some() {
            if state.has_winner() {
                if let Some(winner) = state.determine_winner() {
                    let end = GameEvent::EndGame { reason: EndGameReason::PlayerWon { winner } };
                    state.trigger(&end);
                    outgoing.push(Outgoing::Broadcast { event: end });
                    assert(views(outgoing@) =~= message_broadcasts(old(state)@, event@));
                }
            } else {
                outcome = Outcome::Halted(Fault::NoClearWinner);
            }
        } else {
            assert(!state@.has_winner()) by {
                if state@.has_winner() {
                    let winner = state@.winner();
                    let loser = choose|loser: PlayerId| state@.decided_between(loser, winner);
                    assert(state@.is_defeated(loser));
                }
            }
        }
    }
    Reaction { outcome, outgoing }
}

} // verus!
