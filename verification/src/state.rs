//! The authoritative snapshot of a game, the rule that decides which events
//! are legal against it, and the mutation that applies an event.

use std::collections::hash_map::Entry;
use std::collections::HashMap;
use vstd::prelude::*;
use vstd::std_specs::hash::*;
use vstd::std_specs::iter::IteratorSpec;
use crate::event::{EndGameReason, GameEvent, GameEventView};
use crate::player::{BaseStats, Player, PlayerId, PlayerType, PlayerView};

verus! {

/// The phase of a game. A game is meant to move forward only, from
/// `PreGame` to `InGame` to `Ended`.
#[derive(Debug, Clone, Copy, PartialEq, Eq, Hash, Structural)]
pub enum Stage {
    PreGame,
    InGame,
    Ended,
}

/// The authoritative state of a game.
///
/// `board` is for display only and `history` is reserved for a log of applied
/// events: neither the rules nor the mutation read or write them.
#[derive(Debug, Clone, PartialEq)]
pub struct GameState {
    pub stage: Stage,
    pub board: [PlayerType; 2],
    pub active_player_id: PlayerId,
    pub players: HashMap<PlayerId, Player>,
    pub history: Vec<GameEvent>,
}

/// The state of a game as a mathematical value.
#[verifier::ext_equal]
pub struct GameStateView {
    pub stage: Stage,
    pub board: Seq<PlayerType>,
    pub active_player_id: PlayerId,
    pub players: Map<PlayerId, PlayerView>,
    pub history: Seq<GameEventView>,
}

impl View for GameState {
    type V = GameStateView;

    open spec fn view(&self) -> GameStateView {
        GameStateView {
            stage: self.stage,
            board: self.board@,
            active_player_id: self.active_player_id,
            players: self.players@.map_values(|p: Player| p@),
            history: self.history@.map_values(|e: GameEvent| e@),
        }
    }
}

impl GameStateView {
    /// The state in which every game starts: before the game, nobody joined,
    /// nothing recorded.
    pub open spec fn initial() -> GameStateView {
        GameStateView {
            stage: Stage::PreGame,
            board: seq![PlayerType::Bot, PlayerType::Bot],
            active_player_id: 0,
            players: Map::empty(),
            history: Seq::empty(),
        }
    }

    /// Whether this value can be the view of a state: the board has its two
    /// slots and finitely many players have joined.
    pub open spec fn wf(self) -> bool {
        self.board.len() == 2 && self.players.dom().finite()
    }

    /// Whether `id` is the identifier of a joined player.
    pub open spec fn knows(self, id: PlayerId) -> bool {
        self.players.contains_key(id)
    }

    /// Whether `id` is a joined player whose health is at or below zero.
    pub open spec fn is_defeated(self, id: PlayerId) -> bool {
        self.knows(id) && self.players[id].is_defeated()
    }

    /// Whether some joined player is defeated.
    pub open spec fn someone_defeated(self) -> bool {
        exists|id: PlayerId| self.is_defeated(id)
    }

    /// Whether exactly two players have joined, `loser` and `winner`, of whom
    /// `loser` is defeated and `winner` is not.
    pub open spec fn decided_between(self, loser: PlayerId, winner: PlayerId) -> bool {
        &&& loser != winner
        &&& self.knows(loser)
        &&& self.knows(winner)
        &&& forall|id: PlayerId| #[trigger] self.knows(id) ==> id == loser || id == winner
        &&& self.is_defeated(loser)
        &&& !self.is_defeated(winner)
    }

    /// Whether `winner` has won: the game is decided between it and another
    /// player.
    pub open spec fn is_won_by(self, winner: PlayerId) -> bool {
        exists|loser: PlayerId| self.decided_between(loser, winner)
    }

    /// Whether the game has a winner.
    pub open spec fn has_winner(self) -> bool {
        exists|winner: PlayerId| self.is_won_by(winner)
    }

    /// The winner of a game that has one.
    pub open spec fn winner(self) -> PlayerId
        recommends
            self.has_winner(),
    {
        choose|winner: PlayerId| self.is_won_by(winner)
    }

    /// A game has at most one winner.
    pub proof fn winner_is_unique(self, winner: PlayerId)
        requires
            self.is_won_by(winner),
        ensures
            self.has_winner(),
            self.winner() == winner,
    {
        let other = self.winner();
        assert(self.is_won_by(other));
        let loser = choose|loser: PlayerId| self.decided_between(loser, winner);
        let other_loser = choose|loser: PlayerId| self.decided_between(loser, other);
        assert(self.knows(other));
    }

    /// Whether `event` is legal in this state.
    ///
    /// Nothing else is checked: a player may attack itself, attacks stay
    /// legal after the game has ended, and a game may begin with fewer than
    /// two players.
    pub open spec fn validate(self, event: GameEventView) -> bool {
        match event {
            GameEventView::BeginGame { goes_first } => {
                self.stage == Stage::PreGame && self.knows(goes_first)
            },
            GameEventView::EndGame { reason } => self.stage == Stage::InGame,
            GameEventView::PlayerJoined { player_id, player } => !self.knows(player_id),
            GameEventView::PlayerDisconnected { player_id } => self.knows(player_id),
            GameEventView::PlayerAttack { player_id, enemy_id } => {
                &&& self.knows(player_id)
                &&& self.knows(enemy_id)
                &&& self.active_player_id == player_id
            },
        }
    }

    /// Whether `event` can be applied at all: an attack needs both players
    /// to exist and its arithmetic to fit 64-bit signed integers. Every other
    /// event can always be applied.
    pub open spec fn can_apply(self, event: GameEventView) -> bool {
        match event {
            GameEventView::PlayerAttack { player_id, enemy_id } => {
                &&& self.knows(player_id)
                &&& self.knows(enemy_id)
                &&& self.players[enemy_id].base_stats.can_be_struck_by(
                    self.players[player_id].base_stats.attack,
                )
            },
            _ => true,
        }
    }

    /// The state after `event`, which is not validated again.
    ///
    /// An attack takes the attacker's attack minus the defender's defense
    /// from the defender's health, and hands the turn to the defender.
    pub open spec fn trigger(self, event: GameEventView) -> GameStateView {
        match event {
            GameEventView::BeginGame { goes_first } => GameStateView {
                active_player_id: goes_first,
                stage: Stage::InGame,
                ..self
            },
            GameEventView::EndGame { reason } => GameStateView { stage: Stage::Ended, ..self },
            GameEventView::PlayerJoined { player_id, player } => GameStateView {
                players: self.players.insert(player_id, player),
                ..self
            },
            GameEventView::PlayerDisconnected { player_id } => GameStateView {
                players: self.players.remove(player_id),
                ..self
            },
            GameEventView::PlayerAttack { player_id, enemy_id } => GameStateView {
                players: self.players.insert(
                    enemy_id,
                    self.players[enemy_id].struck_by(self.players[player_id].base_stats.attack),
                ),
                active_player_id: enemy_id,
                ..self
            },
        }
    }
}

impl Default for GameState {
    fn default() -> (state: Self)
        ensures
            state@ == GameStateView::initial(),
    {
        let state = GameState {
            stage: Stage::PreGame,
            board: [PlayerType::Bot, PlayerType::Bot],
            active_player_id: 0,
            players: HashMap::new(),
            history: Vec::new(),
        };
        state
    }
}

impl GameState {
    /// The view of every state is well-formed.
    pub proof fn view_is_wf(&self)
        ensures
            self@.wf(),
    {
        broadcast use group_hash_axioms;
        broadcast use vstd::array::array_len_matches_n;

        assert(self@.players.dom() =~= self.players@.dom());
    }

    /// Decides whether `event` is legal in this state. The state is not
    /// changed.
    pub fn validate(&self, event: &GameEvent) -> (legal: bool)
        ensures
            legal == self@.validate(event@),
    {
        broadcast use group_hash_axioms;

        match event {
            GameEvent::BeginGame { goes_first } => {
                self.stage == Stage::PreGame && self.players.contains_key(goes_first)
            },
            GameEvent::EndGame { reason } => match reason {
                EndGameReason::PlayerWon { winner: _ } => self.stage == Stage::InGame,
                EndGameReason::PlayerSurrender { player_id: _ } => self.stage == Stage::InGame,
            },
            GameEvent::PlayerJoined { player_id, player: _ } => !self.players.contains_key(
                player_id,
            ),
            GameEvent::PlayerDisconnected { player_id } => self.players.contains_key(player_id),
            GameEvent::PlayerAttack { player_id, enemy_id } => {
                self.players.contains_key(player_id) && self.players.contains_key(enemy_id)
                    && self.active_player_id == *player_id
            },
        }
    }

    /// The statistics of the player `player_id`, if that player has joined.
    pub fn get_player_stats(&self, player_id: &PlayerId) -> (stats: Option<BaseStats>)
        ensures
            match stats {
                Some(found) => {
                    &&& self@.knows(*player_id)
                    &&& found@ == self@.players[*player_id].base_stats
                },
                None => !self@.knows(*player_id),
            },
    {
        broadcast use group_hash_axioms;

        if let Some(player) = self.players.get(player_id) {
            return Some(player.base_stats);
        }
        None
    }

    /// Mutable access to the player `player_id`, if that player has joined.
    /// Whatever the caller writes through the reference replaces that player;
    /// nothing else changes.
    pub fn get_player(&mut self, player_id: &PlayerId) -> (found: Option<&mut Player>)
        ensures
            match found {
                Some(player) => {
                    &&& old(self)@.knows(*player_id)
                    &&& player@ == old(self)@.players[*player_id]
                    &&& final(self)@ == GameStateView {
                        players: old(self)@.players.insert(*player_id, final(player)@),
                        ..old(self)@
                    }
                },
                None => !old(self)@.knows(*player_id) && final(self)@ == old(self)@,
            },
    {
        broadcast use group_hash_axioms;

        match self.players.entry(*player_id) {
            Entry::Occupied(occupied) => Some(occupied.into_mut()),
            Entry::Vacant(_) => None,
        }
    }

    /// Decides whether `event` can be applied to this state: whether the
    /// players of an attack exist and its arithmetic fits. Legality is another
    /// question, answered by [`GameState::validate`].
    pub fn can_trigger(&self, event: &GameEvent) -> (ok: bool)
        ensures
            ok == self@.can_apply(event@),
    {
        match event {
            GameEvent::PlayerAttack { player_id, enemy_id } => {
                match (self.get_player_stats(player_id), self.get_player_stats(enemy_id)) {
                    (Some(attacker), Some(defender)) => defender.can_be_struck_by(attacker.attack),
                    _ => false,
                }
            },
            _ => true,
        }
    }

    /// Applies `valid_event` to the state without validating it again.
    ///
    /// `board` and `history` are left as they are.
    pub fn trigger(&mut self, valid_event: &GameEvent)
        requires
            old(self)@.can_apply(valid_event@),
        ensures
            final(self)@ == old(self)@.trigger(valid_event@),
    {
        broadcast use group_hash_axioms;

        match valid_event {
            GameEvent::BeginGame { goes_first } => {
                self.active_player_id = *goes_first;
                self.stage = Stage::InGame;
            },
            GameEvent::EndGame { reason: _ } => {
                self.stage = Stage::Ended;
            },
            GameEvent::PlayerJoined { player_id, player } => {
                self.players.insert(*player_id, player.clone());
            },
            GameEvent::PlayerDisconnected { player_id } => {
                self.players.remove(player_id);
            },
            GameEvent::PlayerAttack { player_id, enemy_id } => {
                let player_attack = self.get_player_stats(player_id).unwrap().attack;
                let enemy = self.get_player(enemy_id).unwrap();

                enemy.base_stats.health -= player_attack - enemy.base_stats.defense;

                self.active_player_id = *enemy_id;
            },
        }
    }

    /// The identifiers of all joined players, each once, in no particular
    /// order.
    pub fn player_ids(&self) -> (ids: Vec<PlayerId>)
        ensures
            ids@.no_duplicates(),
            forall|id: PlayerId| ids@.contains(id) <==> self@.knows(id),
    {
        broadcast use group_hash_axioms;

        let mut ids: Vec<PlayerId> = Vec::new();
        for id in it: self.players.keys()
            invariant
                ids@.len() == it.index(),
                forall|i: int| 0 <= i < ids@.len() ==> ids@[i] == *it.seq()[i],
        {
            ids.push(*id);
        }
        proof {
            let keys = spec_keys_iter(&self.players).remaining().unref();
            assert(ids@ =~= keys);
            assert forall|id: PlayerId| ids@.contains(id) <==> self@.knows(id) by {
                assert(keys.to_set().contains(id) <==> self.players@.dom().contains(id));
            }
        }
        ids
    }

    /// Some defeated player, if there is one.
    pub fn find_defeated(&self) -> (found: Option<PlayerId>)
        ensures
            match found {
                Some(id) => self@.is_defeated(id),
                None => !self@.someone_defeated(),
            },
    {
        let ids = self.player_ids();
        let mut i: usize = 0;
        while i < ids.len()
            invariant
                i <= ids.len(),
                forall|id: PlayerId| ids@.contains(id) <==> self@.knows(id),
                forall|j: int| 0 <= j < i ==> !self@.is_defeated(#[trigger] ids@[j]),
            decreases ids.len() - i,
        {
            let id = ids[i];
            assert(ids@.contains(id));
            if let Some(stats) = self.get_player_stats(&id) {
                if stats.health <= 0 {
                    return Some(id);
                }
            }
            i += 1;
        }
        None
    }

    /// Some joined player other than `id`, if there is one.
    fn find_other(&self, id: PlayerId) -> (found: Option<PlayerId>)
        ensures
            match found {
                Some(other) => self@.knows(other) && other != id,
                None => forall|other: PlayerId| #[trigger] self@.knows(other) ==> other == id,
            },
    {
        let ids = self.player_ids();
        let mut i: usize = 0;
        while i < ids.len()
            invariant
                i <= ids.len(),
                forall|other: PlayerId| ids@.contains(other) <==> self@.knows(other),
                forall|j: int| 0 <= j < i ==> #[trigger] ids@[j] == id,
            decreases ids.len() - i,
        {
            let other = ids[i];
            assert(ids@.contains(other));
            if other != id {
                return Some(other);
            }
            i += 1;
        }
        None
    }

    /// Decides whether the game has a winner: whether exactly two players
    /// have joined, of whom exactly one is defeated.
    pub fn has_winner(&self) -> (decided: bool)
        ensures
            decided == self@.has_winner(),
    {
        let ids = self.player_ids();
        if ids.len() != 2 {
            proof {
                if self@.has_winner() {
                    let winner = choose|winner: PlayerId| self@.is_won_by(winner);
                    let loser = choose|loser: PlayerId| self@.decided_between(loser, winner);
                    assert(ids@.contains(loser) && ids@.contains(winner));
                    if ids.len() > 2 {
                        assert(ids@.contains(ids@[0]) && ids@.contains(ids@[1]) && ids@.contains(
                            ids@[2],
                        ));
                    }
                }
            }
            return false;
        }
        let first = ids[0];
        let second = ids[1];
        assert(ids@.contains(first) && ids@.contains(second));
        assert forall|id: PlayerId| #[trigger] self@.knows(id) implies id == first || id
            == second by {
            assert(ids@.contains(id));
        }
        match (self.get_player_stats(&first), self.get_player_stats(&second)) {
            (Some(a), Some(b)) => {
                let decided = (a.health <= 0) != (b.health <= 0);
                proof {
                    if decided {
                        if a.health <= 0 {
                            assert(self@.decided_between(first, second));
                            assert(self@.is_won_by(second));
                        } else {
                            assert(self@.decided_between(second, first));
                            assert(self@.is_won_by(first));
                        }
                    }
                }
                decided
            },
            _ => false,
        }
    }

    /// The winner of a decided game: the one player who is not defeated.
    ///
    /// To be called once a result is due, that is, when exactly two players
    /// have joined and exactly one of them is defeated.
    pub fn determine_winner(&self) -> (winner: Option<PlayerId>)
        requires
            self@.has_winner(),
        ensures
            winner == Some(self@.winner()),
            self@.is_won_by(self@.winner()),
    {
        proof {
            let loser = choose|loser: PlayerId| self@.decided_between(loser, self@.winner());
            assert(self@.is_defeated(loser));
        }
        let loser_id = self.find_defeated().unwrap();
        let winner_id = self.find_other(loser_id).unwrap();
        proof {
            assert(self@.decided_between(loser_id, winner_id));
            self@.winner_is_unique(winner_id);
        }

        Some(winner_id)
    }
}

} // verus!
