//! Players and their combat statistics.

use vstd::prelude::*;

verus! {

/// Identifier of a player, unique and stable for the lifetime of a connection.
pub type PlayerId = u64;

/// Whether a player is driven by a person or by the machine.
#[derive(Debug, Clone, Copy, PartialEq, Eq, Structural)]
pub enum PlayerType {
    Bot,
    Human,
}

/// Combat statistics. All three are signed and may go negative.
#[derive(Debug, Clone, Copy, PartialEq, Eq, Structural)]
pub struct BaseStats {
    pub health: i64,
    pub attack: i64,
    pub defense: i64,
}

/// Combat statistics as mathematical integers.
pub struct BaseStatsView {
    pub health: int,
    pub attack: int,
    pub defense: int,
}

impl View for BaseStats {
    type V = BaseStatsView;

    open spec fn view(&self) -> BaseStatsView {
        BaseStatsView {
            health: self.health as int,
            attack: self.attack as int,
            defense: self.defense as int,
        }
    }
}

impl BaseStatsView {
    /// Damage that an attack of strength `attack` does to a defender with
    /// these statistics. It is negative when the defense exceeds the attack,
    /// in which case the attack heals.
    pub open spec fn damage_from(self, attack: int) -> int {
        attack - self.defense
    }

    /// The statistics after an attack of strength `attack`: only health changes.
    pub open spec fn struck_by(self, attack: int) -> BaseStatsView {
        BaseStatsView { health: self.health - self.damage_from(attack), ..self }
    }

    /// Whether every statistic fits the machine representation.
    pub open spec fn representable(self) -> bool {
        &&& i64::MIN <= self.health <= i64::MAX
        &&& i64::MIN <= self.attack <= i64::MAX
        &&& i64::MIN <= self.defense <= i64::MAX
    }

    /// Whether an attack of strength `attack` can be computed in 64-bit
    /// signed arithmetic: both the damage and the health left fit.
    pub open spec fn can_be_struck_by(self, attack: int) -> bool {
        &&& i64::MIN <= self.damage_from(attack) <= i64::MAX
        &&& i64::MIN <= self.struck_by(attack).health <= i64::MAX
    }
}

impl BaseStats {
    /// Decides whether an attack of strength `attack` on these statistics
    /// stays within 64-bit signed arithmetic.
    pub fn can_be_struck_by(&self, attack: i64) -> (ok: bool)
        ensures
            ok == self@.can_be_struck_by(attack as int),
    {
        match attack.checked_sub(self.defense) {
            Some(damage) => self.health.checked_sub(damage).is_some(),
            None => false,
        }
    }

    /// The statistics after taking an attack of strength `attack`.
    pub fn struck_by(&self, attack: i64) -> (after: BaseStats)
        requires
            self@.can_be_struck_by(attack as int),
        ensures
            after@ == self@.struck_by(attack as int),
    {
        let damage: i64 = attack - self.defense;
        BaseStats { health: self.health - damage, attack: self.attack, defense: self.defense }
    }
}

/// A participant of the game.
#[derive(Debug, PartialEq)]
pub struct Player {
    pub name: String,
    pub base_stats: BaseStats,
    pub player_type: PlayerType,
}

/// A participant of the game as a mathematical value.
pub struct PlayerView {
    pub name: Seq<char>,
    pub base_stats: BaseStatsView,
    pub player_type: PlayerType,
}

impl View for Player {
    type V = PlayerView;

    open spec fn view(&self) -> PlayerView {
        PlayerView {
            name: self.name@,
            base_stats: self.base_stats@,
            player_type: self.player_type,
        }
    }
}

impl Player {
    /// The player that a client called `name` starts as.
    pub fn newcomer(name: String) -> (player: Player)
        ensures
            player@ == PlayerView::newcomer(name@),
    {
        Player {
            name,
            base_stats: BaseStats { health: 1000, attack: 100, defense: 100 },
            player_type: PlayerType::Bot,
        }
    }
}

impl Clone for Player {
    fn clone(&self) -> (copy: Self)
        ensures
            copy == *self,
    {
        Player {
            name: self.name.clone(),
            base_stats: self.base_stats,
            player_type: self.player_type,
        }
    }
}

impl PlayerView {
    /// The player that a client called `name` starts as.
    pub open spec fn newcomer(name: Seq<char>) -> PlayerView {
        PlayerView {
            name,
            base_stats: BaseStatsView { health: 1000, attack: 100, defense: 100 },
            player_type: PlayerType::Bot,
        }
    }

    /// Whether the player is defeated: health at or below zero.
    pub open spec fn is_defeated(self) -> bool {
        self.base_stats.health <= 0
    }

    /// The player after an attack of strength `attack`.
    pub open spec fn struck_by(self, attack: int) -> PlayerView {
        PlayerView { base_stats: self.base_stats.struck_by(attack), ..self }
    }
}

} // verus!
