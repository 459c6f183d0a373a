use store::{BaseStats, EndGameReason, GameEvent, GameState, Player, PlayerType, Stage};

fn fighter(name: &str, health: i64, attack: i64, defense: i64) -> Player {
    Player {
        name: name.to_string(),
        base_stats: BaseStats { health, attack, defense },
        player_type: PlayerType::Human,
    }
}

fn join(state: &mut GameState, player_id: u64, player: Player) {
    state.trigger(&GameEvent::PlayerJoined { player_id, player });
}

fn duel(first: Player, second: Player) -> GameState {
    let mut state = GameState::default();
    join(&mut state, 1, first);
    join(&mut state, 2, second);
    state.trigger(&GameEvent::BeginGame { goes_first: 1 });
    state
}

#[test]
fn default_state_is_empty_pre_game() {
    let state = GameState::default();
    assert_eq!(state.stage, Stage::PreGame);
    assert_eq!(state.board, [PlayerType::Bot, PlayerType::Bot]);
    assert_eq!(state.active_player_id, 0);
    assert!(state.players.is_empty());
    assert!(state.history.is_empty());
}

#[test]
fn begin_game_is_legal_before_the_game_for_a_known_player() {
    let mut state = GameState::default();
    join(&mut state, 7, fighter("a", 1000, 100, 100));
    assert!(state.validate(&GameEvent::BeginGame { goes_first: 7 }));
}

#[test]
fn begin_game_is_illegal_for_an_unknown_player() {
    let mut state = GameState::default();
    join(&mut state, 7, fighter("a", 1000, 100, 100));
    assert!(!state.validate(&GameEvent::BeginGame { goes_first: 8 }));
    assert!(!GameState::default().validate(&GameEvent::BeginGame { goes_first: 0 }));
}

#[test]
fn begin_game_is_illegal_after_pre_game() {
    let mut state = GameState::default();
    join(&mut state, 7, fighter("a", 1000, 100, 100));
    state.trigger(&GameEvent::BeginGame { goes_first: 7 });
    assert_eq!(state.stage, Stage::InGame);
    assert!(!state.validate(&GameEvent::BeginGame { goes_first: 7 }));
    state.trigger(&GameEvent::EndGame { reason: EndGameReason::PlayerWon { winner: 7 } });
    assert_eq!(state.stage, Stage::Ended);
    assert!(!state.validate(&GameEvent::BeginGame { goes_first: 7 }));
}

#[test]
fn begin_game_may_start_with_a_single_player() {
    let mut state = GameState::default();
    join(&mut state, 1, fighter("a", 1000, 100, 100));
    let begin = GameEvent::BeginGame { goes_first: 1 };
    assert!(state.validate(&begin));
    state.trigger(&begin);
    assert_eq!(state.stage, Stage::InGame);
    assert_eq!(state.active_player_id, 1);
}

#[test]
fn end_game_is_legal_only_in_game() {
    let won = GameEvent::EndGame { reason: EndGameReason::PlayerWon { winner: 1 } };
    let gave_up = GameEvent::EndGame { reason: EndGameReason::PlayerSurrender { player_id: 1 } };
    let mut state = GameState::default();
    join(&mut state, 1, fighter("a", 1000, 100, 100));
    assert!(!state.validate(&won));
    assert!(!state.validate(&gave_up));
    state.trigger(&GameEvent::BeginGame { goes_first: 1 });
    assert!(state.validate(&won));
    assert!(state.validate(&gave_up));
    state.trigger(&won);
    assert_eq!(state.stage, Stage::Ended);
    assert!(!state.validate(&won));
    assert!(!state.validate(&gave_up));
}

#[test]
fn end_game_does_not_look_at_its_reason() {
    let mut state = duel(fighter("a", 1000, 100, 100), fighter("b", 1000, 100, 100));
    let before = state.players.clone();
    state.trigger(&GameEvent::EndGame { reason: EndGameReason::PlayerSurrender { player_id: 9 } });
    assert_eq!(state.stage, Stage::Ended);
    assert_eq!(state.players, before);
    assert_eq!(state.active_player_id, 1);
}

#[test]
fn joining_twice_is_illegal_the_second_time() {
    let mut state = GameState::default();
    let first = GameEvent::PlayerJoined { player_id: 3, player: fighter("a", 1000, 100, 100) };
    assert!(state.validate(&first));
    state.trigger(&first);
    assert!(!state.validate(&first));
    let other = GameEvent::PlayerJoined { player_id: 3, player: fighter("b", 1, 2, 3) };
    assert!(!state.validate(&other));
    let elsewhere = GameEvent::PlayerJoined { player_id: 4, player: fighter("b", 1, 2, 3) };
    assert!(state.validate(&elsewhere));
}

#[test]
fn joining_is_legal_at_every_stage() {
    let mut state = duel(fighter("a", 1000, 100, 100), fighter("b", 1000, 100, 100));
    let late = GameEvent::PlayerJoined { player_id: 3, player: fighter("c", 1000, 100, 100) };
    assert!(state.validate(&late));
    state.trigger(&GameEvent::EndGame { reason: EndGameReason::PlayerWon { winner: 1 } });
    assert!(state.validate(&late));
}

#[test]
fn trigger_join_overwrites_an_existing_player() {
    let mut state = GameState::default();
    join(&mut state, 3, fighter("a", 1000, 100, 100));
    join(&mut state, 3, fighter("b", 1, 2, 3));
    assert_eq!(state.players.len(), 1);
    assert_eq!(state.players.get(&3), Some(&fighter("b", 1, 2, 3)));
}

#[test]
fn disconnect_is_legal_only_for_a_known_player() {
    let mut state = GameState::default();
    let leave = GameEvent::PlayerDisconnected { player_id: 3 };
    assert!(!state.validate(&leave));
    join(&mut state, 3, fighter("a", 1000, 100, 100));
    assert!(state.validate(&leave));
    state.trigger(&leave);
    assert!(state.players.is_empty());
    assert_eq!(state.stage, Stage::PreGame);
    assert!(!state.validate(&leave));
}

#[test]
fn trigger_disconnect_of_a_stranger_changes_nothing() {
    let mut state = duel(fighter("a", 1000, 100, 100), fighter("b", 1000, 100, 100));
    let before = state.clone();
    state.trigger(&GameEvent::PlayerDisconnected { player_id: 9 });
    assert_eq!(state, before);
}

#[test]
fn attack_is_legal_only_for_the_active_player_among_known_players() {
    let state = duel(fighter("a", 1000, 100, 100), fighter("b", 1000, 100, 100));
    assert!(state.validate(&GameEvent::PlayerAttack { player_id: 1, enemy_id: 2 }));
    assert!(!state.validate(&GameEvent::PlayerAttack { player_id: 2, enemy_id: 1 }));
    assert!(!state.validate(&GameEvent::PlayerAttack { player_id: 1, enemy_id: 3 }));
    assert!(!state.validate(&GameEvent::PlayerAttack { player_id: 3, enemy_id: 1 }));
}

#[test]
fn attack_on_oneself_is_legal() {
    let state = duel(fighter("a", 1000, 100, 100), fighter("b", 1000, 100, 100));
    assert!(state.validate(&GameEvent::PlayerAttack { player_id: 1, enemy_id: 1 }));
}

#[test]
fn attack_stays_legal_after_the_game_has_ended() {
    let mut state = duel(fighter("a", 1000, 100, 100), fighter("b", 1000, 100, 100));
    state.trigger(&GameEvent::EndGame { reason: EndGameReason::PlayerWon { winner: 1 } });
    assert!(state.validate(&GameEvent::PlayerAttack { player_id: 1, enemy_id: 2 }));
}

#[test]
fn attack_is_legal_before_the_game_for_the_initial_turn_owner() {
    let mut state = GameState::default();
    join(&mut state, 0, fighter("a", 1000, 100, 100));
    join(&mut state, 5, fighter("b", 1000, 100, 100));
    assert_eq!(state.stage, Stage::PreGame);
    assert!(state.validate(&GameEvent::PlayerAttack { player_id: 0, enemy_id: 5 }));
    assert!(!state.validate(&GameEvent::PlayerAttack { player_id: 5, enemy_id: 0 }));
}

#[test]
fn validate_does_not_change_the_state() {
    let state = duel(fighter("a", 1000, 100, 100), fighter("b", 1000, 100, 100));
    let before = state.clone();
    state.validate(&GameEvent::PlayerAttack { player_id: 1, enemy_id: 2 });
    state.validate(&GameEvent::PlayerDisconnected { player_id: 1 });
    assert_eq!(state, before);
}

#[test]
fn attack_hands_the_turn_to_the_defender() {
    let mut state = duel(fighter("a", 1000, 100, 100), fighter("b", 1000, 100, 100));
    state.trigger(&GameEvent::PlayerAttack { player_id: 1, enemy_id: 2 });
    assert_eq!(state.active_player_id, 2);
    state.trigger(&GameEvent::PlayerAttack { player_id: 2, enemy_id: 1 });
    assert_eq!(state.active_player_id, 1);
}

#[test]
fn attack_of_150_on_defense_of_50_costs_100_health() {
    let mut state = duel(fighter("a", 1000, 150, 0), fighter("b", 1000, 0, 50));
    state.trigger(&GameEvent::PlayerAttack { player_id: 1, enemy_id: 2 });
    assert_eq!(
        state.get_player_stats(&2),
        Some(BaseStats { health: 900, attack: 0, defense: 50 })
    );
    assert_eq!(
        state.get_player_stats(&1),
        Some(BaseStats { health: 1000, attack: 150, defense: 0 })
    );
}

#[test]
fn attack_of_100_on_defense_of_150_heals_50_health() {
    let mut state = duel(fighter("a", 1000, 100, 0), fighter("b", 1000, 0, 150));
    state.trigger(&GameEvent::PlayerAttack { player_id: 1, enemy_id: 2 });
    assert_eq!(
        state.get_player_stats(&2),
        Some(BaseStats { health: 1050, attack: 0, defense: 150 })
    );
}

#[test]
fn attack_can_take_health_below_zero() {
    let mut state = duel(fighter("a", 1000, 500, 0), fighter("b", 100, 0, 0));
    state.trigger(&GameEvent::PlayerAttack { player_id: 1, enemy_id: 2 });
    assert_eq!(state.get_player_stats(&2).map(|stats| stats.health), Some(-400));
}

#[test]
fn attack_on_oneself_uses_ones_own_attack_and_defense() {
    let mut state = duel(fighter("a", 1000, 130, 30), fighter("b", 1000, 0, 0));
    state.trigger(&GameEvent::PlayerAttack { player_id: 1, enemy_id: 1 });
    assert_eq!(
        state.get_player_stats(&1),
        Some(BaseStats { health: 900, attack: 130, defense: 30 })
    );
    assert_eq!(state.active_player_id, 1);
}

#[test]
fn attack_leaves_name_stage_board_and_history_alone() {
    let mut state = duel(fighter("a", 1000, 150, 0), fighter("b", 1000, 0, 50));
    state.trigger(&GameEvent::PlayerAttack { player_id: 1, enemy_id: 2 });
    assert_eq!(state.players.get(&2), Some(&fighter("b", 900, 0, 50)));
    assert_eq!(state.players.get(&1), Some(&fighter("a", 1000, 150, 0)));
    assert_eq!(state.stage, Stage::InGame);
    assert_eq!(state.board, [PlayerType::Bot, PlayerType::Bot]);
    assert!(state.history.is_empty());
}

#[test]
fn trigger_never_records_history() {
    let mut state = duel(fighter("a", 1000, 150, 0), fighter("b", 1000, 0, 50));
    state.trigger(&GameEvent::PlayerAttack { player_id: 1, enemy_id: 2 });
    state.trigger(&GameEvent::PlayerDisconnected { player_id: 2 });
    state.trigger(&GameEvent::EndGame { reason: EndGameReason::PlayerSurrender { player_id: 2 } });
    assert!(state.history.is_empty());
}

#[test]
fn can_trigger_needs_both_players_of_an_attack() {
    let state = duel(fighter("a", 1000, 100, 100), fighter("b", 1000, 100, 100));
    assert!(state.can_trigger(&GameEvent::PlayerAttack { player_id: 1, enemy_id: 2 }));
    assert!(state.can_trigger(&GameEvent::PlayerAttack { player_id: 2, enemy_id: 1 }));
    assert!(!state.can_trigger(&GameEvent::PlayerAttack { player_id: 1, enemy_id: 3 }));
    assert!(!state.can_trigger(&GameEvent::PlayerAttack { player_id: 3, enemy_id: 1 }));
}

#[test]
fn can_trigger_refuses_an_attack_whose_damage_overflows() {
    let state = duel(fighter("a", 1000, i64::MAX, 0), fighter("b", 1000, 0, -1));
    assert!(!state.can_trigger(&GameEvent::PlayerAttack { player_id: 1, enemy_id: 2 }));
}

#[test]
fn can_trigger_refuses_an_attack_whose_health_overflows() {
    let state = duel(fighter("a", 1000, 0, 0), fighter("b", i64::MAX, 0, 1));
    assert!(!state.can_trigger(&GameEvent::PlayerAttack { player_id: 1, enemy_id: 2 }));
    let low = duel(fighter("a", 1000, 1, 0), fighter("b", i64::MIN, 0, 0));
    assert!(!low.can_trigger(&GameEvent::PlayerAttack { player_id: 1, enemy_id: 2 }));
}

#[test]
fn can_trigger_accepts_an_attack_at_the_edge_of_the_range() {
    let mut state = duel(fighter("a", 1000, 1, 0), fighter("b", i64::MIN + 1, 0, 0));
    let attack = GameEvent::PlayerAttack { player_id: 1, enemy_id: 2 };
    assert!(state.can_trigger(&attack));
    state.trigger(&attack);
    assert_eq!(state.get_player_stats(&2).map(|stats| stats.health), Some(i64::MIN));
}

#[test]
fn can_trigger_accepts_every_other_event() {
    let state = GameState::default();
    assert!(state.can_trigger(&GameEvent::BeginGame { goes_first: 9 }));
    assert!(state.can_trigger(&GameEvent::PlayerDisconnected { player_id: 9 }));
    assert!(state.can_trigger(&GameEvent::EndGame {
        reason: EndGameReason::PlayerWon { winner: 9 }
    }));
    assert!(state.can_trigger(&GameEvent::PlayerJoined {
        player_id: 9,
        player: fighter("a", 1, 1, 1)
    }));
}

#[test]
fn a_blow_takes_attack_less_defense_from_health() {
    let stats = BaseStats { health: 10, attack: 7, defense: 3 };
    assert!(stats.can_be_struck_by(5));
    assert_eq!(stats.struck_by(5), BaseStats { health: 8, attack: 7, defense: 3 });
    assert_eq!(stats.struck_by(1), BaseStats { health: 12, attack: 7, defense: 3 });
}

#[test]
fn get_player_stats_of_a_stranger_is_none() {
    let state = duel(fighter("a", 1000, 100, 100), fighter("b", 1000, 100, 100));
    assert_eq!(state.get_player_stats(&3), None);
    assert_eq!(
        state.get_player_stats(&1),
        Some(BaseStats { health: 1000, attack: 100, defense: 100 })
    );
}

#[test]
fn get_player_gives_access_to_the_stored_player() {
    let mut state = duel(fighter("a", 1000, 100, 100), fighter("b", 1000, 100, 100));
    assert!(state.get_player(&3).is_none());
    match state.get_player(&2) {
        Some(player) => {
            assert_eq!(*player, fighter("b", 1000, 100, 100));
            player.base_stats.health = 5;
            player.name = "c".to_string();
        }
        None => panic!("player 2 has joined"),
    }
    assert_eq!(state.players.get(&2), Some(&fighter("c", 5, 100, 100)));
    assert_eq!(state.players.get(&1), Some(&fighter("a", 1000, 100, 100)));
    assert_eq!(state.players.len(), 2);
}

#[test]
fn player_ids_lists_every_player_once() {
    let mut state = GameState::default();
    assert!(state.player_ids().is_empty());
    join(&mut state, 30, fighter("a", 1, 1, 1));
    join(&mut state, 10, fighter("b", 1, 1, 1));
    join(&mut state, 20, fighter("c", 1, 1, 1));
    let mut ids = state.player_ids();
    ids.sort();
    assert_eq!(ids, vec![10, 20, 30]);
}

#[test]
fn winner_is_the_player_who_is_not_defeated() {
    let state = duel(fighter("x", 0, 100, 100), fighter("y", 1, 100, 100));
    assert!(state.has_winner());
    assert_eq!(state.determine_winner(), Some(2));
    let state = duel(fighter("y", 1000, 100, 100), fighter("x", -5, 100, 100));
    assert!(state.has_winner());
    assert_eq!(state.determine_winner(), Some(1));
}

#[test]
fn winner_does_not_depend_on_the_order_of_joining() {
    for (loser, winner) in [(1u64, 2u64), (2, 1), (7, 900), (900, 7), (u64::MAX, 0)] {
        let mut state = GameState::default();
        join(&mut state, loser, fighter("x", -1, 100, 100));
        join(&mut state, winner, fighter("y", 10, 100, 100));
        assert_eq!(state.determine_winner(), Some(winner));
        let mut state = GameState::default();
        join(&mut state, winner, fighter("y", 10, 100, 100));
        join(&mut state, loser, fighter("x", -1, 100, 100));
        assert_eq!(state.determine_winner(), Some(winner));
    }
}

#[test]
fn health_of_exactly_zero_is_defeat() {
    let state = duel(fighter("x", 0, 100, 100), fighter("y", 1000, 100, 100));
    assert_eq!(state.find_defeated(), Some(1));
    let state = duel(fighter("x", 1, 100, 100), fighter("y", 1000, 100, 100));
    assert_eq!(state.find_defeated(), None);
}

#[test]
fn there_is_no_winner_without_a_defeated_player() {
    let state = duel(fighter("a", 1000, 100, 100), fighter("b", 1000, 100, 100));
    assert!(!state.has_winner());
    assert_eq!(state.find_defeated(), None);
}

#[test]
fn there_is_no_winner_when_both_are_defeated() {
    let state = duel(fighter("a", 0, 100, 100), fighter("b", -1, 100, 100));
    assert!(!state.has_winner());
    assert!(state.find_defeated().is_some());
}

#[test]
fn there_is_no_winner_with_one_or_three_players() {
    let mut state = GameState::default();
    assert!(!state.has_winner());
    join(&mut state, 1, fighter("a", 0, 100, 100));
    assert!(!state.has_winner());
    assert_eq!(state.find_defeated(), Some(1));
    join(&mut state, 2, fighter("b", 1000, 100, 100));
    assert!(state.has_winner());
    join(&mut state, 3, fighter("c", 1000, 100, 100));
    assert!(!state.has_winner());
    assert_eq!(state.find_defeated(), Some(1));
}
