use std::collections::HashSet;
use tabletop_core::actions::{perspective_for, AbstractAction, Action, DoNothing};
use tabletop_core::components::{Area, BaseComponent, Token};
use tabletop_core::core_constants::{ComponentType, GameResult};
use tabletop_core::forward_model::ForwardModel;
use tabletop_core::game_parameters::AbstractParameters;
use tabletop_core::game_state::{AbstractGameState, GameStateView};
use tabletop_core::glu::{
    ExtendedGLU, ExtendedGLUType, ExtendedGluTrait, GLUType, GluTrait, TypeA, GLU,
};
use tabletop_core::ids::IdFountain;
use tabletop_core::player::{Player, RandomPlayer};

/// A game whose rules apply the action and nothing else, with a fixed menu.
struct PlainGame {
    menu: Vec<DoNothing>,
}

impl ForwardModel for PlainGame {
    type Act = DoNothing;

    fn setup_effect(&self, before: GameStateView, after: GameStateView) -> bool {
        let _ = (before, after);
        true
    }

    fn next_effect(&self, before: GameStateView, action: DoNothing, after: GameStateView) -> bool {
        let _ = (before, action, after);
        true
    }

    fn setup_impl(&self, _first_state: &mut AbstractGameState) {}

    fn next_impl(&self, current_state: &mut AbstractGameState, action: DoNothing) {
        action.execute(current_state);
    }

    fn compute_available_actions_impl(&self, _current_state: &AbstractGameState) -> Vec<DoNothing> {
        self.menu.clone()
    }
}

fn two_player_state() -> AbstractGameState {
    AbstractGameState::new(AbstractParameters::with_seed(7), 2)
}

fn stack_ids(state: &AbstractGameState) -> Vec<i32> {
    state.actions_in_progress().iter().map(|s| s.get_id()).collect()
}

#[test]
fn ids_from_one_allocator_are_distinct_across_kinds() {
    let mut ids = IdFountain::new();
    let component = BaseComponent::new(&mut ids, ComponentType::Token);
    let action = AbstractAction::new(&mut ids);
    let sequence = ExtendedGLU::new(&mut ids, ExtendedGLUType::Default);
    let token = Token::new(&mut ids, "Pawn");
    let area = Area::new(&mut ids, -1);
    let noop = DoNothing::new(&mut ids);
    let glu = GLU::new(&mut ids, GLUType::Default);
    let all = vec![
        component.component_id() as i64,
        action.id() as i64,
        sequence.get_id() as i64,
        token.component_id() as i64,
        area.component_id() as i64,
        noop.id() as i64,
        glu.get_id() as i64,
    ];
    assert_eq!(all, vec![0, 1, 2, 3, 4, 5, 6]);
    let distinct: HashSet<i64> = all.iter().cloned().collect();
    assert_eq!(distinct.len(), all.len());
}

#[test]
fn setup_then_noop_leaves_match_unchanged() {
    let mut ids = IdFountain::new();
    let game = PlainGame { menu: vec![] };
    let mut state = two_player_state();
    state.set_game_status(GameResult::WinGame);
    state.set_turn_owner(1);
    state.push_action_in_progress(ExtendedGLU::new(&mut ids, ExtendedGLUType::Default), None);
    game.setup(&mut state);
    assert_eq!(*state.game_status(), GameResult::GameOngoing);
    assert_eq!(*state.player_results(), vec![GameResult::GameOngoing, GameResult::GameOngoing]);
    assert!(state.actions_in_progress().is_empty());
    assert_eq!(state.turn_owner(), 0);

    game.next(&mut state, DoNothing::new(&mut ids));
    assert_eq!(*state.game_status(), GameResult::GameOngoing);
    assert_eq!(*state.player_results(), vec![GameResult::GameOngoing, GameResult::GameOngoing]);
    assert_eq!(state.turn_owner(), 0);
    assert!(state.actions_in_progress().is_empty());
}

#[test]
fn child_pushed_after_parent_and_swept_first() {
    let mut ids = IdFountain::new();
    let game = PlainGame { menu: vec![] };
    let mut state = two_player_state();
    let s1 = ExtendedGLU::new(&mut ids, ExtendedGLUType::Default);
    let s2 = ExtendedGLU::new(&mut ids, ExtendedGLUType::Default);
    assert!(state.push_action_in_progress(s1, None));
    assert_eq!(state.current_action_in_progress().unwrap().get_id(), s1.id);
    assert!(state.push_action_in_progress(s2, Some(s1.id)));
    assert_eq!(stack_ids(&state), vec![s1.id, s2.id]);
    assert!(state.mark_action_in_progress_complete(s2.id));
    game.next(&mut state, DoNothing::new(&mut ids));
    assert_eq!(stack_ids(&state), vec![s1.id]);
    assert!(!state.actions_in_progress()[0].execution_completed());
}

#[test]
fn push_inserts_right_after_parent() {
    let mut ids = IdFountain::new();
    let mut state = two_player_state();
    let a = ExtendedGLU::new(&mut ids, ExtendedGLUType::Default);
    let b = ExtendedGLU::new(&mut ids, ExtendedGLUType::Default);
    let c = ExtendedGLU::new(&mut ids, ExtendedGLUType::Default);
    let d = ExtendedGLU::new(&mut ids, ExtendedGLUType::Default);
    assert!(state.push_action_in_progress(a, None));
    assert!(state.push_action_in_progress(b, None));
    assert!(state.push_action_in_progress(c, None));
    assert!(state.push_action_in_progress(d, Some(a.id)));
    assert_eq!(stack_ids(&state), vec![a.id, d.id, b.id, c.id]);
    assert_eq!(state.get_index_of_action_in_progress(d.id), Some(1));
    assert_eq!(state.get_index_of_action_in_progress(99), None);
}

#[test]
fn push_under_missing_parent_fails_and_changes_nothing() {
    let mut ids = IdFountain::new();
    let mut state = two_player_state();
    let a = ExtendedGLU::new(&mut ids, ExtendedGLUType::Default);
    let b = ExtendedGLU::new(&mut ids, ExtendedGLUType::Default);
    assert!(state.push_action_in_progress(a, None));
    assert!(!state.push_action_in_progress(b, Some(1000)));
    assert_eq!(stack_ids(&state), vec![a.id]);
    assert!(!state.mark_action_in_progress_complete(1000));
}

#[test]
fn sweep_removes_only_trailing_completed_entries() {
    let mut ids = IdFountain::new();
    let mut state = two_player_state();
    let mut pushed = Vec::new();
    for _ in 0..5 {
        let s = ExtendedGLU::new(&mut ids, ExtendedGLUType::Default);
        pushed.push(s.id);
        state.push_action_in_progress(s, None);
    }
    state.mark_action_in_progress_complete(pushed[0]);
    state.mark_action_in_progress_complete(pushed[3]);
    state.mark_action_in_progress_complete(pushed[4]);
    state.remove_completed_actions_in_progress();
    assert_eq!(stack_ids(&state), vec![pushed[0], pushed[1], pushed[2]]);
    state.remove_completed_actions_in_progress();
    assert_eq!(stack_ids(&state), vec![pushed[0], pushed[1], pushed[2]]);
    assert!(state.has_pending_actions_in_progress());
}

#[test]
fn sweep_of_all_completed_empties_the_stack() {
    let mut ids = IdFountain::new();
    let mut state = two_player_state();
    let a = ExtendedGLU::new(&mut ids, ExtendedGLUType::Default);
    state.push_action_in_progress(a, None);
    state.mark_action_in_progress_complete(a.id);
    assert!(!state.has_pending_actions_in_progress());
    assert!(state.actions_in_progress().is_empty());
}

#[test]
fn available_actions_come_from_active_sequence_when_stack_not_empty() {
    let mut ids = IdFountain::new();
    let menu = vec![DoNothing::new(&mut ids), DoNothing::new(&mut ids)];
    let game = PlainGame { menu: menu.clone() };
    let mut state = two_player_state();
    let offered = game.compute_available_actions(&mut state);
    assert_eq!(offered, menu);
    let s = ExtendedGLU::new(&mut ids, ExtendedGLUType::Default);
    state.push_action_in_progress(s, None);
    assert!(game.compute_available_actions(&mut state).is_empty());
    state.mark_action_in_progress_complete(s.id);
    assert_eq!(game.compute_available_actions(&mut state), menu);
    assert!(state.actions_in_progress().is_empty());
}

#[test]
fn reset_keeps_players_and_clears_progress() {
    let mut ids = IdFountain::new();
    let mut state = AbstractGameState::new(AbstractParameters::with_seed(1), 3);
    state.set_player_result(GameResult::WinGame, 2);
    state.set_game_status(GameResult::GameEnd);
    state.set_turn_owner(2);
    assert_eq!(state.current_player(), 2);
    state.push_action_in_progress(ExtendedGLU::new(&mut ids, ExtendedGLUType::Default), None);
    assert_eq!(state.player_results()[2], GameResult::WinGame);
    state.reset();
    assert_eq!(state.n_players(), 3);
    assert_eq!(*state.game_status(), GameResult::GameOngoing);
    assert_eq!(*state.player_results(), vec![GameResult::GameOngoing; 3]);
    assert_eq!(state.turn_owner(), 0);
    assert!(state.actions_in_progress().is_empty());
    assert_eq!(state.game_parameters().random_seed(), 1);
}

#[test]
fn primary_stream_is_reproducible_from_seed() {
    let mut a = AbstractGameState::new(AbstractParameters::with_seed(12345), 2);
    let mut b = AbstractGameState::new(AbstractParameters::with_seed(12345), 2);
    let draws_a: Vec<usize> = (0..20).map(|_| a.rnd(1_000_000)).collect();
    let draws_b: Vec<usize> = (0..20).map(|_| b.rnd(1_000_000)).collect();
    assert_eq!(draws_a, draws_b);
    assert!(draws_a.iter().all(|d| *d < 1_000_000));
    assert!(draws_a.iter().any(|d| *d != draws_a[0]));
    let side = a.redetermination_rnd(10);
    assert!(side < 10);
    let next_a = a.rnd(1_000_000);
    let next_b = b.rnd(1_000_000);
    assert_eq!(next_a, next_b);
}

#[test]
fn game_result_weights() {
    assert_eq!(GameResult::WinGame.value(), 1);
    assert_eq!(GameResult::WinRound.value(), 0);
    assert_eq!(GameResult::DrawGame.value(), 0);
    assert_eq!(GameResult::DrawRound.value(), 0);
    assert_eq!(GameResult::LoseRound.value(), 0);
    assert_eq!(GameResult::LoseGame.value(), -1);
    assert_eq!(GameResult::Disqualify.value(), -2);
    assert_eq!(GameResult::Timeout.value(), -3);
    assert_eq!(GameResult::GameOngoing.value(), 0);
    assert_eq!(GameResult::GameEnd.value(), 3);
    assert_eq!(GameResult::default(), GameResult::GameOngoing);
    assert_eq!(ComponentType::default(), ComponentType::Token);
    assert_eq!(ComponentType::Area.name(), "Area");
}

#[test]
fn action_descriptions() {
    let state = two_player_state();
    let action = AbstractAction::with_id(42);
    assert_eq!(action.get_string(&state), "Action with ID: 42");
    assert_eq!(AbstractAction::with_id(-7).get_string(&state), "Action with ID: -7");
    assert_eq!(action.get_string_perspective(&state, 1), "Action with ID: 42");
    assert_eq!(action.get_tooltip(&state), "");
    let mut viewers = HashSet::new();
    viewers.insert(1i8);
    assert_eq!(action.get_string_perspectives(&state, &viewers), "Action with ID: 42");
    let mut ids = IdFountain::new();
    let noop = DoNothing::new(&mut ids);
    assert_eq!(noop.get_string(&state), "DoNothing");
    let mut changed = two_player_state();
    assert!(noop.execute(&mut changed));
    assert!(!action.execute(&mut changed));
}

#[test]
fn perspective_prefers_current_player() {
    let mut viewers = HashSet::new();
    assert_eq!(perspective_for(1, &viewers), 1);
    viewers.insert(3i8);
    assert_eq!(perspective_for(1, &viewers), 3);
    viewers.insert(1i8);
    assert_eq!(perspective_for(1, &viewers), 1);
}

#[test]
fn parameters_defaults_equality_and_clone() {
    let p = AbstractParameters::with_seed(99);
    assert_eq!(p.random_seed(), 99);
    assert_eq!(p.max_rounds(), -1);
    assert_eq!(p.timeout_rounds(), -1);
    assert_eq!(p.thinking_time_mins(), 90);
    assert_eq!(p.increment_action_s(), 0);
    assert_eq!(p.increment_turn_s(), 0);
    assert_eq!(p.increment_round_s(), 0);
    assert_eq!(p.increment_milestone_s(), 0);
    let q = AbstractParameters::new();
    assert_eq!(p, q);
    let r = p.clone();
    assert_eq!(r, p);
    assert_eq!(r.thinking_time_mins(), 90);
}

#[test]
fn units_execute_by_payload() {
    let mut ids = IdFountain::new();
    let mut state = two_player_state();
    let mut one_step = GLU::new(&mut ids, GLUType::TypeA(TypeA {}));
    assert!(one_step.can_execute(&state, 0));
    assert!(one_step.execute(&mut state, 0, None));
    let mut plain = GLU::new(&mut ids, GLUType::Default);
    assert!(!plain.execute(&mut state, 0, None));
    assert_eq!(plain.get_type(), GLUType::Default);
    assert_eq!(GLU::next_id(&mut ids), 2);
    let mut seq = ExtendedGLU::new(&mut ids, ExtendedGLUType::Default);
    assert_eq!(seq.get_id(), 3);
    assert_eq!(seq.parent_id(), -1);
    assert_eq!(seq.current_player(), -1);
    assert_eq!(seq.get_type(), ExtendedGLUType::Default);
    assert!(!seq.execution_completed());
    assert!(!seq.execute(&mut state, 0, None));
    assert!(!seq.can_execute(&state, 0));
    let offered: Vec<DoNothing> = seq.compute_available_actions(&state);
    assert!(offered.is_empty());
}

#[test]
fn random_player_picks_an_offered_action() {
    let mut ids = IdFountain::new();
    let state = two_player_state();
    let offered = vec![DoNothing::new(&mut ids), DoNothing::new(&mut ids), DoNothing::new(&mut ids)];
    let mut player = RandomPlayer::new();
    for _ in 0..20 {
        let picked = player.next_action(&state, &offered);
        assert!(offered.contains(&picked));
    }
}

#[test]
fn current_player_follows_active_sequence() {
    let mut ids = IdFountain::new();
    let mut state = two_player_state();
    state.set_turn_owner(0);
    let mut s = ExtendedGLU::new(&mut ids, ExtendedGLUType::Default);
    s.player_id = 1;
    assert!(state.push_action_in_progress(s, None));
    assert_eq!(state.current_player(), 1);
    assert_eq!(state.turn_owner(), 0);
    assert!(state.mark_action_in_progress_complete(s.id));
    assert_eq!(state.current_player(), 0);
    state.remove_completed_actions_in_progress();
    assert_eq!(state.current_player(), 0);
}

#[test]
fn action_ids_are_reported_by_id() {
    let mut ids = IdFountain::new();
    assert_eq!(AbstractAction::new(&mut ids).id(), 0);
    assert_eq!(AbstractAction::with_id(17).id(), 17);
    assert_eq!(DoNothing::new(&mut ids).id(), 1);
}
