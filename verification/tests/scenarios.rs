use embark_core::game::{GameScreen, GameState, KeyCode, Location, UiEvent};
use embark_core::tilemap::{EmbarkParams, Tile};

fn drive(state: &mut GameState, events: Vec<UiEvent>, now: u64) {
    let mut queue = events;
    state.process_inputs(&mut queue);
    state.process_frame(now);
}

fn embark_10x10(state: &mut GameState) {
    let params = EmbarkParams { seed: 0, dims: (10, 10) };
    drive(state, vec![UiEvent::EmbarkLocation(Location::Embark(params))], 0);
}

#[test]
fn fresh_game_starts_idle_at_base() {
    let s = GameState::default();
    assert_eq!(s.game_mode, GameScreen::Idle);
    assert_eq!(s.cur_location, Location::AtBase);
    assert!(s.embark_state.tilemap.is_none());
    assert!(s.scouted_locations.is_empty());
    assert_eq!(s.resources.energy.cur_val, 100);
    assert_eq!(s.resources.energy.max_val, 100);
    assert!(!s.exit_requested);
}

#[test]
fn survey_consumes_energy_and_scouts_once() {
    let mut s = GameState::default();
    let mut queue = vec![UiEvent::SurveySurroundings];
    s.process_inputs(&mut queue);
    assert_eq!(s.resources.energy.cur_val, 0);
    assert_eq!(s.scouted_locations.len(), 1);
    assert_eq!(
        s.scouted_locations[0],
        Location::Embark(EmbarkParams { seed: 0, dims: (100, 100) })
    );
    // Below the threshold now: the second survey is a silent no-op.
    let mut queue = vec![UiEvent::SurveySurroundings];
    s.process_inputs(&mut queue);
    assert_eq!(s.resources.energy.cur_val, 0);
    assert_eq!(s.scouted_locations.len(), 1);
}

#[test]
fn embark_commit_installs_generated_session() {
    let mut s = GameState::default();
    embark_10x10(&mut s);
    assert_eq!(s.game_mode, GameScreen::Embark);
    assert_eq!(
        s.cur_location,
        Location::Embark(EmbarkParams { seed: 0, dims: (10, 10) })
    );
    assert_eq!(s.embark_state.player_x, 5);
    assert_eq!(s.embark_state.player_y, 5);
    let map = s.embark_state.tilemap.as_ref().expect("tilemap installed");
    assert_eq!(map.width, 10);
    assert_eq!(map.height, 10);
    for y in 0..10u32 {
        for x in 0..10u32 {
            let tile = map.tiles[(y * 10 + x) as usize];
            if x == 0 || y == 0 || x == 9 || y == 9 {
                assert_eq!(tile, Tile::Wall);
            } else {
                assert_eq!(tile, Tile::Empty);
            }
        }
    }
    // Staged fields are cleared by the commit.
    assert!(s.next_game_mode.is_none());
    assert!(s.next_location.is_none());
}

#[test]
fn walking_left_stops_at_the_wall() {
    let mut s = GameState::default();
    embark_10x10(&mut s);
    let mut expected_x = 5u32;
    for _ in 0..9 {
        drive(&mut s, vec![UiEvent::KeyPress(KeyCode::Left)], 0);
        if expected_x > 1 {
            // x - 1 is still empty: the step is committed.
            expected_x -= 1;
        }
        // At x == 1 the target x == 0 is a wall: the step is rejected.
        assert_eq!(s.embark_state.player_x, expected_x);
        assert_eq!(s.embark_state.player_y, 5);
    }
    assert_eq!(s.embark_state.player_x, 1);
}

#[test]
fn wall_rejection_leaves_position_and_clears_delta() {
    let mut s = GameState::default();
    // A 4x4 room centers the player at (2, 2), adjacent to the interior edge.
    let params = EmbarkParams { seed: 0, dims: (4, 4) };
    drive(&mut s, vec![UiEvent::EmbarkLocation(Location::Embark(params))], 0);
    assert_eq!(s.embark_state.player_x, 2);
    assert_eq!(s.embark_state.player_y, 2);
    drive(&mut s, vec![UiEvent::KeyPress(KeyCode::Up)], 0);
    assert_eq!(s.embark_state.player_y, 1);
    // y == 0 is a wall: position unchanged, delta consumed.
    drive(&mut s, vec![UiEvent::KeyPress(KeyCode::Up)], 0);
    assert_eq!(s.embark_state.player_x, 2);
    assert_eq!(s.embark_state.player_y, 1);
    assert!(s.embark_state.del_x.is_none());
    assert!(s.embark_state.del_y.is_none());
}

#[test]
fn diagonal_moves_evaluate_both_axes_independently() {
    let mut s = GameState::default();
    embark_10x10(&mut s);
    drive(
        &mut s,
        vec![UiEvent::KeyPress(KeyCode::Left), UiEvent::KeyPress(KeyCode::Up)],
        0,
    );
    assert_eq!(s.embark_state.player_x, 4);
    assert_eq!(s.embark_state.player_y, 4);
}

#[test]
fn pairing_invariant_holds_across_transitions() {
    let mut s = GameState::default();
    let check = |s: &GameState| {
        if s.game_mode == GameScreen::Embark {
            assert!(s.embark_state.tilemap.is_some());
            assert_ne!(s.cur_location, Location::AtBase);
        }
    };
    check(&s);
    embark_10x10(&mut s);
    check(&s);
    drive(&mut s, vec![UiEvent::StateTransition(GameScreen::Idle)], 0);
    check(&s);
    assert_eq!(s.game_mode, GameScreen::Idle);
    assert_eq!(s.cur_location, Location::AtBase);
    assert!(s.embark_state.tilemap.is_none());
    // Returning to base resets the session to its default position.
    assert_eq!(s.embark_state.player_x, 50);
    assert_eq!(s.embark_state.player_y, 50);
}

#[test]
fn embark_request_with_base_location_is_rejected() {
    let mut s = GameState::default();
    drive(&mut s, vec![UiEvent::EmbarkLocation(Location::AtBase)], 0);
    assert_eq!(s.game_mode, GameScreen::Idle);
    assert_eq!(s.cur_location, Location::AtBase);
    assert!(s.embark_state.tilemap.is_none());
    assert!(s.next_game_mode.is_none());
    assert!(s.next_location.is_none());
}

#[test]
fn embark_request_with_degenerate_dims_is_rejected() {
    let mut s = GameState::default();
    let params = EmbarkParams { seed: 0, dims: (1, 5) };
    drive(&mut s, vec![UiEvent::EmbarkLocation(Location::Embark(params))], 0);
    assert_eq!(s.game_mode, GameScreen::Idle);
    assert!(s.embark_state.tilemap.is_none());
}

#[test]
fn tick_fires_once_per_elapsed_interval() {
    let mut s = GameState::default();
    // Drain energy so regeneration is observable.
    drive(&mut s, vec![UiEvent::SurveySurroundings], 0);
    assert_eq!(s.resources.energy.cur_val, 0);
    assert_eq!(s.last_tick, 0);
    // Less than one interval: no economy step, even below max.
    s.process_frame(999);
    assert_eq!(s.resources.energy.cur_val, 0);
    assert_eq!(s.last_tick, 0);
    // At least one interval: exactly one step, however large the gap.
    s.process_frame(50_000);
    assert_eq!(s.resources.energy.cur_val, 1);
    assert_eq!(s.last_tick, 50_000);
    // The next frame right after does not tick again.
    s.process_frame(50_500);
    assert_eq!(s.resources.energy.cur_val, 1);
    assert_eq!(s.last_tick, 50_000);
}

#[test]
fn no_regeneration_while_embarked() {
    let mut s = GameState::default();
    drive(&mut s, vec![UiEvent::SurveySurroundings], 0);
    embark_10x10(&mut s);
    assert_eq!(s.resources.energy.cur_val, 0);
    s.process_frame(10_000);
    assert_eq!(s.resources.energy.cur_val, 0);
    assert_eq!(s.last_tick, 10_000);
}

#[test]
fn regeneration_clamps_at_max() {
    let mut s = GameState::default();
    assert_eq!(s.resources.energy.cur_val, 100);
    s.process_frame(2_000);
    assert_eq!(s.resources.energy.cur_val, 100);
}

#[test]
fn quit_event_requests_exit() {
    let mut s = GameState::default();
    let mut queue = vec![UiEvent::Quit];
    s.process_inputs(&mut queue);
    assert!(s.exit_requested);
    let mut s2 = GameState::default();
    let mut queue = vec![UiEvent::KeyPress(KeyCode::Q)];
    s2.process_inputs(&mut queue);
    assert!(s2.exit_requested);
}

#[test]
fn resize_updates_viewport_only() {
    let mut s = GameState::default();
    let mut queue = vec![UiEvent::Resize(800, 600)];
    s.process_inputs(&mut queue);
    assert_eq!(s.screen_width, 800);
    assert_eq!(s.screen_height, 600);
    assert_eq!(s.game_mode, GameScreen::Idle);
}

#[test]
fn events_are_processed_in_arrival_order() {
    let mut s = GameState::default();
    let mut queue = vec![
        UiEvent::KeyPress(KeyCode::Left),
        UiEvent::KeyPress(KeyCode::Right),
    ];
    s.process_inputs(&mut queue);
    // Last write wins within one drain.
    assert_eq!(s.embark_state.del_x, Some(1));
    assert!(queue.is_empty());
    let mut queue = vec![
        UiEvent::StateTransition(GameScreen::Embark),
        UiEvent::StateTransition(GameScreen::Idle),
    ];
    s.process_inputs(&mut queue);
    assert_eq!(s.next_game_mode, Some(GameScreen::Idle));
}

#[test]
fn unhandled_key_is_dropped() {
    let mut s = GameState::default();
    let mut queue = vec![UiEvent::KeyPress(KeyCode::Space)];
    s.process_inputs(&mut queue);
    assert!(queue.is_empty());
    assert!(s.next_game_mode.is_none());
    assert!(s.embark_state.del_x.is_none());
    assert!(s.embark_state.del_y.is_none());
    assert!(!s.exit_requested);
}

#[test]
fn key_i_stages_return_to_idle() {
    let mut s = GameState::default();
    embark_10x10(&mut s);
    drive(&mut s, vec![UiEvent::KeyPress(KeyCode::I)], 0);
    assert_eq!(s.game_mode, GameScreen::Idle);
    assert_eq!(s.cur_location, Location::AtBase);
    assert!(s.embark_state.tilemap.is_none());
}

#[test]
fn reembarking_regenerates_the_session() {
    let mut s = GameState::default();
    embark_10x10(&mut s);
    // Move off-center, then travel to the same site again.
    drive(&mut s, vec![UiEvent::KeyPress(KeyCode::Left)], 0);
    assert_eq!(s.embark_state.player_x, 4);
    embark_10x10(&mut s);
    assert_eq!(s.embark_state.player_x, 5);
    assert_eq!(s.embark_state.player_y, 5);
}
