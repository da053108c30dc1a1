use game_core::game_controller::{GameController, MAX_DURATION_MS};
use game_core::player_state::PlayerState;

fn configured() -> GameController {
    // Canvas 800x480, both sprites 64x64, default timings (50 ms frames,
    // 3000 ms jump at half height, 5000 ms enemy route).
    let mut c = GameController::new();
    c.set_canvas_dimensions(800, 480);
    c.load_player_sprite_table(4, 64, 64);
    c.load_enemy_sprite_table(4, 64, 64);
    c
}

#[test]
fn new_defaults() {
    let c = GameController::new();
    assert_eq!(c.canvas_width, 0);
    assert_eq!(c.canvas_height, 0);
    assert_eq!(c.player_frame_duration, 50);
    assert_eq!(c.enemy_frame_duration, 50);
    assert_eq!(c.jump_duration, 3000);
    assert_eq!(c.enemy_route_duration, 5000);
    assert_eq!(c.jump_height_permille, 500);
    assert_eq!(c.game_start_time, None);
    assert_eq!(c.jump_start_time, None);
    assert!(c.jump_duration <= MAX_DURATION_MS);
}

#[test]
fn player_is_horizontally_centered_and_still() {
    let mut c = configured();
    assert_eq!(c.player_x(), 368); // (800 - 64) / 2
    c.start(0);
    c.jump(100);
    assert_eq!(c.player_x(), 368);
    assert_eq!(c.enemy_y(), 208); // (480 - 64) / 2
}

#[test]
fn scenario_sweep_into_player() {
    // Enemy starts parked at the right edge; at half the route it has
    // swept to x = 368 and overlaps the player, which ends the round.
    let mut c = configured();
    c.start(0);
    assert_eq!(c.enemy_x(0), 800);
    assert_eq!(c.player_state(0), PlayerState::Live);
    assert_eq!(c.game_start_time, Some(0));
    assert_eq!(c.enemy_x(2500), 368); // 800 + (-64 - 800) / 2
    assert_eq!(c.player_state(2500), PlayerState::Dead);
    assert_eq!(c.game_start_time, None);
}

#[test]
fn death_is_terminal_until_restart() {
    let mut c = configured();
    c.start(0);
    assert_eq!(c.player_state(2500), PlayerState::Dead);
    // With the round cleared, the collision predicate short-circuits to
    // false and the queries sit at their round-not-started defaults.
    assert_eq!(c.player_state(2500), PlayerState::Live);
    assert_eq!(c.player_state(9999), PlayerState::Live);
    assert_eq!(c.game_start_time, None);
    assert_eq!(c.enemy_x(2500), 800);
    assert_eq!(c.get_player_frame(2500), 0);
    assert_eq!(c.get_enemy_frame(2500), 0);
    // A new start resets the clock: the enemy parks at the right edge again.
    c.start(10_000);
    assert_eq!(c.enemy_x(10_000), 800);
    assert_eq!(c.player_state(10_000), PlayerState::Live);
}

#[test]
fn jump_debounce_window_is_full_duration() {
    let mut c = configured();
    c.jump(1000);
    assert_eq!(c.jump_start_time, Some(1000));
    // A second press anywhere inside the 3000 ms window is a no-op.
    c.jump(1001);
    assert_eq!(c.jump_start_time, Some(1000));
    c.jump(3999);
    assert_eq!(c.jump_start_time, Some(1000));
    // At exactly the end of the window a new arc starts.
    c.jump(4000);
    assert_eq!(c.jump_start_time, Some(4000));
}

#[test]
fn jump_parabola_rises_and_returns() {
    let mut c = configured();
    // Resting height: (480 - 64) / 2 = 208.
    assert_eq!(c.player_y(0), 208);
    c.jump(1000);
    assert_eq!(c.player_y(1000), 208); // arc start
    assert_eq!(c.player_y(1750), 130); // quarter: 208 - 0.75 * 104
    assert_eq!(c.player_y(2500), 104); // midpoint: 208 - 0.5 * 208
    assert_eq!(c.player_y(3250), 130); // three quarters
    assert_eq!(c.player_y(4000), 208); // arc complete
    assert_eq!(c.player_y(9999), 208); // stays at rest afterwards
    // The completed arc is kept until the next accepted press.
    assert_eq!(c.jump_start_time, Some(1000));
}

#[test]
fn jump_height_factor_scales_peak() {
    let mut c = configured();
    c.set_jump_height(250);
    c.jump(0);
    assert_eq!(c.player_y(1500), 156); // 208 - 0.25 * 208
}

#[test]
fn enemy_sweep_wraps_every_route_duration() {
    let mut c = configured();
    c.start(0);
    for t in [0u64, 1, 1234, 2500, 4999] {
        assert_eq!(c.enemy_x(t), c.enemy_x(t + 5000));
        assert_eq!(c.enemy_x(t), c.enemy_x(t + 15000));
    }
    // The sawtooth teleports back to the right edge at each wrap.
    assert_eq!(c.enemy_x(4999), 800 - (864 * 4999) / 5000);
    assert_eq!(c.enemy_x(5000), 800);
}

#[test]
fn frame_wraps_at_frame_count() {
    let mut c = configured();
    assert_eq!(c.get_player_frame(220), 0); // round not started
    c.start(0);
    assert_eq!(c.get_player_frame(0), 0);
    assert_eq!(c.get_player_frame(170), 3); // floor(170/50) = 3
    assert_eq!(c.get_player_frame(220), 0); // floor(220/50) mod 4 = 0
    assert_eq!(c.get_enemy_frame(220), 0);
    assert_eq!(c.get_enemy_frame(399), 3);
    // Animation is independent of jumping.
    c.jump(200);
    assert_eq!(c.get_player_frame(220), 0);
}

#[test]
fn zero_frame_count_reports_frame_zero() {
    let mut c = configured();
    c.load_player_sprite_table(0, 64, 64);
    c.start(0);
    assert_eq!(c.get_player_frame(220), 0);
    assert_eq!(c.get_enemy_frame(399), 3);
}

#[test]
fn zero_frame_duration_reports_frame_zero() {
    let mut c = configured();
    c.set_timings(0, 0, 3000, 5000);
    c.start(0);
    assert_eq!(c.get_player_frame(220), 0);
    assert_eq!(c.get_enemy_frame(220), 0);
}

#[test]
fn zero_jump_duration_is_instantaneous() {
    let mut c = configured();
    c.set_timings(50, 50, 0, 5000);
    c.jump(100);
    assert_eq!(c.jump_start_time, Some(100));
    assert_eq!(c.player_y(100), 208); // already back at rest
    // An empty debounce window never blocks a new press.
    c.jump(100);
    assert_eq!(c.jump_start_time, Some(100));
    c.jump(101);
    assert_eq!(c.jump_start_time, Some(101));
}

#[test]
fn zero_route_duration_rests_at_terminal_position() {
    let mut c = configured();
    c.set_timings(50, 50, 3000, 0);
    c.start(5);
    assert_eq!(c.enemy_x(123), -64);
}

#[test]
fn touching_edges_do_not_collide() {
    // Route duration 864 makes the enemy sweep one pixel per millisecond:
    // enemy_x(t) = 800 - t for t < 864.
    let mut c = configured();
    c.set_timings(50, 50, 3000, 864);

    // Player occupies x in [368, 432]. Right edges touching: no collision.
    c.start(0);
    assert_eq!(c.enemy_x(368), 432);
    assert_eq!(c.player_state(368), PlayerState::Live);
    // One pixel of overlap: collision.
    assert_eq!(c.enemy_x(369), 431);
    assert_eq!(c.player_state(369), PlayerState::Dead);

    // Left edges touching: enemy box [304, 368] against player [368, 432].
    c.start(0);
    assert_eq!(c.player_state(496), PlayerState::Live);
    // One pixel of overlap on the way out: collision.
    c.start(0);
    assert_eq!(c.player_state(495), PlayerState::Dead);
}

#[test]
fn no_collision_without_active_round() {
    let mut c = configured();
    // Same times as the colliding scenario, but no round was started.
    assert_eq!(c.player_state(2500), PlayerState::Live);
    assert_eq!(c.enemy_x(2500), 800);
}

#[test]
fn restart_overwrites_running_round() {
    let mut c = configured();
    c.start(0);
    c.start(2000);
    assert_eq!(c.game_start_time, Some(2000));
    // Time-derived values are back at their start-of-round defaults.
    assert_eq!(c.enemy_x(2000), 800);
    assert_eq!(c.get_player_frame(2000), 0);
}

#[test]
fn death_keeps_jump_arc_running() {
    let mut c = configured();
    c.start(0);
    c.jump(2000);
    assert_eq!(c.player_state(2500), PlayerState::Dead);
    // The jump timestamp survives the collision reset.
    assert_eq!(c.jump_start_time, Some(2000));
    assert_eq!(c.player_y(3500), 104); // midpoint of the surviving arc
}
