use terminal_pong::game::{Game, GameType, Key, DEFAULT_BALL_VELOCITY_X, DEFAULT_PADDLE_WIDTH};
use terminal_pong::helpers::Area;

fn area(width: u16, height: u16) -> Area {
    Area { x: 0, y: 0, width, height }
}

fn local_game() -> Game {
    Game::new(["Ann", "Bob"], area(40, 20), GameType::ScreenSaver, Some(100))
}

fn in_bounds(g: &Game) -> bool {
    let inner = g.game_area.height - 2;
    [0usize, 1].iter().all(|&i| {
        let p = g.get_player(i);
        p.bar_position as u32 + p.bar_length as u32 <= inner as u32
    })
}

#[test]
fn new_game_starts_centred_and_level() {
    let g = local_game();
    assert_eq!(g.left.score, 0);
    assert_eq!(g.right.score, 0);
    assert_eq!(g.left.power_moves_left, 10);
    assert_eq!(g.left.bar_length, 5);
    assert_eq!(g.left.bar_position, 8);
    assert_eq!(g.right.bar_position, 8);
    assert_eq!(g.ball.x, 18);
    assert_eq!(g.ball.y, 8);
    assert_eq!(g.ball.vx, 3);
    assert_eq!(g.ball.vy, 1);
    assert!(g.left.is_computer && g.right.is_computer);
    assert!(in_bounds(&g));
}

#[test]
fn new_game_clamps_difficulty() {
    let g = Game::new(["a", "b"], area(40, 20), GameType::WithNetwork, Some(500));
    assert_eq!(g.difficulty, 200);
    let g = Game::new(["a", "b"], area(40, 20), GameType::WithNetwork, None);
    assert_eq!(g.difficulty, 100);
    assert!(!g.left.is_computer);
    assert!(g.left.computer_ai.is_none());
}

#[test]
fn paddles_stay_inside_when_moved_far() {
    let mut g = Game::new(["a", "b"], area(40, 20), GameType::WithNetwork, None);
    g.set_local_player_index(0);
    for _ in 0..50 {
        g.handle_key_event(Key::Down, 0);
        assert!(in_bounds(&g));
    }
    assert_eq!(g.left.bar_position, 13);
    for _ in 0..50 {
        g.handle_key_event(Key::Up, 0);
    }
    assert_eq!(g.left.bar_position, 0);
}

#[test]
fn resize_keeps_paddles_inside() {
    let mut g = Game::new(["a", "b"], area(40, 30), GameType::WithNetwork, None);
    g.left.bar_position = 23;
    g.set_area(area(40, 12));
    assert_eq!(g.left.bar_position, 5);
    assert!(in_bounds(&g));
}

#[test]
fn screensaver_ticks_keep_paddles_inside() {
    let mut g = local_game();
    for t in 0..300u64 {
        g.step_frame(t * 25);
        assert!(in_bounds(&g));
    }
}

#[test]
fn left_paddle_reflects_ball() {
    let mut g = local_game();
    g.left.bar_position = 5;
    g.ball.x = DEFAULT_PADDLE_WIDTH;
    g.ball.y = 6;
    g.ball.vx = -3;
    g.ball.vy = 1;
    let hit = g.advance_ball(5, true);
    assert_eq!(hit, Some(1));
    assert_eq!(g.ball.vx, 3);
    assert_eq!(g.ball.x, DEFAULT_PADDLE_WIDTH);
    assert_eq!(g.ball.y, 7);
}

#[test]
fn right_paddle_resets_powered_ball() {
    let mut g = local_game();
    // inner width 37, right face 33
    g.right.bar_position = 5;
    g.ball.x = 30;
    g.ball.y = 6;
    g.ball.vx = 6;
    g.ball.is_powered = true;
    assert_eq!(g.advance_ball(5, true), Some(2));
    assert_eq!(g.ball.vx, -DEFAULT_BALL_VELOCITY_X);
    assert_eq!(g.ball.x, 33);
    assert!(!g.ball.is_powered);
}

#[test]
fn top_wall_bounces() {
    let mut g = local_game();
    g.ball.x = 18;
    g.ball.y = 1;
    g.ball.vy = -1;
    assert_eq!(g.advance_ball(5, true), None);
    assert_eq!(g.ball.y, 0);
    assert_eq!(g.ball.vy, 1);
    assert_eq!(g.ball.x, 21);
}

#[test]
fn bottom_wall_bounces() {
    let mut g = local_game();
    g.ball.x = 18;
    g.ball.y = 17;
    g.ball.vy = 1;
    g.advance_ball(5, true);
    assert_eq!(g.ball.y, 17);
    assert_eq!(g.ball.vy, -1);
}

#[test]
fn left_exit_scores_for_player_two() {
    let mut g = local_game();
    g.left.bar_position = 0;
    g.ball.x = 2;
    g.ball.y = 12;
    g.ball.vx = -3;
    g.scored_keep_display = true;
    assert_eq!(g.advance_ball(7, false), None);
    assert_eq!(g.right.score, 1);
    assert_eq!(g.left.score, 0);
    assert_eq!(g.ball.x, 18);
    assert_eq!(g.ball.y, 7);
    assert_eq!(g.ball.vx, -3);
    assert!(!g.scored_keep_display);
}

#[test]
fn right_exit_scores_for_player_one() {
    let mut g = local_game();
    g.right.bar_position = 0;
    g.ball.x = 35;
    g.ball.y = 12;
    g.ball.vx = 3;
    assert_eq!(g.advance_ball(4, true), None);
    assert_eq!(g.left.score, 1);
    assert_eq!(g.ball.vx, 3);
}

#[test]
fn missed_ball_is_held_one_frame_at_goal_line() {
    let mut g = local_game();
    g.left.bar_position = 0;
    g.ball.x = 4;
    g.ball.y = 12;
    g.ball.vx = -2;
    g.advance_ball(5, true);
    assert!(g.scored_keep_display);
    assert_eq!(g.ball.x, 2);
    assert_eq!(g.right.score, 0);
    g.advance_ball(5, true);
    assert_eq!(g.right.score, 1);
}

#[test]
fn random_resets_serve_sideways_within_walls() {
    let mut seen_left = false;
    let mut seen_right = false;
    let mut rows = std::collections::BTreeSet::new();
    for _ in 0..200 {
        let mut g = local_game();
        g.left.bar_position = 0;
        g.ball.x = 2;
        g.ball.y = 12;
        g.ball.vx = -3;
        g.update_ball_position();
        assert_eq!(g.right.score, 1);
        assert!(g.ball.vx == 3 || g.ball.vx == -3);
        assert!(g.ball.y >= 1 && g.ball.y < 17);
        rows.insert(g.ball.y);
        seen_left |= g.ball.vx < 0;
        seen_right |= g.ball.vx > 0;
    }
    assert!(seen_left && seen_right);
    assert!(rows.len() > 3);
}

#[test]
fn tiny_court_does_not_move_ball() {
    let mut g = Game::new(["a", "b"], area(6, 4), GameType::ScreenSaver, None);
    let (x, y) = (g.ball.x, g.ball.y);
    assert_eq!(g.update_ball_position(), None);
    assert_eq!((g.ball.x, g.ball.y), (x, y));
}

#[test]
fn power_move_in_window_boosts_ball() {
    let mut g = Game::new(["a", "b"], area(40, 20), GameType::WithNetwork, Some(100));
    g.left.bar_position = 5;
    g.ball.x = 3;
    g.ball.y = 6;
    g.ball.vx = -3;
    g.power_move(0, 1234);
    assert_eq!(g.ball.vx, 6);
    assert!(g.ball.is_powered);
    assert_eq!(g.left.power_moves_left, 9);
    assert_eq!(g.left.last_power_used_at, Some(1234));
}

#[test]
fn power_move_right_player_in_window() {
    let mut g = Game::new(["a", "b"], area(40, 20), GameType::WithNetwork, Some(0));
    g.right.bar_position = 5;
    g.ball.x = 30;
    g.ball.y = 6;
    g.ball.vx = 3;
    g.power_move(1, 7);
    assert_eq!(g.ball.vx, -6);
    assert_eq!(g.right.power_moves_left, 9);
}

#[test]
fn power_move_outside_window_does_nothing() {
    let mut g = Game::new(["a", "b"], area(40, 20), GameType::WithNetwork, Some(100));
    g.left.bar_position = 5;
    g.ball.x = 10;
    g.ball.y = 6;
    g.ball.vx = -3;
    g.power_move(0, 1);
    assert_eq!(g.ball.vx, -3);
    assert_eq!(g.left.power_moves_left, 10);
    g.ball.x = 3;
    g.ball.vx = 3;
    g.power_move(0, 1);
    assert_eq!(g.ball.vx, 3);
}

#[test]
fn power_move_without_charges_changes_nothing() {
    let mut g = Game::new(["a", "b"], area(40, 20), GameType::WithNetwork, Some(100));
    g.left.bar_position = 5;
    g.left.power_moves_left = 0;
    g.ball.x = 3;
    g.ball.y = 6;
    g.ball.vx = -3;
    for _ in 0..3 {
        g.power_move(0, 99);
    }
    assert_eq!(g.ball.vx, -3);
    assert!(!g.ball.is_powered);
    assert_eq!(g.left.power_moves_left, 0);
    assert_eq!(g.left.last_power_used_at, None);
}

#[test]
fn frame_interval_follows_difficulty() {
    let g = Game::new(["a", "b"], area(40, 20), GameType::ScreenSaver, Some(100));
    assert_eq!(g.frame_interval_ms(), 25);
    assert!(g.frame_due(25));
    assert!(!g.frame_due(24));
    let g = Game::new(["a", "b"], area(40, 20), GameType::ScreenSaver, Some(0));
    assert_eq!(g.frame_interval_ms(), 67);
    let g = Game::new(["a", "b"], area(40, 20), GameType::ScreenSaver, Some(200));
    assert_eq!(g.frame_interval_ms(), 15);
    let g = Game::new(["a", "b"], area(40, 20), GameType::ScreenSaver, Some(120));
    assert_eq!(g.frame_interval_ms(), 22);
}

#[test]
fn network_game_has_no_local_physics() {
    let mut g = Game::new(["a", "b"], area(40, 20), GameType::WithNetwork, None);
    let x = g.ball.x;
    assert_eq!(g.step_frame(100), None);
    assert_eq!(g.ball.x, x);
}
