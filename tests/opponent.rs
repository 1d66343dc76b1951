use terminal_pong::ai::{AiDraws, ComputerAi};
use terminal_pong::game::{Game, GameType};
use terminal_pong::helpers::Area;

fn area() -> Area {
    Area { x: 0, y: 0, width: 40, height: 20 }
}

fn calm() -> AiDraws {
    AiDraws { error: 500, oops_roll: 999, oops: 500, extra_roll: 999, extra: 500, jitter: 500 }
}

#[test]
fn controller_tuning_follows_difficulty() {
    let ai = ComputerAi::new(100);
    assert_eq!(ai.reaction_delay, 700);
    assert_eq!(ai.prediction_error, 2000);
    assert_eq!(ai.max_speed, 1650);
    let ai = ComputerAi::new(0);
    assert_eq!((ai.reaction_delay, ai.prediction_error, ai.max_speed), (1200, 4500, 800));
    let ai = ComputerAi::new(200);
    assert_eq!((ai.reaction_delay, ai.prediction_error, ai.max_speed), (200, -500, 2500));
    assert_eq!(ai.fatigue, 0);
    assert_eq!(ai.last_update, None);
}

#[test]
fn controller_drifts_then_tracks() {
    let mut g = Game::new(["a", "b"], area(), GameType::ScreenSaver, Some(100));
    g.ball.x = 20;
    g.ball.y = 10;
    g.ball.vx = 3;
    g.ball.vy = 1;
    // Ball moving away: a small drift towards the middle, no movement yet.
    g.update_computer_player(0, 1000, calm());
    let ai = g.left.computer_ai.unwrap();
    assert_eq!(ai.target_position, 10350);
    assert_eq!(ai.reaction_timer, 700);
    assert_eq!(ai.last_ball_direction, 1);
    assert_eq!(g.left.bar_position, 8);
    // Ball turns towards the paddle; after a second the delay has passed.
    g.ball.vx = -3;
    g.update_computer_player(0, 2000, calm());
    let ai = g.left.computer_ai.unwrap();
    assert_eq!(ai.fatigue, 1000);
    assert_eq!(ai.reaction_timer, 0);
    // projected row 15.666 lies below the paddle's travel, which ends at 13
    assert_eq!(ai.target_position, 13000);
    assert_eq!(ai.current_speed, 1650);
    assert_eq!(g.left.bar_position, 9);
}

#[test]
fn controller_prediction_error_shifts_target() {
    let mut g = Game::new(["a", "b"], Area { x: 0, y: 0, width: 40, height: 40 }, GameType::ScreenSaver, Some(100));
    g.ball.x = 20;
    g.ball.y = 10;
    g.ball.vx = -3;
    g.ball.vy = 1;
    g.update_computer_player(0, 0, calm());
    g.update_computer_player(0, 1000, AiDraws { error: 0, ..calm() });
    // projected 15666, error (0 - 500) * 600 / 1000 = -300
    assert_eq!(g.left.computer_ai.unwrap().target_position, 15366);
}

#[test]
fn tracking_target_stays_in_travel_range() {
    let mut g = Game::new(["a", "b"], area(), GameType::ScreenSaver, Some(100));
    g.ball.x = 20;
    g.ball.y = 17;
    g.ball.vx = -3;
    g.ball.vy = 0;
    g.update_computer_player(0, 0, calm());
    g.update_computer_player(0, 1000, calm());
    let ai = g.left.computer_ai.unwrap();
    assert_eq!(ai.reaction_timer, 0);
    assert_eq!(ai.target_position, 13000);
}

#[test]
fn right_controller_aims_at_its_face() {
    let tall = Area { x: 0, y: 0, width: 40, height: 40 };
    let mut g = Game::new(["a", "b"], tall, GameType::ScreenSaver, Some(100));
    g.ball.x = 20;
    g.ball.y = 10;
    g.ball.vx = 3;
    g.ball.vy = 1;
    g.update_computer_player(1, 0, calm());
    g.update_computer_player(1, 1000, calm());
    // face at column 33: 13 columns at 3 a tick, one row each, 4.333 rows
    assert_eq!(g.right.computer_ai.unwrap().target_position, 14333);
}

#[test]
fn fatigue_grows_to_its_ceiling() {
    let mut g = Game::new(["a", "b"], area(), GameType::ScreenSaver, Some(100));
    let mut last = 0;
    for t in 0..80u64 {
        g.update_computer_player(1, t * 1000, calm());
        let f = g.right.computer_ai.unwrap().fatigue;
        assert!(f >= last);
        assert!(f <= 50_000);
        last = f;
    }
    assert_eq!(last, 50_000);
}

#[test]
fn human_paddle_ignores_controller() {
    let mut g = Game::new(["a", "b"], area(), GameType::WithNetwork, Some(100));
    g.left.bar_position = 3;
    g.ball.vx = -3;
    g.update_computer_player(0, 5000, calm());
    g.run_computer_player(0, 6000);
    assert_eq!(g.left.bar_position, 3);
    assert!(g.left.computer_ai.is_none());
}
