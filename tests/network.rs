use terminal_pong::court::{court_to_row, row_to_court, to_cells};
use terminal_pong::game::{Game, GameType};
use terminal_pong::helpers::Area;
use terminal_pong::network::{
    same_text, BallMsg, GameStatus, Inbound, NetworkConfig, NetworkEvent, StateMsg, Topics,
};

fn net_game(local: usize) -> Game {
    let mut g = Game::new(["a", "b"], Area { x: 0, y: 0, width: 40, height: 20 }, GameType::WithNetwork, None);
    g.set_local_player_index(local);
    g
}

fn ball(x: i32, y: i32) -> BallMsg {
    BallMsg { x, y, dx: 500, dy: -250, timestamp: 1 }
}

#[test]
fn court_rows_round_trip_at_ends_and_middle() {
    for m in [1u16, 10, 13, 14, 26] {
        assert_eq!(row_to_court(court_to_row(0, m), m), 0);
        assert_eq!(row_to_court(court_to_row(9000, m), m), 9000);
    }
    assert_eq!(court_to_row(4500, 14), 7);
    assert_eq!(row_to_court(7, 14), 4500);
    // an odd number of rows: within one row's worth of court units
    let back = row_to_court(court_to_row(4500, 13), 13);
    assert_eq!(back, 4153);
    assert!((4500 - back) * 13 < 9000 + 13);
}

#[test]
fn court_mapping_clamps() {
    assert_eq!(court_to_row(-300, 13), 0);
    assert_eq!(court_to_row(12_000, 13), 13);
    assert_eq!(to_cells(20_000, 40_000, 36), 18);
    assert_eq!(to_cells(50_000, 40_000, 36), 36);
}

#[test]
fn opponent_paddle_maps_onto_rows() {
    let mut g = net_game(0);
    g.apply_network_event(&NetworkEvent::OpponentPaddle(9000));
    assert_eq!(g.right.bar_position, 13);
    g.apply_network_event(&NetworkEvent::OpponentPaddle(-5));
    assert_eq!(g.right.bar_position, 0);
    g.apply_network_event(&NetworkEvent::OpponentPaddle(4500));
    assert_eq!(g.right.bar_position, 6);
    assert_eq!(g.left.bar_position, 8);
}

#[test]
fn opponent_paddle_on_flat_court_is_ignored() {
    let mut g = Game::new(["a", "b"], Area { x: 0, y: 0, width: 40, height: 2 }, GameType::WithNetwork, None);
    g.set_local_player_index(1);
    let before = g.left.bar_position;
    g.set_opponent_paddle(0, 9000);
    assert_eq!(g.left.bar_position, before);
}

#[test]
fn second_ball_sample_is_drawn_exactly() {
    let mut g = net_game(0);
    assert!(!g.has_ball_data);
    g.apply_network_event(&NetworkEvent::BallUpdate(ball(1000, 2000)));
    g.apply_network_event(&NetworkEvent::BallUpdate(ball(30_000, 9_500)));
    assert!(g.has_ball_data);
    assert_eq!((g.ball.render_x, g.ball.render_y), (30_000, 9_500));
    assert_eq!((g.ball.net_x, g.ball.net_y, g.ball.net_dx, g.ball.net_dy), (30_000, 9_500, 500, -250));
}

#[test]
fn ball_cell_scales_court_units() {
    let mut g = net_game(0);
    g.set_ball_from_network(20_000, 6_000, 0, 0);
    assert_eq!(g.ball_cell(), (18, 9));
    let local = Game::new(["a", "b"], Area { x: 0, y: 0, width: 40, height: 20 }, GameType::ScreenSaver, None);
    assert_eq!(local.ball_cell(), (18, 8));
}

#[test]
fn state_updates_overwrite_scores_and_status() {
    let mut g = net_game(1);
    g.left.score = 9;
    g.apply_network_event(&NetworkEvent::StateUpdate(StateMsg { p1_score: 2, p2_score: 5, status: GameStatus::Playing, timestamp: 3 }));
    assert_eq!((g.left.score, g.right.score), (2, 5));
    assert!(!g.is_game_over);
    g.apply_network_event(&NetworkEvent::StateUpdate(StateMsg { p1_score: 7, p2_score: 5, status: GameStatus::Ended, timestamp: 4 }));
    assert!(g.is_game_over);
    g.apply_network_event(&NetworkEvent::StateUpdate(StateMsg { p1_score: 7, p2_score: 5, status: GameStatus::Waiting, timestamp: 5 }));
    assert!(g.is_game_over);
    g.pending_ready = true;
    g.apply_network_event(&NetworkEvent::StateUpdate(StateMsg { p1_score: 0, p2_score: 0, status: GameStatus::Playing, timestamp: 6 }));
    assert!(!g.is_game_over);
    assert!(!g.pending_ready);
    assert_eq!((g.left.score, g.right.score), (0, 0));
}

#[test]
fn connection_events_only_set_indicator() {
    let mut g = net_game(0);
    g.apply_network_event(&NetworkEvent::Connected);
    assert!(g.connected);
    g.apply_network_event(&NetworkEvent::Disconnected);
    assert!(!g.connected);
    assert!(!g.should_exit && !g.is_game_over);
}

#[test]
fn paddle_position_is_published_on_change_only() {
    let mut g = net_game(0);
    assert_eq!(g.get_paddle_physics_y(0), 5538);
    assert_eq!(g.paddle_update(), Some(5538));
    assert_eq!(g.paddle_update(), None);
    g.move_player(0, -1);
    assert_eq!(g.paddle_update(), Some(6230));
    let mut local = Game::new(["a", "b"], Area { x: 0, y: 0, width: 40, height: 20 }, GameType::WithNetwork, None);
    assert_eq!(local.paddle_update(), None);
}

#[test]
fn topics_are_namespaced_by_game() {
    let t = Topics::new("abc");
    assert_eq!(t.game_id, "abc");
    assert_eq!(t.p1_paddle(), "pong/game/abc/p1/paddle");
    assert_eq!(t.p2_paddle(), "pong/game/abc/p2/paddle");
    assert_eq!(t.ball(), "pong/game/abc/ball");
    assert_eq!(t.state(), "pong/game/abc/state");
    assert_eq!(t.join(), "pong/game/abc/join");
    assert_eq!(t.serve(), "pong/game/abc/serve");
    assert_eq!(t.restart(), "pong/game/abc/restart");
    assert_eq!(t.ready(), "pong/game/abc/ready");
}

#[test]
fn default_network_config() {
    let c = NetworkConfig::default();
    assert_eq!(c.broker_host, "3.141.116.27");
    assert_eq!(c.broker_port, 1883);
    assert_eq!(c.game_id, "demo");
    assert_eq!(c.player, 1);
    assert_eq!(c.username.as_deref(), Some("raptor"));
    assert!(c.password.is_some());
}

#[test]
fn paddle_topics_follow_player_number() {
    let t = Topics::new("g7");
    assert_eq!(t.own_paddle(1), "pong/game/g7/p1/paddle");
    assert_eq!(t.opponent_paddle(1), "pong/game/g7/p2/paddle");
    assert_eq!(t.own_paddle(2), "pong/game/g7/p2/paddle");
    assert_eq!(t.opponent_paddle(2), "pong/game/g7/p1/paddle");
}

#[test]
fn inbound_topics_are_classified() {
    let t = Topics::new("g7");
    assert_eq!(t.classify(1, "pong/game/g7/p2/paddle"), Some(Inbound::OpponentPaddle));
    assert_eq!(t.classify(1, "pong/game/g7/p1/paddle"), None);
    assert_eq!(t.classify(2, "pong/game/g7/p1/paddle"), Some(Inbound::OpponentPaddle));
    assert_eq!(t.classify(2, "pong/game/g7/ball"), Some(Inbound::Ball));
    assert_eq!(t.classify(1, "pong/game/g7/state"), Some(Inbound::State));
    assert_eq!(t.classify(1, "pong/game/other/state"), None);
    assert_eq!(t.classify(1, ""), None);
}

#[test]
fn text_comparison() {
    assert!(same_text("abc", "abc"));
    assert!(!same_text("abc", "abd"));
    assert!(!same_text("abc", "ab"));
    assert!(same_text("", ""));
}
