use terminal_pong::game::{Game, GameType, Key};
use terminal_pong::game_theme::GameTheme;
use terminal_pong::helpers::Area;

fn game(kind: GameType) -> Game {
    Game::new(["Ann", "Bob"], Area { x: 0, y: 0, width: 40, height: 20 }, kind, Some(100))
}

#[test]
fn quit_keys_set_exit() {
    let mut g = game(GameType::WithNetwork);
    g.handle_key_event(Key::Char('q'), 0);
    assert!(g.should_exit);
    let mut g = game(GameType::ScreenSaver);
    g.handle_key_event(Key::Esc, 0);
    assert!(g.should_exit);
}

#[test]
fn pause_only_in_local_games() {
    let mut g = game(GameType::ScreenSaver);
    g.handle_key_event(Key::Char('p'), 0);
    assert!(g.is_paused);
    let mut g = game(GameType::WithNetwork);
    g.handle_key_event(Key::Char('p'), 0);
    assert!(!g.is_paused);
}

#[test]
fn pause_menu_keys() {
    let mut g = game(GameType::ScreenSaver);
    g.toggle_pause();
    g.handle_pause_key(Key::Char('d'));
    assert_eq!(g.theme, GameTheme::Solarized);
    g.handle_pause_key(Key::Right);
    assert_eq!(g.difficulty, 110);
    for _ in 0..20 {
        g.handle_pause_key(Key::Left);
    }
    assert_eq!(g.difficulty, 0);
    for _ in 0..30 {
        g.handle_pause_key(Key::Right);
    }
    assert_eq!(g.difficulty, 200);
    g.handle_pause_key(Key::Enter);
    assert!(!g.is_paused);
    g.handle_pause_key(Key::Esc);
    assert!(g.should_exit);
}

#[test]
fn network_keys_drive_local_paddle_and_serve() {
    let mut g = game(GameType::WithNetwork);
    g.set_local_player_index(1);
    let before = g.right.bar_position;
    g.handle_key_event(Key::Char('w'), 0);
    assert_eq!(g.right.bar_position, before - 1);
    g.handle_key_event(Key::Down, 0);
    g.handle_key_event(Key::Char('s'), 0);
    assert_eq!(g.right.bar_position, before + 1);
    assert_eq!(g.left.bar_position, before);
    g.handle_key_event(Key::Char(' '), 0);
    assert!(g.take_pending_serve());
    assert!(!g.take_pending_serve());
}

#[test]
fn game_over_accepts_only_ready_and_quit() {
    let mut g = game(GameType::WithNetwork);
    g.set_local_player_index(0);
    g.is_game_over = true;
    let before = g.left.bar_position;
    g.handle_key_event(Key::Up, 0);
    assert_eq!(g.left.bar_position, before);
    g.handle_key_event(Key::Enter, 0);
    assert!(!g.pending_serve);
    assert!(g.take_pending_ready());
    g.handle_key_event(Key::Esc, 0);
    assert!(g.should_exit);
}

#[test]
fn local_keys_for_both_players() {
    let mut g = game(GameType::WithNetwork);
    let before = g.left.bar_position;
    g.handle_key_event(Key::Up, 0);
    assert_eq!(g.left.bar_position, before - 1);
    g.handle_key_event(Key::Char('s'), 0);
    assert_eq!(g.right.bar_position, before + 1);
}

#[test]
fn computer_paddles_ignore_keys() {
    let mut g = game(GameType::ScreenSaver);
    let before = g.left.bar_position;
    g.handle_key_event(Key::Up, 0);
    g.move_player(1, -1);
    assert_eq!(g.left.bar_position, before);
    assert_eq!(g.right.bar_position, before);
}

#[test]
fn scroll_moves_local_paddle() {
    let mut g = game(GameType::WithNetwork);
    g.set_local_player_index(1);
    let before = g.right.bar_position;
    g.handle_scroll(true);
    assert_eq!(g.right.bar_position, before - 1);
    g.handle_scroll(false);
    g.handle_scroll(false);
    assert_eq!(g.right.bar_position, before + 1);
}

#[test]
fn themes_cycle_back_to_start() {
    let mut t = GameTheme::Monokai;
    for _ in 0..7 {
        t = t.next();
    }
    assert_eq!(t, GameTheme::Monokai);
    assert_eq!(GameTheme::Nord.next(), GameTheme::OneDark);
}
