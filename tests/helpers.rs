use terminal_pong::game_theme::{GameTheme, ThemeColor};
use terminal_pong::helpers::{centered_rect, centered_rect_with_percentage, string_to_char_array, Area};

#[test]
fn short_name_is_padded() {
    let a = string_to_char_array("Ann");
    assert_eq!(a.len(), 16);
    assert_eq!(&a[..3], &['A', 'n', 'n']);
    assert!(a[3..].iter().all(|&c| c == ' '));
}

#[test]
fn long_name_is_truncated() {
    let a = string_to_char_array("abcdefghijklmnopqrstuvwxyz");
    assert_eq!(a.iter().collect::<String>(), "abcdefghijklmnop");
}

#[test]
fn empty_name_is_blank() {
    assert_eq!(string_to_char_array(""), [' '; 16]);
    let a = string_to_char_array("Zoë");
    assert_eq!(a[2], 'ë');
}

#[test]
fn centered_rect_fits_and_centres() {
    assert_eq!(centered_rect(130, 28, 200, 50), Area { x: 35, y: 11, width: 130, height: 28 });
    assert_eq!(centered_rect(130, 28, 100, 20), Area { x: 0, y: 0, width: 100, height: 20 });
}

#[test]
fn centered_rect_by_percentage() {
    assert_eq!(centered_rect_with_percentage(50, 50, 100, 40), Area { x: 25, y: 10, width: 50, height: 20 });
    assert_eq!(centered_rect_with_percentage(50, 10, 100, 40), Area { x: 25, y: 17, width: 50, height: 5 });
    assert_eq!(centered_rect_with_percentage(100, 10, 30, 3), Area { x: 0, y: 0, width: 30, height: 3 });
}

#[test]
fn theme_palettes() {
    let c = GameTheme::Monokai.colors();
    assert_eq!(c.border, ThemeColor::Rgb(249, 38, 114));
    assert_eq!(c.background, ThemeColor::Reset);
    let c = GameTheme::HighContrast.colors();
    assert_eq!(c.background, ThemeColor::Black);
    assert_eq!(c.accent, ThemeColor::Yellow);
    assert_eq!(c.ball, ThemeColor::Rgb(255, 0, 0));
}
