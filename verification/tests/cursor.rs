use flyline::app_state::Coord;
use flyline::cursor::{
    is_kitty_terminal, parse_backend_env, resolve_backend, Cursor, CursorBackend, CursorEasing, CursorEffect,
    CURSOR_INTENSITY_UNFOCUSED,
};

#[test]
fn parses_terminal_backend_env_values() {
    for value in ["terminal", "TERMINAL", "native", "off", "false", "0"] {
        assert_eq!(
            parse_backend_env(value),
            Some(CursorBackend::Terminal),
            "{value}"
        );
    }
}

#[test]
fn parses_flyline_backend_env_values() {
    for value in ["flyline", "FLYLINE", "custom", "on", "true", "1"] {
        assert_eq!(
            parse_backend_env(value),
            Some(CursorBackend::Flyline),
            "{value}"
        );
    }
}

#[test]
fn ignores_unknown_backend_env_values() {
    assert_eq!(parse_backend_env("banana"), None);
    assert_eq!(parse_backend_env(""), None);
}

#[test]
fn explicit_backend_overrides_environment() {
    assert_eq!(
        resolve_backend(Some(CursorBackend::Flyline), Some("terminal"), true),
        CursorBackend::Flyline
    );
}

#[test]
fn environment_backend_overrides_terminal_detection() {
    assert_eq!(resolve_backend(None, Some("Native"), false), CursorBackend::Terminal);
    assert_eq!(resolve_backend(None, Some("on"), true), CursorBackend::Flyline);
}

#[test]
fn default_backend_depends_on_kitty() {
    assert_eq!(resolve_backend(None, None, true), CursorBackend::Terminal);
    assert_eq!(resolve_backend(None, None, false), CursorBackend::Flyline);
    assert_eq!(resolve_backend(None, Some("banana"), true), CursorBackend::Terminal);
    assert_eq!(resolve_backend(None, Some("banana"), false), CursorBackend::Flyline);
}

#[test]
fn kitty_is_detected_from_term_or_term_program() {
    assert!(is_kitty_terminal("XTERM-KITTY", ""));
    assert!(is_kitty_terminal("xterm-kitty", ""));
    assert!(is_kitty_terminal("xterm-256color", "Kitty"));
    assert!(!is_kitty_terminal("xterm-256color", "WezTerm"));
    assert!(!is_kitty_terminal("kitty", ""));
}

#[test]
fn defaults_of_cursor_settings() {
    assert_eq!(CursorBackend::default(), CursorBackend::Flyline);
    assert_eq!(CursorEasing::default(), CursorEasing::Linear);
    assert_eq!(CursorEffect::default(), CursorEffect::Fade);
    assert_eq!(CURSOR_INTENSITY_UNFOCUSED, 80);
}

#[test]
fn first_move_does_not_animate() {
    let mut c = Cursor::new();
    assert_eq!(c.target_pos(), Coord::new(0, 0));
    c.update_logical_pos(Coord::new(3, 7));
    assert_eq!(c.target_pos(), Coord::new(3, 7));
    assert_eq!(c.prev_pos(), Coord::new(3, 7));
}

#[test]
fn later_moves_start_from_previous_target() {
    let mut c = Cursor::new();
    c.update_logical_pos(Coord::new(1, 1));
    c.update_logical_pos(Coord::new(2, 5));
    assert_eq!(c.prev_pos(), Coord::new(1, 1));
    assert_eq!(c.target_pos(), Coord::new(2, 5));
}

#[test]
fn moving_to_same_target_changes_nothing() {
    let mut c = Cursor::new();
    c.update_logical_pos(Coord::new(1, 1));
    c.update_logical_pos(Coord::new(2, 5));
    let t = c.time_of_change();
    c.update_logical_pos(Coord::new(2, 5));
    assert_eq!(c.prev_pos(), Coord::new(1, 1));
    assert_eq!(c.target_pos(), Coord::new(2, 5));
    assert_eq!(c.time_of_change(), t);
}
