use ballgame::settings::{initial_settings, Settings_balls, Settings_camera_system, Settings_log, Settings_players};
use ballgame::state::{active_systems, pause_transition, reset_next_state, AppState};
use ballgame::visibility::{hide_menu, show_menu, Visibility};

#[test]
fn pause_from_game_opens_menu() {
    assert_eq!(pause_transition(AppState::InGame, true), Some(AppState::PauseMenu));
}

#[test]
fn pause_from_menu_returns_to_game() {
    assert_eq!(pause_transition(AppState::PauseMenu, true), Some(AppState::InGame));
}

#[test]
fn pause_twice_round_trip() {
    let s = pause_transition(AppState::InGame, true).unwrap();
    assert_eq!(pause_transition(s, true), Some(AppState::InGame));
}

#[test]
fn no_pause_key_no_change() {
    assert_eq!(pause_transition(AppState::InGame, false), None);
    assert_eq!(pause_transition(AppState::Reset, false), None);
}

#[test]
fn default_state_is_game() {
    assert_eq!(AppState::default(), AppState::InGame);
    assert_eq!(reset_next_state(), AppState::InGame);
}

#[test]
fn initial_settings_values() {
    let (p, b, l, c) = initial_settings();
    assert_eq!(p, Settings_players(2));
    assert_eq!(b, Settings_balls(true));
    assert_eq!(l, Settings_log(true));
    assert_eq!(c, Settings_camera_system(false));
}

#[test]
fn systems_in_game() {
    let a = active_systems(AppState::InGame, Settings_balls(true), Settings_camera_system(false));
    assert!(a.play && !a.menu && a.pause_key && a.ball_drops && !a.follow_camera && a.manual_zoom);
    let a = active_systems(AppState::InGame, Settings_balls(false), Settings_camera_system(true));
    assert!(a.play && !a.ball_drops && a.follow_camera && !a.manual_zoom);
}

#[test]
fn systems_in_menu_and_reset() {
    let a = active_systems(AppState::PauseMenu, Settings_balls(true), Settings_camera_system(true));
    assert!(!a.play && a.menu && a.pause_key && !a.ball_drops && !a.follow_camera && !a.manual_zoom);
    let a = active_systems(AppState::Reset, Settings_balls(true), Settings_camera_system(true));
    assert!(!a.play && !a.menu && !a.pause_key && !a.ball_drops && !a.follow_camera && !a.manual_zoom);
}

#[test]
fn show_and_hide_menu_nodes() {
    let mut v = vec![Visibility::Hidden, Visibility::Inherited, Visibility::Visible];
    show_menu(&mut v);
    assert_eq!(v, vec![Visibility::Visible, Visibility::Inherited, Visibility::Visible]);
    hide_menu(&mut v);
    assert_eq!(v, vec![Visibility::Hidden, Visibility::Inherited, Visibility::Hidden]);
}

#[test]
fn hide_after_show_restores_non_visible() {
    let start = vec![Visibility::Hidden, Visibility::Inherited];
    let mut v = start.clone();
    show_menu(&mut v);
    hide_menu(&mut v);
    assert_eq!(v, start);
}

#[test]
fn show_is_idempotent() {
    let mut v = vec![Visibility::Hidden, Visibility::Visible];
    show_menu(&mut v);
    let once = v.clone();
    show_menu(&mut v);
    assert_eq!(v, once);
}
