use ballgame::menu::{menu_item, menu_labels, run_menu_system, MenuItem, MenuKeys};
use ballgame::settings::{Settings_balls, Settings_camera_system, Settings_log, Settings_players};
use ballgame::state::AppState;
use ballgame::visibility::Visibility;

struct Setup {
    pointer: usize,
    balls: Settings_balls,
    players: Settings_players,
    log: Settings_log,
    camera: Settings_camera_system,
}

fn setup(pointer: usize) -> Setup {
    Setup {
        pointer,
        balls: Settings_balls(true),
        players: Settings_players(2),
        log: Settings_log(true),
        camera: Settings_camera_system(false),
    }
}

fn keys(up: bool, down: bool, select: bool) -> MenuKeys {
    MenuKeys { up, down, select }
}

fn step(s: &mut Setup, k: MenuKeys) -> ballgame::menu::MenuOutcome {
    run_menu_system(&mut s.pointer, 5, k, &mut s.balls, &mut s.players, &mut s.log, &mut s.camera)
}

#[test]
fn menu_labels_start_as_built() {
    let labels = menu_labels();
    assert_eq!(labels, vec!["set 1 player", "reset position", "balls (off)", "log (showing)", "cam"]);
}

#[test]
fn menu_item_positions() {
    assert_eq!(menu_item(0), Some(MenuItem::OnePlayer));
    assert_eq!(menu_item(1), Some(MenuItem::ResetPosition));
    assert_eq!(menu_item(2), Some(MenuItem::Balls));
    assert_eq!(menu_item(3), Some(MenuItem::Log));
    assert_eq!(menu_item(4), Some(MenuItem::Camera));
    assert_eq!(menu_item(5), None);
}

#[test]
fn menu_up_wraps_to_bottom() {
    let mut s = setup(0);
    let o = step(&mut s, keys(true, false, false));
    assert_eq!(s.pointer, 4);
    assert_eq!(o.marked, Some(4));
    assert_eq!(o.next_state, None);
    assert!(o.relabel.is_none());
}

#[test]
fn menu_down_wraps_to_top() {
    let mut s = setup(4);
    let o = step(&mut s, keys(false, true, false));
    assert_eq!(s.pointer, 0);
    assert_eq!(o.marked, Some(0));
}

#[test]
fn menu_up_then_down_restores_pointer() {
    for p in 0..5 {
        let mut s = setup(p);
        step(&mut s, keys(true, false, false));
        step(&mut s, keys(false, true, false));
        assert_eq!(s.pointer, p);
    }
}

#[test]
fn menu_up_and_down_together_cancel() {
    let mut s = setup(2);
    step(&mut s, keys(true, true, false));
    assert_eq!(s.pointer, 2);
}

#[test]
fn menu_select_one_player_resets() {
    let mut s = setup(0);
    let o = step(&mut s, keys(false, false, true));
    assert_eq!(s.players, Settings_players(1));
    assert_eq!(o.next_state, Some(AppState::Reset));
    assert!(o.relabel.is_none());
    assert_eq!(o.log_display, None);
}

#[test]
fn menu_select_reset_position() {
    let mut s = setup(1);
    let o = step(&mut s, keys(false, false, true));
    assert_eq!(s.players, Settings_players(2));
    assert_eq!(o.next_state, Some(AppState::Reset));
}

#[test]
fn menu_toggle_balls_twice_restores() {
    let mut s = setup(2);
    let o = step(&mut s, keys(false, false, true));
    assert_eq!(s.balls, Settings_balls(false));
    assert_eq!(o.relabel.as_deref(), Some("balls (off)"));
    let o = step(&mut s, keys(false, false, true));
    assert_eq!(s.balls, Settings_balls(true));
    assert_eq!(o.relabel.as_deref(), Some("balls (on)"));
    assert_eq!(o.next_state, None);
}

#[test]
fn menu_toggle_log_hides_and_shows_display() {
    let mut s = setup(3);
    let o = step(&mut s, keys(false, false, true));
    assert_eq!(s.log, Settings_log(false));
    assert_eq!(o.relabel.as_deref(), Some("log (hiding)"));
    assert_eq!(o.log_display, Some(Visibility::Hidden));
    let o = step(&mut s, keys(false, false, true));
    assert_eq!(s.log, Settings_log(true));
    assert_eq!(o.relabel.as_deref(), Some("log (showing)"));
    assert_eq!(o.log_display, Some(Visibility::Visible));
}

#[test]
fn menu_toggle_camera_returns_to_game() {
    let mut s = setup(4);
    let o = step(&mut s, keys(false, false, true));
    assert_eq!(s.camera, Settings_camera_system(true));
    assert_eq!(o.next_state, Some(AppState::InGame));
}

#[test]
fn menu_select_after_moving_uses_new_position() {
    let mut s = setup(1);
    let o = step(&mut s, keys(false, true, true));
    assert_eq!(s.pointer, 2);
    assert_eq!(s.balls, Settings_balls(false));
    assert_eq!(o.marked, Some(2));
}

#[test]
fn menu_pointer_off_menu_does_nothing() {
    let mut s = setup(7);
    let o = step(&mut s, keys(false, false, true));
    assert_eq!(s.pointer, 7);
    assert_eq!(o.marked, None);
    assert_eq!(o.next_state, None);
    assert_eq!(s.balls, Settings_balls(true));
}

#[test]
fn menu_empty_down_moves_off() {
    let mut pointer = 0usize;
    let mut b = Settings_balls(true);
    let mut p = Settings_players(2);
    let mut l = Settings_log(true);
    let mut c = Settings_camera_system(false);
    let o = run_menu_system(&mut pointer, 0, keys(false, true, true), &mut b, &mut p, &mut l, &mut c);
    assert_eq!(pointer, 1);
    assert_eq!(o.marked, None);
}

#[test]
fn menu_extra_entries_do_nothing() {
    let mut pointer = 5usize;
    let mut b = Settings_balls(true);
    let mut p = Settings_players(2);
    let mut l = Settings_log(true);
    let mut c = Settings_camera_system(false);
    let o = run_menu_system(&mut pointer, 6, keys(false, false, true), &mut b, &mut p, &mut l, &mut c);
    assert_eq!(o.marked, Some(5));
    assert_eq!(o.next_state, None);
    assert!(o.relabel.is_none());
    assert_eq!((b, p, l, c), (Settings_balls(true), Settings_players(2), Settings_log(true), Settings_camera_system(false)));
}
