use ballgame::direction::{Direction, DirectionError};
use ballgame::input::{get_input, key_for, menu_keys, pause_pressed, Control, ControlState, InputHolder, InputMap, Key};

fn state(right: bool, up: bool, left: bool, down: bool, jump: bool, swing: bool) -> ControlState {
    ControlState { right, up, left, down, jump, swing }
}

#[test]
fn wasd_layout() {
    assert_eq!(key_for(InputMap::Wasd, Control::Right), Key::D);
    assert_eq!(key_for(InputMap::Wasd, Control::Up), Key::W);
    assert_eq!(key_for(InputMap::Wasd, Control::Left), Key::A);
    assert_eq!(key_for(InputMap::Wasd, Control::Down), Key::S);
    assert_eq!(key_for(InputMap::Wasd, Control::Jump), Key::F);
    assert_eq!(key_for(InputMap::Wasd, Control::Swing), Key::G);
}

#[test]
fn arrow_layout() {
    assert_eq!(key_for(InputMap::Arrow, Control::Right), Key::Right);
    assert_eq!(key_for(InputMap::Arrow, Control::Up), Key::Up);
    assert_eq!(key_for(InputMap::Arrow, Control::Left), Key::Left);
    assert_eq!(key_for(InputMap::Arrow, Control::Down), Key::Down);
    assert_eq!(key_for(InputMap::Arrow, Control::Jump), Key::Comma);
    assert_eq!(key_for(InputMap::Arrow, Control::Swing), Key::Period);
}

#[test]
fn no_key_shared() {
    let maps = [InputMap::Wasd, InputMap::Arrow];
    let controls = [Control::Right, Control::Up, Control::Left, Control::Down, Control::Jump, Control::Swing];
    for m1 in maps {
        for c1 in controls {
            for m2 in maps {
                for c2 in controls {
                    if key_for(m1, c1) == key_for(m2, c2) {
                        assert!(m1 == m2 && c1 == c2);
                    }
                }
            }
        }
    }
}

#[test]
fn input_axes() {
    assert_eq!(get_input(state(true, false, false, false, false, false)), InputHolder { x: 1, y: 0, jump: false, swing: false });
    assert_eq!(get_input(state(false, true, true, false, true, false)), InputHolder { x: -1, y: 1, jump: true, swing: false });
    assert_eq!(get_input(state(false, false, false, true, false, true)), InputHolder { x: 0, y: -1, jump: false, swing: true });
}

#[test]
fn opposite_keys_cancel() {
    assert_eq!(get_input(state(true, true, true, true, false, false)), InputHolder { x: 0, y: 0, jump: false, swing: false });
}

#[test]
fn menu_key_bindings() {
    let k = menu_keys(&vec![Key::Up, Key::M]);
    assert!(k.up && !k.down && k.select);
    let k = menu_keys(&vec![Key::S]);
    assert!(!k.up && k.down && !k.select);
    let k = menu_keys(&vec![Key::W, Key::Down, Key::F]);
    assert!(k.up && k.down && k.select);
    let k = menu_keys(&vec![Key::G, Key::Comma]);
    assert!(!k.up && !k.down && !k.select);
}

#[test]
fn pause_key() {
    assert!(pause_pressed(&vec![Key::A, Key::P]));
    assert!(!pause_pressed(&vec![Key::A]));
    assert!(!pause_pressed(&vec![]));
}

#[test]
fn direction_from_axes() {
    assert_eq!(Direction::try_from_axes(1, 0), Ok(Direction::Right));
    assert_eq!(Direction::try_from_axes(-1, 0), Ok(Direction::Left));
    assert_eq!(Direction::try_from_axes(0, 1), Ok(Direction::Up));
    assert_eq!(Direction::try_from_axes(0, -1), Ok(Direction::Down));
}

#[test]
fn direction_diagonals_go_sideways() {
    assert_eq!(Direction::try_from_axes(1, 1), Ok(Direction::Right));
    assert_eq!(Direction::try_from_axes(-1, 1), Ok(Direction::Left));
    assert_eq!(Direction::try_from_axes(-1, -1), Ok(Direction::Left));
    assert_eq!(Direction::try_from_axes(2, -3), Ok(Direction::Down));
}

#[test]
fn direction_of_zero_fails() {
    assert_eq!(Direction::try_from_axes(0, 0), Err(DirectionError::ZeroVector));
}

#[test]
fn direction_extremes() {
    assert_eq!(Direction::try_from_axes(i32::MIN, i32::MAX), Ok(Direction::Left));
    assert_eq!(Direction::try_from_axes(i32::MAX, i32::MIN), Ok(Direction::Down));
}

#[test]
fn direction_unit_round_trip() {
    for d in [Direction::Right, Direction::Up, Direction::Left, Direction::Down] {
        let (x, y) = d.unit();
        assert_eq!(Direction::try_from_axes(x as i32, y as i32), Ok(d));
    }
    assert_eq!(Direction::Left.unit(), (-1, 0));
    assert_eq!(Direction::Up.unit(), (0, 1));
}

#[test]
fn direction_ignores_length() {
    for (x, y) in [(3, 1), (-2, 5), (0, -4), (7, -7)] {
        assert_eq!(Direction::try_from_axes(x * 13, y * 13), Direction::try_from_axes(x, y));
    }
}
