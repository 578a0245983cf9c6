use vstd::prelude::*;

use crate::menu::MenuKeys;

verus! {

/// The keyboard keys the game reacts to.
#[derive(Clone, Copy, Debug, PartialEq, Eq, Structural)]
pub enum Key {
    W,
    A,
    S,
    D,
    F,
    G,
    M,
    P,
    Up,
    Down,
    Left,
    Right,
    Comma,
    Period,
}

/// What a player can do with a key.
#[derive(Clone, Copy, Debug, PartialEq, Eq, Structural)]
pub enum Control {
    Right,
    Up,
    Left,
    Down,
    Jump,
    Swing,
}

/// The two key layouts: the first player plays with W, A, S, D and the
/// second with the arrow keys.
#[derive(Clone, Copy, Debug, PartialEq, Eq, Structural)]
pub enum InputMap {
    Wasd,
    Arrow,
}

/// The key bound to a control in a layout.
pub open spec fn key_spec(map: InputMap, control: Control) -> Key {
    match map {
        InputMap::Wasd => match control {
            Control::Right => Key::D,
            Control::Up => Key::W,
            Control::Left => Key::A,
            Control::Down => Key::S,
            Control::Jump => Key::F,
            Control::Swing => Key::G,
        },
        InputMap::Arrow => match control {
            Control::Right => Key::Right,
            Control::Up => Key::Up,
            Control::Left => Key::Left,
            Control::Down => Key::Down,
            Control::Jump => Key::Comma,
            Control::Swing => Key::Period,
        },
    }
}

/// The key bound to `control` in the layout `map`.
pub fn key_for(map: InputMap, control: Control) -> (key: Key)
    ensures
        key == key_spec(map, control),
{
    match map {
        InputMap::Wasd => match control {
            Control::Right => Key::D,
            Control::Up => Key::W,
            Control::Left => Key::A,
            Control::Down => Key::S,
            Control::Jump => Key::F,
            Control::Swing => Key::G,
        },
        InputMap::Arrow => match control {
            Control::Right => Key::Right,
            Control::Up => Key::Up,
            Control::Left => Key::Left,
            Control::Down => Key::Down,
            Control::Jump => Key::Comma,
            Control::Swing => Key::Period,
        },
    }
}

/// No key does two things: within a layout every control has its own key,
/// and the two players share no key.
pub proof fn lemma_keys_distinct(m1: InputMap, c1: Control, m2: InputMap, c2: Control)
    ensures
        key_spec(m1, c1) == key_spec(m2, c2) ==> m1 == m2 && c1 == c2,
{
}

/// The state of one player's keys in this frame: the four direction keys
/// held down, and whether jump and swing were pressed in this frame.
#[derive(Clone, Copy, Debug, PartialEq, Eq, Structural)]
pub struct ControlState {
    pub right: bool,
    pub up: bool,
    pub left: bool,
    pub down: bool,
    pub jump: bool,
    pub swing: bool,
}

/// A player's input for one frame. The direction is kept as two axes, each
/// -1, 0 or 1; the engine turns them into a vector of length 1 (or 0).
#[derive(Clone, Copy, Debug, PartialEq, Eq, Structural)]
pub struct InputHolder {
    pub x: i8,
    pub y: i8,
    pub jump: bool,
    pub swing: bool,
}

/// 1 for a key held down, 0 otherwise.
pub open spec fn held(b: bool) -> int {
    if b {
        1
    } else {
        0
    }
}

/// Reads a player's input from the state of their keys: right counts +1 and
/// left -1 on the horizontal axis, up +1 and down -1 on the vertical one, so
/// opposite keys cancel.
pub fn get_input(keys: ControlState) -> (h: InputHolder)
    ensures
        h.x == held(keys.right) - held(keys.left),
        h.y == held(keys.up) - held(keys.down),
        h.jump == keys.jump,
        h.swing == keys.swing,
        -1 <= h.x <= 1,
        -1 <= h.y <= 1,
{
    let mut h = InputHolder { x: 0, y: 0, jump: false, swing: false };
    if keys.right {
        h.x = h.x + 1;
    }
    if keys.up {
        h.y = h.y + 1;
    }
    if keys.left {
        h.x = h.x - 1;
    }
    if keys.down {
        h.y = h.y - 1;
    }
    if keys.jump {
        h.jump = true;
    }
    if keys.swing {
        h.swing = true;
    }
    h
}

/// Whether `key` is among `keys`.
fn contains_key(keys: &Vec<Key>, key: Key) -> (found: bool)
    ensures
        found == keys@.contains(key),
{
    let mut i: usize = 0;
    while i < keys.len()
        invariant
            i <= keys@.len(),
            forall|j: int| 0 <= j < i ==> keys@[j] != key,
        decreases keys@.len() - i,
    {
        if keys[i] == key {
            assert(keys@[i as int] == key);
            return true;
        }
        i = i + 1;
    }
    false
}

/// The menu keys among the keys pressed in this frame: W or the up arrow
/// moves up, S or the down arrow moves down, F or M selects.
pub fn menu_keys(pressed: &Vec<Key>) -> (keys: MenuKeys)
    ensures
        keys.up == (pressed@.contains(Key::W) || pressed@.contains(Key::Up)),
        keys.down == (pressed@.contains(Key::S) || pressed@.contains(Key::Down)),
        keys.select == (pressed@.contains(Key::F) || pressed@.contains(Key::M)),
{
    let up = contains_key(pressed, Key::W) || contains_key(pressed, Key::Up);
    let down = contains_key(pressed, Key::S) || contains_key(pressed, Key::Down);
    let select = contains_key(pressed, Key::F) || contains_key(pressed, Key::M);
    MenuKeys { up, down, select }
}

/// Whether the pause key P is among the keys pressed in this frame.
pub fn pause_pressed(pressed: &Vec<Key>) -> (p: bool)
    ensures
        p == pressed@.contains(Key::P),
{
    contains_key(pressed, Key::P)
}

} // verus!
