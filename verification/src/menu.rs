use vstd::prelude::*;

use crate::settings::{Settings_balls, Settings_camera_system, Settings_log, Settings_players};
use crate::state::AppState;
use crate::visibility::Visibility;

verus! {

/// The entries of the pause menu, from top to bottom.
#[derive(Clone, Copy, Debug, PartialEq, Eq, Structural)]
pub enum MenuItem {
    OnePlayer,
    ResetPosition,
    Balls,
    Log,
    Camera,
}

/// The entry shown at position `index` of the menu.
pub open spec fn item_at(index: int) -> Option<MenuItem> {
    if index == 0 {
        Some(MenuItem::OnePlayer)
    } else if index == 1 {
        Some(MenuItem::ResetPosition)
    } else if index == 2 {
        Some(MenuItem::Balls)
    } else if index == 3 {
        Some(MenuItem::Log)
    } else if index == 4 {
        Some(MenuItem::Camera)
    } else {
        None
    }
}

/// Text of the balls entry for the given setting.
pub open spec fn balls_label(on: bool) -> Seq<char> {
    if on {
        "balls (on)"@
    } else {
        "balls (off)"@
    }
}

/// Text of the log entry for the given setting.
pub open spec fn log_label(showing: bool) -> Seq<char> {
    if showing {
        "log (showing)"@
    } else {
        "log (hiding)"@
    }
}

/// The menu keys pressed in this frame.
#[derive(Clone, Copy, Debug, PartialEq, Eq, Structural)]
pub struct MenuKeys {
    pub up: bool,
    pub down: bool,
    pub select: bool,
}

/// What the menu asks the engine to do after one frame.
pub struct MenuOutcome {
    /// The entry that gets the selection marker, if the pointer is on one.
    pub marked: Option<usize>,
    /// The state to switch to, if any.
    pub next_state: Option<AppState>,
    /// New text for the marked entry, if it changed.
    pub relabel: Option<String>,
    /// New visibility of the log display, if it changed.
    pub log_display: Option<Visibility>,
}

/// The pointer after the up key: it moves one entry up, wrapping from the
/// top entry to the bottom one.
pub open spec fn pointer_after_up(pointer: int, item_count: int, up: bool) -> int {
    if !up {
        pointer
    } else if pointer == 0 {
        item_count - 1
    } else {
        pointer - 1
    }
}

/// The pointer after the up key and then the down key, which moves one entry
/// down and wraps from the bottom entry to the top one.
pub open spec fn pointer_after_keys(pointer: int, item_count: int, keys: MenuKeys) -> int {
    let p = pointer_after_up(pointer, item_count, keys.up);
    if !keys.down {
        p
    } else if p + 1 == item_count {
        0
    } else {
        p + 1
    }
}

/// The entry chosen in this frame: the one under the pointer when the
/// select key is pressed and the pointer is on the menu.
pub open spec fn menu_choice(pointer: int, item_count: int, keys: MenuKeys) -> Option<MenuItem> {
    let p = pointer_after_keys(pointer, item_count, keys);
    if keys.select && 0 <= p < item_count {
        item_at(p)
    } else {
        None
    }
}

/// A setting after the chosen entry: flipped when `item` was chosen, kept
/// otherwise.
pub open spec fn toggled_if(choice: Option<MenuItem>, item: MenuItem, value: bool) -> bool {
    if choice == Some(item) {
        !value
    } else {
        value
    }
}

/// The state the chosen entry switches to.
pub open spec fn choice_next_state(choice: Option<MenuItem>) -> Option<AppState> {
    match choice {
        Some(MenuItem::OnePlayer) => Some(AppState::Reset),
        Some(MenuItem::ResetPosition) => Some(AppState::Reset),
        Some(MenuItem::Camera) => Some(AppState::InGame),
        _ => None,
    }
}

/// The labels of the menu entries when the menu is built, top to bottom.
pub fn menu_labels() -> (labels: Vec<String>)
    ensures
        labels@.len() == 5,
        labels@[0]@ == "set 1 player"@,
        labels@[1]@ == "reset position"@,
        labels@[2]@ == "balls (off)"@,
        labels@[3]@ == "log (showing)"@,
        labels@[4]@ == "cam"@,
{
    let mut labels: Vec<String> = Vec::new();
    labels.push("set 1 player".to_owned());
    labels.push("reset position".to_owned());
    labels.push("balls (off)".to_owned());
    labels.push("log (showing)".to_owned());
    labels.push("cam".to_owned());
    labels
}

/// The entry at a position of the menu.
pub fn menu_item(index: usize) -> (item: Option<MenuItem>)
    ensures
        item == item_at(index as int),
{
    if index == 0 {
        Some(MenuItem::OnePlayer)
    } else if index == 1 {
        Some(MenuItem::ResetPosition)
    } else if index == 2 {
        Some(MenuItem::Balls)
    } else if index == 3 {
        Some(MenuItem::Log)
    } else if index == 4 {
        Some(MenuItem::Camera)
    } else {
        None
    }
}

/// One frame of the pause menu with `item_count` entries: moves the pointer
/// with the up and down keys, marks the entry under it, and carries out the
/// entry when the select key is pressed.
///
/// The up key on the top entry of an empty menu, and a pointer that would
/// pass the largest `usize`, are faults, so those inputs are left out.
pub fn run_menu_system(
    pointer: &mut usize,
    item_count: usize,
    keys: MenuKeys,
    balls: &mut Settings_balls,
    players: &mut Settings_players,
    log: &mut Settings_log,
    camera: &mut Settings_camera_system,
) -> (outcome: MenuOutcome)
    requires
        keys.up && *old(pointer) == 0 ==> item_count > 0,
        keys.down ==> pointer_after_up(*old(pointer) as int, item_count as int, keys.up) < usize::MAX,
    ensures
        *final(pointer) as int == pointer_after_keys(*old(pointer) as int, item_count as int, keys),
        outcome.marked == (if *final(pointer) < item_count {
            Some(*final(pointer))
        } else {
            None
        }),
        ({
            let choice = menu_choice(*old(pointer) as int, item_count as int, keys);
            &&& final(players).0 == (if choice == Some(MenuItem::OnePlayer) {
                1
            } else {
                old(players).0
            })
            &&& final(balls).0 == toggled_if(choice, MenuItem::Balls, old(balls).0)
            &&& final(log).0 == toggled_if(choice, MenuItem::Log, old(log).0)
            &&& final(camera).0 == toggled_if(choice, MenuItem::Camera, old(camera).0)
            &&& outcome.next_state == choice_next_state(choice)
            &&& (final(balls).0 != old(balls).0 <==> choice == Some(MenuItem::Balls))
            &&& (final(log).0 != old(log).0 <==> choice == Some(MenuItem::Log))
            &&& (final(camera).0 != old(camera).0 <==> choice == Some(MenuItem::Camera))
            &&& (choice == Some(MenuItem::OnePlayer) ==> final(players).0 == 1)
            &&& (choice != Some(MenuItem::OnePlayer) ==> final(players).0 == old(players).0)
            &&& (*old(pointer) < item_count ==> *final(pointer) < item_count)
            &&& (choice == Some(MenuItem::Balls) || choice == Some(MenuItem::Log) || choice is None)
                ==> outcome.next_state is None
            &&& (outcome.next_state == Some(AppState::Reset) <==> (choice == Some(MenuItem::OnePlayer)
                || choice == Some(MenuItem::ResetPosition)))
            &&& (outcome.next_state == Some(AppState::InGame) <==> choice == Some(MenuItem::Camera))
            &&& match choice {
                Some(MenuItem::Balls) => outcome.relabel is Some && outcome.relabel->0@ == balls_label(
                    final(balls).0,
                ),
                Some(MenuItem::Log) => outcome.relabel is Some && outcome.relabel->0@ == log_label(
                    final(log).0,
                ),
                _ => outcome.relabel is None,
            }
            &&& outcome.log_display == (if choice == Some(MenuItem::Log) {
                Some(
                    if final(log).0 {
                        Visibility::Visible
                    } else {
                        Visibility::Hidden
                    },
                )
            } else {
                None
            })
        }),
{
    if keys.up {
        if *pointer == 0 {
            *pointer = item_count;
        }
        *pointer = *pointer - 1;
    }
    if keys.down {
        *pointer = *pointer + 1;
        if *pointer == item_count {
            *pointer = 0;
        }
    }
    let p = *pointer;
    let mut outcome = MenuOutcome { marked: None, next_state: None, relabel: None, log_display: None };
    if p < item_count {
        outcome.marked = Some(p);
        if keys.select {
            match menu_item(p) {
                Some(MenuItem::OnePlayer) => {
                    players.0 = 1;
                    outcome.next_state = Some(AppState::Reset);
                },
                Some(MenuItem::ResetPosition) => {
                    outcome.next_state = Some(AppState::Reset);
                },
                Some(MenuItem::Balls) => {
                    balls.0 = !balls.0;
                    outcome.relabel = Some(
                        if balls.0 {
                            "balls (on)".to_owned()
                        } else {
                            "balls (off)".to_owned()
                        },
                    );
                },
                Some(MenuItem::Log) => {
                    log.0 = !log.0;
                    if log.0 {
                        outcome.log_display = Some(Visibility::Visible);
                        outcome.relabel = Some("log (showing)".to_owned());
                    } else {
                        outcome.log_display = Some(Visibility::Hidden);
                        outcome.relabel = Some("log (hiding)".to_owned());
                    }
                },
                Some(MenuItem::Camera) => {
                    camera.0 = !camera.0;
                    outcome.next_state = Some(AppState::InGame);
                },
                None => {},
            }
        }
    }
    outcome
}

/// While the pointer is on the menu, the up and down keys keep it on the
/// menu.
pub proof fn lemma_pointer_stays_on_menu(pointer: int, item_count: int, keys: MenuKeys)
    requires
        0 <= pointer < item_count,
    ensures
        0 <= pointer_after_keys(pointer, item_count, keys) < item_count,
{
}

/// Pressing up and then, in a later frame, down brings the pointer back to
/// where it was; so does down followed by up.
pub proof fn lemma_up_down_undo(pointer: int, item_count: int)
    requires
        0 <= pointer < item_count,
    ensures
        pointer_after_keys(
            pointer_after_keys(pointer, item_count, MenuKeys { up: true, down: false, select: false }),
            item_count,
            MenuKeys { up: false, down: true, select: false },
        ) == pointer,
        pointer_after_keys(
            pointer_after_keys(pointer, item_count, MenuKeys { up: false, down: true, select: false }),
            item_count,
            MenuKeys { up: true, down: false, select: false },
        ) == pointer,
{
}

/// Pressing up and down in the same frame leaves the pointer where it was.
pub proof fn lemma_up_and_down_cancel(pointer: int, item_count: int)
    requires
        0 <= pointer < item_count,
    ensures
        pointer_after_keys(pointer, item_count, MenuKeys { up: true, down: true, select: false })
            == pointer,
{
}

/// Selecting without moving keeps the pointer in place, so selecting the same
/// entry in two frames in a row chooses it both times.
pub proof fn lemma_select_keeps_choice(pointer: int, item_count: int)
    requires
        0 <= pointer < item_count,
    ensures
        pointer_after_keys(pointer, item_count, MenuKeys { up: false, down: false, select: true })
            == pointer,
        menu_choice(pointer, item_count, MenuKeys { up: false, down: false, select: true })
            == item_at(pointer),
{
}

/// Choosing a switch entry twice gives the setting back its first value,
/// and its label with it.
pub proof fn lemma_toggle_twice(item: MenuItem, value: bool)
    ensures
        toggled_if(Some(item), item, toggled_if(Some(item), item, value)) == value,
        balls_label(toggled_if(Some(item), item, toggled_if(Some(item), item, value)))
            == balls_label(value),
        log_label(toggled_if(Some(item), item, toggled_if(Some(item), item, value)))
            == log_label(value),
{
}

/// Two different settings give two different labels, so the label always
/// tells the setting.
pub proof fn lemma_labels_tell_setting(a: bool, b: bool)
    requires
        a != b,
    ensures
        balls_label(a) != balls_label(b),
        log_label(a) != log_label(b),
{
    reveal_strlit("balls (on)");
    reveal_strlit("balls (off)");
    reveal_strlit("log (showing)");
    reveal_strlit("log (hiding)");
    assert(balls_label(true).len() != balls_label(false).len());
    assert(log_label(true).len() != log_label(false).len());
}

/// Only the player-count, reset and camera entries change the game state:
/// the first two start a reset, the camera entry returns to play, and the
/// balls and log entries (or no choice) leave the game in the menu.
pub proof fn lemma_menu_state_changes(pointer: int, item_count: int, keys: MenuKeys)
    ensures
        ({
            let choice = menu_choice(pointer, item_count, keys);
            &&& (choice == Some(MenuItem::Balls) || choice == Some(MenuItem::Log) || choice is None)
                ==> choice_next_state(choice) is None
            &&& (choice_next_state(choice) == Some(AppState::Reset) <==> (choice == Some(
                MenuItem::OnePlayer,
            ) || choice == Some(MenuItem::ResetPosition)))
            &&& (choice_next_state(choice) == Some(AppState::InGame) <==> choice == Some(
                MenuItem::Camera,
            ))
            &&& choice_next_state(choice) != Some(AppState::PauseMenu)
        }),
{
}

} // verus!
