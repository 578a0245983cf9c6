use vstd::prelude::*;

verus! {

/// Whether balls drop on the players.
#[allow(non_camel_case_types)]
#[derive(Clone, Copy, Debug, PartialEq, Eq, Structural)]
pub struct Settings_balls(pub bool);

/// How many players take part (one or two).
#[allow(non_camel_case_types)]
#[derive(Clone, Copy, Debug, PartialEq, Eq, Structural)]
pub struct Settings_players(pub u8);

/// Whether the message log is shown.
#[allow(non_camel_case_types)]
#[derive(Clone, Copy, Debug, PartialEq, Eq, Structural)]
pub struct Settings_log(pub bool);

/// Whether the camera follows the players (`true`) or is zoomed by hand
/// (`false`).
#[allow(non_camel_case_types)]
#[derive(Clone, Copy, Debug, PartialEq, Eq, Structural)]
pub struct Settings_camera_system(pub bool);

/// The settings a new game starts with: two players, balls dropping, the log
/// shown and the camera zoomed by hand.
pub fn initial_settings() -> (s: (Settings_players, Settings_balls, Settings_log, Settings_camera_system))
    ensures
        s.0.0 == 2,
        s.1.0,
        s.2.0,
        !s.3.0,
{
    (Settings_players(2), Settings_balls(true), Settings_log(true), Settings_camera_system(false))
}

} // verus!
