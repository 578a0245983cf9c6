use vstd::prelude::*;

use crate::settings::{Settings_balls, Settings_camera_system};

verus! {

/// The phase the game is in.
#[derive(Clone, Copy, Debug, PartialEq, Eq, Structural)]
pub enum AppState {
    InGame,
    PauseMenu,
    Reset,
}

impl Default for AppState {
    fn default() -> (s: AppState)
        ensures
            s == AppState::InGame,
    {
        AppState::InGame
    }
}

/// The state requested when the pause key is pressed in `state`, or `None`
/// when nothing changes.
pub open spec fn pause_transition_spec(state: AppState, pause_pressed: bool) -> Option<AppState> {
    if !pause_pressed {
        None
    } else {
        match state {
            AppState::InGame => Some(AppState::PauseMenu),
            AppState::PauseMenu => Some(AppState::InGame),
            AppState::Reset => None,
        }
    }
}

/// Decides the state to switch to when the pause key may have been pressed.
/// Pressing pause while the game is resetting is a fault, so that input is
/// left out.
pub fn pause_transition(state: AppState, pause_pressed: bool) -> (next: Option<AppState>)
    requires
        pause_pressed ==> state != AppState::Reset,
    ensures
        next == pause_transition_spec(state, pause_pressed),
{
    if pause_pressed {
        match state {
            AppState::InGame => Some(AppState::PauseMenu),
            AppState::PauseMenu => Some(AppState::InGame),
            AppState::Reset => None,
        }
    } else {
        None
    }
}

/// Once a reset has cleared the field, the game goes back to play.
pub fn reset_next_state() -> (s: AppState)
    ensures
        s == AppState::InGame,
{
    AppState::InGame
}

/// Which groups of per-frame work run.
#[derive(Clone, Copy, Debug, PartialEq, Eq, Structural)]
pub struct ActiveSystems {
    /// Play: input, players, balls, physics, log and damage.
    pub play: bool,
    /// The pause menu.
    pub menu: bool,
    /// The pause key.
    pub pause_key: bool,
    /// Balls dropping on the players and the drop timer display.
    pub ball_drops: bool,
    /// The camera following the players.
    pub follow_camera: bool,
    /// The camera zoomed by hand.
    pub manual_zoom: bool,
}

/// The work that runs in a frame, by the game state and the settings.
pub open spec fn active_systems_spec(state: AppState, balls: bool, camera: bool) -> ActiveSystems {
    let play = state == AppState::InGame;
    ActiveSystems {
        play,
        menu: state == AppState::PauseMenu,
        pause_key: state == AppState::InGame || state == AppState::PauseMenu,
        ball_drops: play && balls,
        follow_camera: play && camera,
        manual_zoom: play && !camera,
    }
}

/// Decides which work runs in a frame: play only in the game, the menu only
/// while paused, the pause key in both; ball drops and the camera modes go by
/// their settings, during play.
pub fn active_systems(state: AppState, balls: Settings_balls, camera: Settings_camera_system) -> (a: ActiveSystems)
    ensures
        a == active_systems_spec(state, balls.0, camera.0),
        a.ball_drops == (state == AppState::InGame && balls.0),
        a.follow_camera == (state == AppState::InGame && camera.0),
        a.manual_zoom == (state == AppState::InGame && !camera.0),
{
    let play = state == AppState::InGame;
    ActiveSystems {
        play,
        menu: state == AppState::PauseMenu,
        pause_key: state == AppState::InGame || state == AppState::PauseMenu,
        ball_drops: play && balls.0,
        follow_camera: play && camera.0,
        manual_zoom: play && !camera.0,
    }
}

/// Play and the menu never run in the same frame, nor do the two camera
/// modes; during play exactly one camera mode runs, and during a reset
/// nothing runs.
pub proof fn lemma_systems_exclusive(state: AppState, balls: bool, camera: bool)
    ensures
        !(active_systems_spec(state, balls, camera).play && active_systems_spec(state, balls, camera).menu),
        !(active_systems_spec(state, balls, camera).follow_camera && active_systems_spec(state, balls, camera).manual_zoom),
        active_systems_spec(state, balls, camera).play ==> (active_systems_spec(state, balls, camera).follow_camera
            || active_systems_spec(state, balls, camera).manual_zoom),
        state == AppState::Reset ==> active_systems_spec(state, balls, camera) == (ActiveSystems {
            play: false,
            menu: false,
            pause_key: false,
            ball_drops: false,
            follow_camera: false,
            manual_zoom: false,
        }),
{
}

/// Balls drop exactly during play with the balls setting on, whatever the
/// camera setting; the camera mode depends only on play and the camera
/// setting, whatever the balls setting.
pub proof fn lemma_settings_independent(state: AppState, balls: bool, camera: bool, other: bool)
    ensures
        active_systems_spec(state, balls, camera).ball_drops == (state == AppState::InGame && balls),
        active_systems_spec(state, balls, camera).ball_drops == active_systems_spec(state, balls, other).ball_drops,
        active_systems_spec(state, balls, camera).follow_camera == active_systems_spec(state, other, camera).follow_camera,
        active_systems_spec(state, balls, camera).manual_zoom == active_systems_spec(state, other, camera).manual_zoom,
        active_systems_spec(state, balls, camera).play ==> (active_systems_spec(state, balls, camera).ball_drops
            <==> balls),
{
}

/// Pausing and pausing again comes back to the same state; the pause key
/// never starts a reset.
pub proof fn lemma_pause_round_trip(state: AppState)
    requires
        state != AppState::Reset,
    ensures
        pause_transition_spec(state, true) is Some,
        pause_transition_spec(pause_transition_spec(state, true)->0, true) == Some(state),
        pause_transition_spec(state, true) != Some(AppState::Reset),
{
}

} // verus!
