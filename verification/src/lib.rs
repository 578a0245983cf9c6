//! Game rules of a two-player ball-batting game: the application state
//! machine, the pause menu, keyboard input, player and ball decisions, and
//! the on-screen log. The rendering, physics and audio engine drive these
//! functions from the outside and hand them plain values.

pub mod balls;
pub mod direction;
pub mod input;
pub mod log_text;
pub mod menu;
pub mod player;
pub mod settings;
pub mod state;
pub mod visibility;
