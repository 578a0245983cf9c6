# ballgame

The rules of a small two-player game in which balls drop on the players and
the players bat them at each other. The library in `src/` holds the rules
as verified Verus code:

- `state`: the game states, the pause key, and which per-frame work runs in
  each state;
- `menu`: the pause menu (pointer movement, marking, and what each entry
  does to the settings);
- `settings`: the four game settings and their starting values;
- `input`: key layouts of the two players, reading a player's keys into
  input axes, and the menu and pause keys;
- `direction`: the facing direction of an input vector;
- `player`: what a player does in a frame (swing animation, turning,
  starting a swing, jumping), and how a swing hits balls;
- `balls`: taking the oldest ball out of play, and what a collision causes;
- `log_text`: the scrolling on-screen message log;
- `visibility`: showing and hiding the menu.

`app/` is the program around it: the engine set-up, rendering, physics,
audio, timers, and all floating-point arithmetic (positions, velocities,
zoom, animation fractions). Each system there reads the world, asks the
library, and applies the answer.
