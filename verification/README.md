# kinetic_ball

Rules of a two-team ball game (a HaxBall-like arena game), verified with Verus.

## Layout

- `src/` — the verified library.
  - `match_game.rs` — the match state machine: score, status, touches,
    pending kick-off and set pieces, winner, network snapshot. Times and
    field positions are type parameters that the library carries but never
    computes on; the caller does the clock arithmetic and hands in results.
  - `match_rules.rs` — the host's rules: which team a goal counts for, the
    zone of the ball, the restart after the ball goes out (throw-in, corner,
    goal kick), the set-piece delay, lock and exclusion zone.
  - `keys.rs` — keyboard keys, their names in configuration files, parsing
    those names back, and the labels shown to players.
  - `keybindings.rs` — key and gamepad bindings per action, the gamepad
    bindings stored per gamepad type, and the state of the settings screens.
  - `gamepad.rs` — numbering of gamepad buttons and axes.
  - `field.rs` — map colours written in hexadecimal, and how map lines are
    drawn.
  - `admin.rs`, `panel.rs` — what the admin panel shows.
  - `input.rs` — the actions that input sources report.
  - `text.rs` — string comparison, decimal numbers, removing a word.
- `app/` — ordinary Rust around the library: configuration files (serde,
  RON, `dirs`), bevy and gilrs devices, and the floating-point arithmetic of
  the clock, the field geometry and the drawing of curves.
- `tests/` — tests of the library.

Laws of the library are public `proof fn`s named `law_*` next to the
functions they are about.
