//! Rules of a two-team ball game: the match state machine, the restart
//! rules, the key and gamepad bindings, and the small text formats they use.
pub mod match_game;
pub mod text;
pub mod keys;
pub mod keybindings;
pub mod gamepad;
pub mod match_rules;
pub mod field;
pub mod admin;
pub mod input;
pub mod panel;
