//! The actions that any input source (keyboard, gamepad or network) reports.
use vstd::prelude::*;

verus! {

/// Game actions that an input source can report.
#[derive(Debug, Clone, Copy, PartialEq, Eq, Structural)]
pub enum GameAction {
    MoveUp,
    MoveDown,
    MoveLeft,
    MoveRight,
    Kick,
    StopInteract,
    Dash,
    /// Run.
    Sprint,
    /// Cube mode (toggle).
    Mode,
}

} // verus!
