//! Numbering of gamepad buttons and axes, as stored in gamepad bindings.
use vstd::prelude::*;

verus! {

/// A gamepad button, by its place on a standard pad.
#[derive(Debug, Clone, Copy, PartialEq, Eq, Hash, Structural)]
pub enum GamepadButton {
    South,
    East,
    North,
    West,
    C,
    Z,
    LeftTrigger,
    LeftTrigger2,
    RightTrigger,
    RightTrigger2,
    Select,
    Start,
    Mode,
    LeftThumb,
    RightThumb,
    DPadUp,
    DPadDown,
    DPadLeft,
    DPadRight,
    Unknown,
}

/// A gamepad axis, by its place on a standard pad.
#[derive(Debug, Clone, Copy, PartialEq, Eq, Hash, Structural)]
pub enum GamepadAxis {
    LeftStickX,
    LeftStickY,
    LeftZ,
    RightStickX,
    RightStickY,
    RightZ,
    DPadX,
    DPadY,
    Unknown,
}

/// The number of a standard button; none for an unknown one.
pub open spec fn button_index(button: GamepadButton) -> Option<u8> {
    match button {
        GamepadButton::South => Some(0),
        GamepadButton::East => Some(1),
        GamepadButton::North => Some(2),
        GamepadButton::West => Some(3),
        GamepadButton::C => Some(4),
        GamepadButton::Z => Some(5),
        GamepadButton::LeftTrigger => Some(6),
        GamepadButton::LeftTrigger2 => Some(7),
        GamepadButton::RightTrigger => Some(8),
        GamepadButton::RightTrigger2 => Some(9),
        GamepadButton::Select => Some(10),
        GamepadButton::Start => Some(11),
        GamepadButton::Mode => Some(12),
        GamepadButton::LeftThumb => Some(13),
        GamepadButton::RightThumb => Some(14),
        GamepadButton::DPadUp => Some(15),
        GamepadButton::DPadDown => Some(16),
        GamepadButton::DPadLeft => Some(17),
        GamepadButton::DPadRight => Some(18),
        GamepadButton::Unknown => None,
    }
}

/// The number of a standard axis; none for an unknown one.
pub open spec fn axis_index(axis: GamepadAxis) -> Option<u8> {
    match axis {
        GamepadAxis::LeftStickX => Some(0),
        GamepadAxis::LeftStickY => Some(1),
        GamepadAxis::LeftZ => Some(2),
        GamepadAxis::RightStickX => Some(3),
        GamepadAxis::RightStickY => Some(4),
        GamepadAxis::RightZ => Some(5),
        GamepadAxis::DPadX => Some(6),
        GamepadAxis::DPadY => Some(7),
        GamepadAxis::Unknown => None,
    }
}

/// The number of a button reported with the raw event code `raw_code`:
/// the standard number when there is one; otherwise joystick codes from 288
/// (the first trigger button) count from 0, and any other code keeps its
/// last five bits.
pub open spec fn button_code_index(button: GamepadButton, raw_code: u32) -> u8 {
    match button_index(button) {
        Some(i) => i,
        None => if 288 <= raw_code < 320 {
            (raw_code - 288) as u8
        } else {
            (raw_code % 32) as u8
        },
    }
}

/// The number of a standard button.
pub fn gilrs_button_to_idx(button: GamepadButton) -> (r: Option<u8>)
    ensures
        r == button_index(button),
{
    match button {
        GamepadButton::South => Some(0),
        GamepadButton::East => Some(1),
        GamepadButton::North => Some(2),
        GamepadButton::West => Some(3),
        GamepadButton::C => Some(4),
        GamepadButton::Z => Some(5),
        GamepadButton::LeftTrigger => Some(6),
        GamepadButton::LeftTrigger2 => Some(7),
        GamepadButton::RightTrigger => Some(8),
        GamepadButton::RightTrigger2 => Some(9),
        GamepadButton::Select => Some(10),
        GamepadButton::Start => Some(11),
        GamepadButton::Mode => Some(12),
        GamepadButton::LeftThumb => Some(13),
        GamepadButton::RightThumb => Some(14),
        GamepadButton::DPadUp => Some(15),
        GamepadButton::DPadDown => Some(16),
        GamepadButton::DPadLeft => Some(17),
        GamepadButton::DPadRight => Some(18),
        GamepadButton::Unknown => None,
    }
}

/// The number of a button, falling back on its raw event code when it is
/// not a standard button.
pub fn gilrs_button_code_to_idx(button: GamepadButton, raw_code: u32) -> (r: u8)
    ensures
        r == button_code_index(button, raw_code),
{
    if let Some(idx) = gilrs_button_to_idx(button) {
        return idx;
    }
    if raw_code >= 288 && raw_code < 320 {
        (raw_code - 288) as u8
    } else if raw_code >= 304 && raw_code < 320 {
        (raw_code - 304) as u8
    } else {
        let low = raw_code & 0x1F;
        assert(low == raw_code % 32 && low < 32) by (bit_vector)
            requires
                low == raw_code & 0x1F,
        ;
        low as u8
    }
}

/// The number of a standard axis.
pub fn gilrs_axis_to_idx(axis: GamepadAxis) -> (r: Option<u8>)
    ensures
        r == axis_index(axis),
{
    match axis {
        GamepadAxis::LeftStickX => Some(0),
        GamepadAxis::LeftStickY => Some(1),
        GamepadAxis::LeftZ => Some(2),
        GamepadAxis::RightStickX => Some(3),
        GamepadAxis::RightStickY => Some(4),
        GamepadAxis::RightZ => Some(5),
        GamepadAxis::DPadX => Some(6),
        GamepadAxis::DPadY => Some(7),
        GamepadAxis::Unknown => None,
    }
}

/// Standard buttons have different numbers, all below 19.
pub proof fn law_button_index_distinct(a: GamepadButton, b: GamepadButton)
    ensures
        button_index(a) matches Some(i) ==> i < 19,
        button_index(a) is Some && button_index(a) == button_index(b) ==> a == b,
{
}

/// Every button number, standard or raw, is below 32: it always names one
/// of the 32 button slots of a gamepad state.
pub proof fn law_button_code_index_in_range(button: GamepadButton, raw_code: u32)
    ensures
        button_code_index(button, raw_code) < 32,
{
}

/// Standard axes have different numbers, all below 8: each names one of
/// the 8 axis slots of a gamepad state.
pub proof fn law_axis_index_distinct(a: GamepadAxis, b: GamepadAxis)
    ensures
        axis_index(a) matches Some(i) ==> i < 8,
        axis_index(a) is Some && axis_index(a) == axis_index(b) ==> a == b,
{
}

} // verus!
