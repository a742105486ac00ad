//! Keyboard keys: their names (as written in configuration files), the
//! parsing of those names and the labels shown to players.
use vstd::prelude::*;
use vstd::string::*;
use crate::text::{str_eq, strip_key_word, without_key_word};

verus! {

/// A keyboard key, by its physical position.
///
/// The keys that configuration files can name have a variant each; any
/// other key is held as `Other` with the name it is known by.
#[derive(Debug, Clone, PartialEq, Eq, Hash)]
pub enum KeyCode {
    ArrowUp,
    ArrowDown,
    ArrowLeft,
    ArrowRight,
    KeyA,
    KeyB,
    KeyC,
    KeyD,
    KeyE,
    KeyF,
    KeyG,
    KeyH,
    KeyI,
    KeyJ,
    KeyK,
    KeyL,
    KeyM,
    KeyN,
    KeyO,
    KeyP,
    KeyQ,
    KeyR,
    KeyS,
    KeyT,
    KeyU,
    KeyV,
    KeyW,
    KeyX,
    KeyY,
    KeyZ,
    Digit0,
    Digit1,
    Digit2,
    Digit3,
    Digit4,
    Digit5,
    Digit6,
    Digit7,
    Digit8,
    Digit9,
    ShiftLeft,
    ShiftRight,
    ControlLeft,
    ControlRight,
    AltLeft,
    AltRight,
    SuperLeft,
    SuperRight,
    Space,
    Enter,
    Escape,
    Backspace,
    Tab,
    CapsLock,
    F1,
    F2,
    F3,
    F4,
    F5,
    F6,
    F7,
    F8,
    F9,
    F10,
    F11,
    F12,
    Comma,
    Period,
    Slash,
    Semicolon,
    Quote,
    BracketLeft,
    BracketRight,
    Backslash,
    Minus,
    Equal,
    Backquote,
    Numpad0,
    Numpad1,
    Numpad2,
    Numpad3,
    Numpad4,
    Numpad5,
    Numpad6,
    Numpad7,
    Numpad8,
    Numpad9,
    NumpadAdd,
    NumpadSubtract,
    NumpadMultiply,
    NumpadDivide,
    NumpadEnter,
    NumpadDecimal,
    Insert,
    Delete,
    Home,
    End,
    PageUp,
    PageDown,
    /// A key without a variant here, by its name.
    Other(String),
}

impl KeyCode {
    /// A copy of the key.
    pub fn duplicate(&self) -> (r: KeyCode)
        ensures
            r == *self,
    {
        match self {
            KeyCode::ArrowUp => KeyCode::ArrowUp,
            KeyCode::ArrowDown => KeyCode::ArrowDown,
            KeyCode::ArrowLeft => KeyCode::ArrowLeft,
            KeyCode::ArrowRight => KeyCode::ArrowRight,
            KeyCode::KeyA => KeyCode::KeyA,
            KeyCode::KeyB => KeyCode::KeyB,
            KeyCode::KeyC => KeyCode::KeyC,
            KeyCode::KeyD => KeyCode::KeyD,
            KeyCode::KeyE => KeyCode::KeyE,
            KeyCode::KeyF => KeyCode::KeyF,
            KeyCode::KeyG => KeyCode::KeyG,
            KeyCode::KeyH => KeyCode::KeyH,
            KeyCode::KeyI => KeyCode::KeyI,
            KeyCode::KeyJ => KeyCode::KeyJ,
            KeyCode::KeyK => KeyCode::KeyK,
            KeyCode::KeyL => KeyCode::KeyL,
            KeyCode::KeyM => KeyCode::KeyM,
            KeyCode::KeyN => KeyCode::KeyN,
            KeyCode::KeyO => KeyCode::KeyO,
            KeyCode::KeyP => KeyCode::KeyP,
            KeyCode::KeyQ => KeyCode::KeyQ,
            KeyCode::KeyR => KeyCode::KeyR,
            KeyCode::KeyS => KeyCode::KeyS,
            KeyCode::KeyT => KeyCode::KeyT,
            KeyCode::KeyU => KeyCode::KeyU,
            KeyCode::KeyV => KeyCode::KeyV,
            KeyCode::KeyW => KeyCode::KeyW,
            KeyCode::KeyX => KeyCode::KeyX,
            KeyCode::KeyY => KeyCode::KeyY,
            KeyCode::KeyZ => KeyCode::KeyZ,
            KeyCode::Digit0 => KeyCode::Digit0,
            KeyCode::Digit1 => KeyCode::Digit1,
            KeyCode::Digit2 => KeyCode::Digit2,
            KeyCode::Digit3 => KeyCode::Digit3,
            KeyCode::Digit4 => KeyCode::Digit4,
            KeyCode::Digit5 => KeyCode::Digit5,
            KeyCode::Digit6 => KeyCode::Digit6,
            KeyCode::Digit7 => KeyCode::Digit7,
            KeyCode::Digit8 => KeyCode::Digit8,
            KeyCode::Digit9 => KeyCode::Digit9,
            KeyCode::ShiftLeft => KeyCode::ShiftLeft,
            KeyCode::ShiftRight => KeyCode::ShiftRight,
            KeyCode::ControlLeft => KeyCode::ControlLeft,
            KeyCode::ControlRight => KeyCode::ControlRight,
            KeyCode::AltLeft => KeyCode::AltLeft,
            KeyCode::AltRight => KeyCode::AltRight,
            KeyCode::SuperLeft => KeyCode::SuperLeft,
            KeyCode::SuperRight => KeyCode::SuperRight,
            KeyCode::Space => KeyCode::Space,
            KeyCode::Enter => KeyCode::Enter,
            KeyCode::Escape => KeyCode::Escape,
            KeyCode::Backspace => KeyCode::Backspace,
            KeyCode::Tab => KeyCode::Tab,
            KeyCode::CapsLock => KeyCode::CapsLock,
            KeyCode::F1 => KeyCode::F1,
            KeyCode::F2 => KeyCode::F2,
            KeyCode::F3 => KeyCode::F3,
            KeyCode::F4 => KeyCode::F4,
            KeyCode::F5 => KeyCode::F5,
            KeyCode::F6 => KeyCode::F6,
            KeyCode::F7 => KeyCode::F7,
            KeyCode::F8 => KeyCode::F8,
            KeyCode::F9 => KeyCode::F9,
            KeyCode::F10 => KeyCode::F10,
            KeyCode::F11 => KeyCode::F11,
            KeyCode::F12 => KeyCode::F12,
            KeyCode::Comma => KeyCode::Comma,
            KeyCode::Period => KeyCode::Period,
            KeyCode::Slash => KeyCode::Slash,
            KeyCode::Semicolon => KeyCode::Semicolon,
            KeyCode::Quote => KeyCode::Quote,
            KeyCode::BracketLeft => KeyCode::BracketLeft,
            KeyCode::BracketRight => KeyCode::BracketRight,
            KeyCode::Backslash => KeyCode::Backslash,
            KeyCode::Minus => KeyCode::Minus,
            KeyCode::Equal => KeyCode::Equal,
            KeyCode::Backquote => KeyCode::Backquote,
            KeyCode::Numpad0 => KeyCode::Numpad0,
            KeyCode::Numpad1 => KeyCode::Numpad1,
            KeyCode::Numpad2 => KeyCode::Numpad2,
            KeyCode::Numpad3 => KeyCode::Numpad3,
            KeyCode::Numpad4 => KeyCode::Numpad4,
            KeyCode::Numpad5 => KeyCode::Numpad5,
            KeyCode::Numpad6 => KeyCode::Numpad6,
            KeyCode::Numpad7 => KeyCode::Numpad7,
            KeyCode::Numpad8 => KeyCode::Numpad8,
            KeyCode::Numpad9 => KeyCode::Numpad9,
            KeyCode::NumpadAdd => KeyCode::NumpadAdd,
            KeyCode::NumpadSubtract => KeyCode::NumpadSubtract,
            KeyCode::NumpadMultiply => KeyCode::NumpadMultiply,
            KeyCode::NumpadDivide => KeyCode::NumpadDivide,
            KeyCode::NumpadEnter => KeyCode::NumpadEnter,
            KeyCode::NumpadDecimal => KeyCode::NumpadDecimal,
            KeyCode::Insert => KeyCode::Insert,
            KeyCode::Delete => KeyCode::Delete,
            KeyCode::Home => KeyCode::Home,
            KeyCode::End => KeyCode::End,
            KeyCode::PageUp => KeyCode::PageUp,
            KeyCode::PageDown => KeyCode::PageDown,
            KeyCode::Other(s) => KeyCode::Other(s.clone()),
        }
    }
}

/// Whether a key has a variant of its own (every key but `Other`).
pub open spec fn is_named(k: KeyCode) -> bool {
    !(k is Other)
}

/// The name of a key: the name of its variant, or the name that `Other` holds.
pub open spec fn key_name(k: KeyCode) -> Seq<char> {
    match k {
        KeyCode::ArrowUp => "ArrowUp"@,
        KeyCode::ArrowDown => "ArrowDown"@,
        KeyCode::ArrowLeft => "ArrowLeft"@,
        KeyCode::ArrowRight => "ArrowRight"@,
        KeyCode::KeyA => "KeyA"@,
        KeyCode::KeyB => "KeyB"@,
        KeyCode::KeyC => "KeyC"@,
        KeyCode::KeyD => "KeyD"@,
        KeyCode::KeyE => "KeyE"@,
        KeyCode::KeyF => "KeyF"@,
        KeyCode::KeyG => "KeyG"@,
        KeyCode::KeyH => "KeyH"@,
        KeyCode::KeyI => "KeyI"@,
        KeyCode::KeyJ => "KeyJ"@,
        KeyCode::KeyK => "KeyK"@,
        KeyCode::KeyL => "KeyL"@,
        KeyCode::KeyM => "KeyM"@,
        KeyCode::KeyN => "KeyN"@,
        KeyCode::KeyO => "KeyO"@,
        KeyCode::KeyP => "KeyP"@,
        KeyCode::KeyQ => "KeyQ"@,
        KeyCode::KeyR => "KeyR"@,
        KeyCode::KeyS => "KeyS"@,
        KeyCode::KeyT => "KeyT"@,
        KeyCode::KeyU => "KeyU"@,
        KeyCode::KeyV => "KeyV"@,
        KeyCode::KeyW => "KeyW"@,
        KeyCode::KeyX => "KeyX"@,
        KeyCode::KeyY => "KeyY"@,
        KeyCode::KeyZ => "KeyZ"@,
        KeyCode::Digit0 => "Digit0"@,
        KeyCode::Digit1 => "Digit1"@,
        KeyCode::Digit2 => "Digit2"@,
        KeyCode::Digit3 => "Digit3"@,
        KeyCode::Digit4 => "Digit4"@,
        KeyCode::Digit5 => "Digit5"@,
        KeyCode::Digit6 => "Digit6"@,
        KeyCode::Digit7 => "Digit7"@,
        KeyCode::Digit8 => "Digit8"@,
        KeyCode::Digit9 => "Digit9"@,
        KeyCode::ShiftLeft => "ShiftLeft"@,
        KeyCode::ShiftRight => "ShiftRight"@,
        KeyCode::ControlLeft => "ControlLeft"@,
        KeyCode::ControlRight => "ControlRight"@,
        KeyCode::AltLeft => "AltLeft"@,
        KeyCode::AltRight => "AltRight"@,
        KeyCode::SuperLeft => "SuperLeft"@,
        KeyCode::SuperRight => "SuperRight"@,
        KeyCode::Space => "Space"@,
        KeyCode::Enter => "Enter"@,
        KeyCode::Escape => "Escape"@,
        KeyCode::Backspace => "Backspace"@,
        KeyCode::Tab => "Tab"@,
        KeyCode::CapsLock => "CapsLock"@,
        KeyCode::F1 => "F1"@,
        KeyCode::F2 => "F2"@,
        KeyCode::F3 => "F3"@,
        KeyCode::F4 => "F4"@,
        KeyCode::F5 => "F5"@,
        KeyCode::F6 => "F6"@,
        KeyCode::F7 => "F7"@,
        KeyCode::F8 => "F8"@,
        KeyCode::F9 => "F9"@,
        KeyCode::F10 => "F10"@,
        KeyCode::F11 => "F11"@,
        KeyCode::F12 => "F12"@,
        KeyCode::Comma => "Comma"@,
        KeyCode::Period => "Period"@,
        KeyCode::Slash => "Slash"@,
        KeyCode::Semicolon => "Semicolon"@,
        KeyCode::Quote => "Quote"@,
        KeyCode::BracketLeft => "BracketLeft"@,
        KeyCode::BracketRight => "BracketRight"@,
        KeyCode::Backslash => "Backslash"@,
        KeyCode::Minus => "Minus"@,
        KeyCode::Equal => "Equal"@,
        KeyCode::Backquote => "Backquote"@,
        KeyCode::Numpad0 => "Numpad0"@,
        KeyCode::Numpad1 => "Numpad1"@,
        KeyCode::Numpad2 => "Numpad2"@,
        KeyCode::Numpad3 => "Numpad3"@,
        KeyCode::Numpad4 => "Numpad4"@,
        KeyCode::Numpad5 => "Numpad5"@,
        KeyCode::Numpad6 => "Numpad6"@,
        KeyCode::Numpad7 => "Numpad7"@,
        KeyCode::Numpad8 => "Numpad8"@,
        KeyCode::Numpad9 => "Numpad9"@,
        KeyCode::NumpadAdd => "NumpadAdd"@,
        KeyCode::NumpadSubtract => "NumpadSubtract"@,
        KeyCode::NumpadMultiply => "NumpadMultiply"@,
        KeyCode::NumpadDivide => "NumpadDivide"@,
        KeyCode::NumpadEnter => "NumpadEnter"@,
        KeyCode::NumpadDecimal => "NumpadDecimal"@,
        KeyCode::Insert => "Insert"@,
        KeyCode::Delete => "Delete"@,
        KeyCode::Home => "Home"@,
        KeyCode::End => "End"@,
        KeyCode::PageUp => "PageUp"@,
        KeyCode::PageDown => "PageDown"@,
        KeyCode::Other(s) => s@,
    }
}

/// The named key that a name stands for, if any.
pub open spec fn key_from_name(s: Seq<char>) -> Option<KeyCode> {
    if exists|k: KeyCode| is_named(k) && key_name(k) == s {
        Some(choose|k: KeyCode| is_named(k) && key_name(k) == s)
    } else {
        None
    }
}


/// Reads a name back by looking at its length and at a few of its
/// characters (a proof device for showing that the names differ).
spec fn decode_name(s: Seq<char>) -> Option<KeyCode> {
    if s.len() == 2 {
        if s[1] == '1' {
            Some(KeyCode::F1)
        } else if s[1] == '2' {
            Some(KeyCode::F2)
        } else if s[1] == '3' {
            Some(KeyCode::F3)
        } else if s[1] == '4' {
            Some(KeyCode::F4)
        } else if s[1] == '5' {
            Some(KeyCode::F5)
        } else if s[1] == '6' {
            Some(KeyCode::F6)
        } else if s[1] == '7' {
            Some(KeyCode::F7)
        } else if s[1] == '8' {
            Some(KeyCode::F8)
        } else if s[1] == '9' {
            Some(KeyCode::F9)
        } else {
            None
        }
    } else if s.len() == 3 {
        if s[0] == 'E' {
            Some(KeyCode::End)
        } else if s[0] == 'F' {
            if s[2] == '0' {
                Some(KeyCode::F10)
            } else if s[2] == '1' {
                Some(KeyCode::F11)
            } else if s[2] == '2' {
                Some(KeyCode::F12)
            } else {
                None
            }
        } else if s[0] == 'T' {
            Some(KeyCode::Tab)
        } else {
            None
        }
    } else if s.len() == 4 {
        if s[0] == 'H' {
            Some(KeyCode::Home)
        } else if s[0] == 'K' {
            if s[3] == 'A' {
                Some(KeyCode::KeyA)
            } else if s[3] == 'B' {
                Some(KeyCode::KeyB)
            } else if s[3] == 'C' {
                Some(KeyCode::KeyC)
            } else if s[3] == 'D' {
                Some(KeyCode::KeyD)
            } else if s[3] == 'E' {
                Some(KeyCode::KeyE)
            } else if s[3] == 'F' {
                Some(KeyCode::KeyF)
            } else if s[3] == 'G' {
                Some(KeyCode::KeyG)
            } else if s[3] == 'H' {
                Some(KeyCode::KeyH)
            } else if s[3] == 'I' {
                Some(KeyCode::KeyI)
            } else if s[3] == 'J' {
                Some(KeyCode::KeyJ)
            } else if s[3] == 'K' {
                Some(KeyCode::KeyK)
            } else if s[3] == 'L' {
                Some(KeyCode::KeyL)
            } else if s[3] == 'M' {
                Some(KeyCode::KeyM)
            } else if s[3] == 'N' {
                Some(KeyCode::KeyN)
            } else if s[3] == 'O' {
                Some(KeyCode::KeyO)
            } else if s[3] == 'P' {
                Some(KeyCode::KeyP)
            } else if s[3] == 'Q' {
                Some(KeyCode::KeyQ)
            } else if s[3] == 'R' {
                Some(KeyCode::KeyR)
            } else if s[3] == 'S' {
                Some(KeyCode::KeyS)
            } else if s[3] == 'T' {
                Some(KeyCode::KeyT)
            } else if s[3] == 'U' {
                Some(KeyCode::KeyU)
            } else if s[3] == 'V' {
                Some(KeyCode::KeyV)
            } else if s[3] == 'W' {
                Some(KeyCode::KeyW)
            } else if s[3] == 'X' {
                Some(KeyCode::KeyX)
            } else if s[3] == 'Y' {
                Some(KeyCode::KeyY)
            } else if s[3] == 'Z' {
                Some(KeyCode::KeyZ)
            } else {
                None
            }
        } else {
            None
        }
    } else if s.len() == 5 {
        if s[0] == 'C' {
            Some(KeyCode::Comma)
        } else if s[0] == 'E' {
            if s[1] == 'n' {
                Some(KeyCode::Enter)
            } else if s[1] == 'q' {
                Some(KeyCode::Equal)
            } else {
                None
            }
        } else if s[0] == 'M' {
            Some(KeyCode::Minus)
        } else if s[0] == 'Q' {
            Some(KeyCode::Quote)
        } else if s[0] == 'S' {
            if s[1] == 'l' {
                Some(KeyCode::Slash)
            } else if s[1] == 'p' {
                Some(KeyCode::Space)
            } else {
                None
            }
        } else {
            None
        }
    } else if s.len() == 6 {
        if s[0] == 'D' {
            if s[1] == 'e' {
                Some(KeyCode::Delete)
            } else if s[1] == 'i' {
                if s[5] == '0' {
                    Some(KeyCode::Digit0)
                } else if s[5] == '1' {
                    Some(KeyCode::Digit1)
                } else if s[5] == '2' {
                    Some(KeyCode::Digit2)
                } else if s[5] == '3' {
                    Some(KeyCode::Digit3)
                } else if s[5] == '4' {
                    Some(KeyCode::Digit4)
                } else if s[5] == '5' {
                    Some(KeyCode::Digit5)
                } else if s[5] == '6' {
                    Some(KeyCode::Digit6)
                } else if s[5] == '7' {
                    Some(KeyCode::Digit7)
                } else if s[5] == '8' {
                    Some(KeyCode::Digit8)
                } else if s[5] == '9' {
                    Some(KeyCode::Digit9)
                } else {
                    None
                }
            } else {
                None
            }
        } else if s[0] == 'E' {
            Some(KeyCode::Escape)
        } else if s[0] == 'I' {
            Some(KeyCode::Insert)
        } else if s[0] == 'P' {
            if s[1] == 'a' {
                Some(KeyCode::PageUp)
            } else if s[1] == 'e' {
                Some(KeyCode::Period)
            } else {
                None
            }
        } else {
            None
        }
    } else if s.len() == 7 {
        if s[0] == 'A' {
            if s[1] == 'l' {
                Some(KeyCode::AltLeft)
            } else if s[1] == 'r' {
                Some(KeyCode::ArrowUp)
            } else {
                None
            }
        } else if s[0] == 'N' {
            if s[6] == '0' {
                Some(KeyCode::Numpad0)
            } else if s[6] == '1' {
                Some(KeyCode::Numpad1)
            } else if s[6] == '2' {
                Some(KeyCode::Numpad2)
            } else if s[6] == '3' {
                Some(KeyCode::Numpad3)
            } else if s[6] == '4' {
                Some(KeyCode::Numpad4)
            } else if s[6] == '5' {
                Some(KeyCode::Numpad5)
            } else if s[6] == '6' {
                Some(KeyCode::Numpad6)
            } else if s[6] == '7' {
                Some(KeyCode::Numpad7)
            } else if s[6] == '8' {
                Some(KeyCode::Numpad8)
            } else if s[6] == '9' {
                Some(KeyCode::Numpad9)
            } else {
                None
            }
        } else {
            None
        }
    } else if s.len() == 8 {
        if s[0] == 'A' {
            Some(KeyCode::AltRight)
        } else if s[0] == 'C' {
            Some(KeyCode::CapsLock)
        } else if s[0] == 'P' {
            Some(KeyCode::PageDown)
        } else {
            None
        }
    } else if s.len() == 9 {
        if s[0] == 'A' {
            if s[5] == 'D' {
                Some(KeyCode::ArrowDown)
            } else if s[5] == 'L' {
                Some(KeyCode::ArrowLeft)
            } else {
                None
            }
        } else if s[0] == 'B' {
            if s[4] == 'q' {
                Some(KeyCode::Backquote)
            } else if s[4] == 's' {
                if s[5] == 'l' {
                    Some(KeyCode::Backslash)
                } else if s[5] == 'p' {
                    Some(KeyCode::Backspace)
                } else {
                    None
                }
            } else {
                None
            }
        } else if s[0] == 'N' {
            Some(KeyCode::NumpadAdd)
        } else if s[0] == 'S' {
            if s[1] == 'e' {
                Some(KeyCode::Semicolon)
            } else if s[1] == 'h' {
                Some(KeyCode::ShiftLeft)
            } else if s[1] == 'u' {
                Some(KeyCode::SuperLeft)
            } else {
                None
            }
        } else {
            None
        }
    } else if s.len() == 10 {
        if s[0] == 'A' {
            Some(KeyCode::ArrowRight)
        } else if s[0] == 'S' {
            if s[1] == 'h' {
                Some(KeyCode::ShiftRight)
            } else if s[1] == 'u' {
                Some(KeyCode::SuperRight)
            } else {
                None
            }
        } else {
            None
        }
    } else if s.len() == 11 {
        if s[0] == 'B' {
            Some(KeyCode::BracketLeft)
        } else if s[0] == 'C' {
            Some(KeyCode::ControlLeft)
        } else if s[0] == 'N' {
            Some(KeyCode::NumpadEnter)
        } else {
            None
        }
    } else if s.len() == 12 {
        if s[0] == 'B' {
            Some(KeyCode::BracketRight)
        } else if s[0] == 'C' {
            Some(KeyCode::ControlRight)
        } else if s[0] == 'N' {
            Some(KeyCode::NumpadDivide)
        } else {
            None
        }
    } else if s.len() == 13 {
        Some(KeyCode::NumpadDecimal)
    } else if s.len() == 14 {
        if s[6] == 'M' {
            Some(KeyCode::NumpadMultiply)
        } else if s[6] == 'S' {
            Some(KeyCode::NumpadSubtract)
        } else {
            None
        }
    } else {
        None
    }
}

/// Every named key is read back from its name.
proof fn lemma_decode_name(k: KeyCode)
    requires
        is_named(k),
    ensures
        decode_name(key_name(k)) == Some(k),
{
    reveal_strlit("ArrowUp");
    reveal_strlit("ArrowDown");
    reveal_strlit("ArrowLeft");
    reveal_strlit("ArrowRight");
    reveal_strlit("KeyA");
    reveal_strlit("KeyB");
    reveal_strlit("KeyC");
    reveal_strlit("KeyD");
    reveal_strlit("KeyE");
    reveal_strlit("KeyF");
    reveal_strlit("KeyG");
    reveal_strlit("KeyH");
    reveal_strlit("KeyI");
    reveal_strlit("KeyJ");
    reveal_strlit("KeyK");
    reveal_strlit("KeyL");
    reveal_strlit("KeyM");
    reveal_strlit("KeyN");
    reveal_strlit("KeyO");
    reveal_strlit("KeyP");
    reveal_strlit("KeyQ");
    reveal_strlit("KeyR");
    reveal_strlit("KeyS");
    reveal_strlit("KeyT");
    reveal_strlit("KeyU");
    reveal_strlit("KeyV");
    reveal_strlit("KeyW");
    reveal_strlit("KeyX");
    reveal_strlit("KeyY");
    reveal_strlit("KeyZ");
    reveal_strlit("Digit0");
    reveal_strlit("Digit1");
    reveal_strlit("Digit2");
    reveal_strlit("Digit3");
    reveal_strlit("Digit4");
    reveal_strlit("Digit5");
    reveal_strlit("Digit6");
    reveal_strlit("Digit7");
    reveal_strlit("Digit8");
    reveal_strlit("Digit9");
    reveal_strlit("ShiftLeft");
    reveal_strlit("ShiftRight");
    reveal_strlit("ControlLeft");
    reveal_strlit("ControlRight");
    reveal_strlit("AltLeft");
    reveal_strlit("AltRight");
    reveal_strlit("SuperLeft");
    reveal_strlit("SuperRight");
    reveal_strlit("Space");
    reveal_strlit("Enter");
    reveal_strlit("Escape");
    reveal_strlit("Backspace");
    reveal_strlit("Tab");
    reveal_strlit("CapsLock");
    reveal_strlit("F1");
    reveal_strlit("F2");
    reveal_strlit("F3");
    reveal_strlit("F4");
    reveal_strlit("F5");
    reveal_strlit("F6");
    reveal_strlit("F7");
    reveal_strlit("F8");
    reveal_strlit("F9");
    reveal_strlit("F10");
    reveal_strlit("F11");
    reveal_strlit("F12");
    reveal_strlit("Comma");
    reveal_strlit("Period");
    reveal_strlit("Slash");
    reveal_strlit("Semicolon");
    reveal_strlit("Quote");
    reveal_strlit("BracketLeft");
    reveal_strlit("BracketRight");
    reveal_strlit("Backslash");
    reveal_strlit("Minus");
    reveal_strlit("Equal");
    reveal_strlit("Backquote");
    reveal_strlit("Numpad0");
    reveal_strlit("Numpad1");
    reveal_strlit("Numpad2");
    reveal_strlit("Numpad3");
    reveal_strlit("Numpad4");
    reveal_strlit("Numpad5");
    reveal_strlit("Numpad6");
    reveal_strlit("Numpad7");
    reveal_strlit("Numpad8");
    reveal_strlit("Numpad9");
    reveal_strlit("NumpadAdd");
    reveal_strlit("NumpadSubtract");
    reveal_strlit("NumpadMultiply");
    reveal_strlit("NumpadDivide");
    reveal_strlit("NumpadEnter");
    reveal_strlit("NumpadDecimal");
    reveal_strlit("Insert");
    reveal_strlit("Delete");
    reveal_strlit("Home");
    reveal_strlit("End");
    reveal_strlit("PageUp");
    reveal_strlit("PageDown");
    match k {
        KeyCode::ArrowUp => {},
        KeyCode::ArrowDown => {},
        KeyCode::ArrowLeft => {},
        KeyCode::ArrowRight => {},
        KeyCode::KeyA => {},
        KeyCode::KeyB => {},
        KeyCode::KeyC => {},
        KeyCode::KeyD => {},
        KeyCode::KeyE => {},
        KeyCode::KeyF => {},
        KeyCode::KeyG => {},
        KeyCode::KeyH => {},
        KeyCode::KeyI => {},
        KeyCode::KeyJ => {},
        KeyCode::KeyK => {},
        KeyCode::KeyL => {},
        KeyCode::KeyM => {},
        KeyCode::KeyN => {},
        KeyCode::KeyO => {},
        KeyCode::KeyP => {},
        KeyCode::KeyQ => {},
        KeyCode::KeyR => {},
        KeyCode::KeyS => {},
        KeyCode::KeyT => {},
        KeyCode::KeyU => {},
        KeyCode::KeyV => {},
        KeyCode::KeyW => {},
        KeyCode::KeyX => {},
        KeyCode::KeyY => {},
        KeyCode::KeyZ => {},
        KeyCode::Digit0 => {},
        KeyCode::Digit1 => {},
        KeyCode::Digit2 => {},
        KeyCode::Digit3 => {},
        KeyCode::Digit4 => {},
        KeyCode::Digit5 => {},
        KeyCode::Digit6 => {},
        KeyCode::Digit7 => {},
        KeyCode::Digit8 => {},
        KeyCode::Digit9 => {},
        KeyCode::ShiftLeft => {},
        KeyCode::ShiftRight => {},
        KeyCode::ControlLeft => {},
        KeyCode::ControlRight => {},
        KeyCode::AltLeft => {},
        KeyCode::AltRight => {},
        KeyCode::SuperLeft => {},
        KeyCode::SuperRight => {},
        KeyCode::Space => {},
        KeyCode::Enter => {},
        KeyCode::Escape => {},
        KeyCode::Backspace => {},
        KeyCode::Tab => {},
        KeyCode::CapsLock => {},
        KeyCode::F1 => {},
        KeyCode::F2 => {},
        KeyCode::F3 => {},
        KeyCode::F4 => {},
        KeyCode::F5 => {},
        KeyCode::F6 => {},
        KeyCode::F7 => {},
        KeyCode::F8 => {},
        KeyCode::F9 => {},
        KeyCode::F10 => {},
        KeyCode::F11 => {},
        KeyCode::F12 => {},
        KeyCode::Comma => {},
        KeyCode::Period => {},
        KeyCode::Slash => {},
        KeyCode::Semicolon => {},
        KeyCode::Quote => {},
        KeyCode::BracketLeft => {},
        KeyCode::BracketRight => {},
        KeyCode::Backslash => {},
        KeyCode::Minus => {},
        KeyCode::Equal => {},
        KeyCode::Backquote => {},
        KeyCode::Numpad0 => {},
        KeyCode::Numpad1 => {},
        KeyCode::Numpad2 => {},
        KeyCode::Numpad3 => {},
        KeyCode::Numpad4 => {},
        KeyCode::Numpad5 => {},
        KeyCode::Numpad6 => {},
        KeyCode::Numpad7 => {},
        KeyCode::Numpad8 => {},
        KeyCode::Numpad9 => {},
        KeyCode::NumpadAdd => {},
        KeyCode::NumpadSubtract => {},
        KeyCode::NumpadMultiply => {},
        KeyCode::NumpadDivide => {},
        KeyCode::NumpadEnter => {},
        KeyCode::NumpadDecimal => {},
        KeyCode::Insert => {},
        KeyCode::Delete => {},
        KeyCode::Home => {},
        KeyCode::End => {},
        KeyCode::PageUp => {},
        KeyCode::PageDown => {},
        KeyCode::Other(_) => {},
    }
}

/// No two named keys share a name.
pub proof fn lemma_key_name_injective(a: KeyCode, b: KeyCode)
    requires
        is_named(a),
        is_named(b),
        key_name(a) == key_name(b),
    ensures
        a == b,
{
    lemma_decode_name(a);
    lemma_decode_name(b);
}

/// The name of a key.
pub fn key_code_name<'a>(k: &'a KeyCode) -> (r: &'a str)
    ensures
        r@ == key_name(*k),
{
    match k {
        KeyCode::ArrowUp => "ArrowUp",
        KeyCode::ArrowDown => "ArrowDown",
        KeyCode::ArrowLeft => "ArrowLeft",
        KeyCode::ArrowRight => "ArrowRight",
        KeyCode::KeyA => "KeyA",
        KeyCode::KeyB => "KeyB",
        KeyCode::KeyC => "KeyC",
        KeyCode::KeyD => "KeyD",
        KeyCode::KeyE => "KeyE",
        KeyCode::KeyF => "KeyF",
        KeyCode::KeyG => "KeyG",
        KeyCode::KeyH => "KeyH",
        KeyCode::KeyI => "KeyI",
        KeyCode::KeyJ => "KeyJ",
        KeyCode::KeyK => "KeyK",
        KeyCode::KeyL => "KeyL",
        KeyCode::KeyM => "KeyM",
        KeyCode::KeyN => "KeyN",
        KeyCode::KeyO => "KeyO",
        KeyCode::KeyP => "KeyP",
        KeyCode::KeyQ => "KeyQ",
        KeyCode::KeyR => "KeyR",
        KeyCode::KeyS => "KeyS",
        KeyCode::KeyT => "KeyT",
        KeyCode::KeyU => "KeyU",
        KeyCode::KeyV => "KeyV",
        KeyCode::KeyW => "KeyW",
        KeyCode::KeyX => "KeyX",
        KeyCode::KeyY => "KeyY",
        KeyCode::KeyZ => "KeyZ",
        KeyCode::Digit0 => "Digit0",
        KeyCode::Digit1 => "Digit1",
        KeyCode::Digit2 => "Digit2",
        KeyCode::Digit3 => "Digit3",
        KeyCode::Digit4 => "Digit4",
        KeyCode::Digit5 => "Digit5",
        KeyCode::Digit6 => "Digit6",
        KeyCode::Digit7 => "Digit7",
        KeyCode::Digit8 => "Digit8",
        KeyCode::Digit9 => "Digit9",
        KeyCode::ShiftLeft => "ShiftLeft",
        KeyCode::ShiftRight => "ShiftRight",
        KeyCode::ControlLeft => "ControlLeft",
        KeyCode::ControlRight => "ControlRight",
        KeyCode::AltLeft => "AltLeft",
        KeyCode::AltRight => "AltRight",
        KeyCode::SuperLeft => "SuperLeft",
        KeyCode::SuperRight => "SuperRight",
        KeyCode::Space => "Space",
        KeyCode::Enter => "Enter",
        KeyCode::Escape => "Escape",
        KeyCode::Backspace => "Backspace",
        KeyCode::Tab => "Tab",
        KeyCode::CapsLock => "CapsLock",
        KeyCode::F1 => "F1",
        KeyCode::F2 => "F2",
        KeyCode::F3 => "F3",
        KeyCode::F4 => "F4",
        KeyCode::F5 => "F5",
        KeyCode::F6 => "F6",
        KeyCode::F7 => "F7",
        KeyCode::F8 => "F8",
        KeyCode::F9 => "F9",
        KeyCode::F10 => "F10",
        KeyCode::F11 => "F11",
        KeyCode::F12 => "F12",
        KeyCode::Comma => "Comma",
        KeyCode::Period => "Period",
        KeyCode::Slash => "Slash",
        KeyCode::Semicolon => "Semicolon",
        KeyCode::Quote => "Quote",
        KeyCode::BracketLeft => "BracketLeft",
        KeyCode::BracketRight => "BracketRight",
        KeyCode::Backslash => "Backslash",
        KeyCode::Minus => "Minus",
        KeyCode::Equal => "Equal",
        KeyCode::Backquote => "Backquote",
        KeyCode::Numpad0 => "Numpad0",
        KeyCode::Numpad1 => "Numpad1",
        KeyCode::Numpad2 => "Numpad2",
        KeyCode::Numpad3 => "Numpad3",
        KeyCode::Numpad4 => "Numpad4",
        KeyCode::Numpad5 => "Numpad5",
        KeyCode::Numpad6 => "Numpad6",
        KeyCode::Numpad7 => "Numpad7",
        KeyCode::Numpad8 => "Numpad8",
        KeyCode::Numpad9 => "Numpad9",
        KeyCode::NumpadAdd => "NumpadAdd",
        KeyCode::NumpadSubtract => "NumpadSubtract",
        KeyCode::NumpadMultiply => "NumpadMultiply",
        KeyCode::NumpadDivide => "NumpadDivide",
        KeyCode::NumpadEnter => "NumpadEnter",
        KeyCode::NumpadDecimal => "NumpadDecimal",
        KeyCode::Insert => "Insert",
        KeyCode::Delete => "Delete",
        KeyCode::Home => "Home",
        KeyCode::End => "End",
        KeyCode::PageUp => "PageUp",
        KeyCode::PageDown => "PageDown",
        KeyCode::Other(s) => s.as_str(),
    }
}

/// Parses the name of a key; `None` when no named key has that name.
pub fn key_code_from_str(s: &str) -> (r: Option<KeyCode>)
    ensures
        r == key_from_name(s@),
{
    if str_eq(s, "ArrowUp") {
        proof { lemma_name_found(KeyCode::ArrowUp, s@); }
        return Some(KeyCode::ArrowUp);
    }
    if str_eq(s, "ArrowDown") {
        proof { lemma_name_found(KeyCode::ArrowDown, s@); }
        return Some(KeyCode::ArrowDown);
    }
    if str_eq(s, "ArrowLeft") {
        proof { lemma_name_found(KeyCode::ArrowLeft, s@); }
        return Some(KeyCode::ArrowLeft);
    }
    if str_eq(s, "ArrowRight") {
        proof { lemma_name_found(KeyCode::ArrowRight, s@); }
        return Some(KeyCode::ArrowRight);
    }
    if str_eq(s, "KeyA") {
        proof { lemma_name_found(KeyCode::KeyA, s@); }
        return Some(KeyCode::KeyA);
    }
    if str_eq(s, "KeyB") {
        proof { lemma_name_found(KeyCode::KeyB, s@); }
        return Some(KeyCode::KeyB);
    }
    if str_eq(s, "KeyC") {
        proof { lemma_name_found(KeyCode::KeyC, s@); }
        return Some(KeyCode::KeyC);
    }
    if str_eq(s, "KeyD") {
        proof { lemma_name_found(KeyCode::KeyD, s@); }
        return Some(KeyCode::KeyD);
    }
    if str_eq(s, "KeyE") {
        proof { lemma_name_found(KeyCode::KeyE, s@); }
        return Some(KeyCode::KeyE);
    }
    if str_eq(s, "KeyF") {
        proof { lemma_name_found(KeyCode::KeyF, s@); }
        return Some(KeyCode::KeyF);
    }
    if str_eq(s, "KeyG") {
        proof { lemma_name_found(KeyCode::KeyG, s@); }
        return Some(KeyCode::KeyG);
    }
    if str_eq(s, "KeyH") {
        proof { lemma_name_found(KeyCode::KeyH, s@); }
        return Some(KeyCode::KeyH);
    }
    if str_eq(s, "KeyI") {
        proof { lemma_name_found(KeyCode::KeyI, s@); }
        return Some(KeyCode::KeyI);
    }
    if str_eq(s, "KeyJ") {
        proof { lemma_name_found(KeyCode::KeyJ, s@); }
        return Some(KeyCode::KeyJ);
    }
    if str_eq(s, "KeyK") {
        proof { lemma_name_found(KeyCode::KeyK, s@); }
        return Some(KeyCode::KeyK);
    }
    if str_eq(s, "KeyL") {
        proof { lemma_name_found(KeyCode::KeyL, s@); }
        return Some(KeyCode::KeyL);
    }
    if str_eq(s, "KeyM") {
        proof { lemma_name_found(KeyCode::KeyM, s@); }
        return Some(KeyCode::KeyM);
    }
    if str_eq(s, "KeyN") {
        proof { lemma_name_found(KeyCode::KeyN, s@); }
        return Some(KeyCode::KeyN);
    }
    if str_eq(s, "KeyO") {
        proof { lemma_name_found(KeyCode::KeyO, s@); }
        return Some(KeyCode::KeyO);
    }
    if str_eq(s, "KeyP") {
        proof { lemma_name_found(KeyCode::KeyP, s@); }
        return Some(KeyCode::KeyP);
    }
    if str_eq(s, "KeyQ") {
        proof { lemma_name_found(KeyCode::KeyQ, s@); }
        return Some(KeyCode::KeyQ);
    }
    if str_eq(s, "KeyR") {
        proof { lemma_name_found(KeyCode::KeyR, s@); }
        return Some(KeyCode::KeyR);
    }
    if str_eq(s, "KeyS") {
        proof { lemma_name_found(KeyCode::KeyS, s@); }
        return Some(KeyCode::KeyS);
    }
    if str_eq(s, "KeyT") {
        proof { lemma_name_found(KeyCode::KeyT, s@); }
        return Some(KeyCode::KeyT);
    }
    if str_eq(s, "KeyU") {
        proof { lemma_name_found(KeyCode::KeyU, s@); }
        return Some(KeyCode::KeyU);
    }
    if str_eq(s, "KeyV") {
        proof { lemma_name_found(KeyCode::KeyV, s@); }
        return Some(KeyCode::KeyV);
    }
    if str_eq(s, "KeyW") {
        proof { lemma_name_found(KeyCode::KeyW, s@); }
        return Some(KeyCode::KeyW);
    }
    if str_eq(s, "KeyX") {
        proof { lemma_name_found(KeyCode::KeyX, s@); }
        return Some(KeyCode::KeyX);
    }
    if str_eq(s, "KeyY") {
        proof { lemma_name_found(KeyCode::KeyY, s@); }
        return Some(KeyCode::KeyY);
    }
    if str_eq(s, "KeyZ") {
        proof { lemma_name_found(KeyCode::KeyZ, s@); }
        return Some(KeyCode::KeyZ);
    }
    if str_eq(s, "Digit0") {
        proof { lemma_name_found(KeyCode::Digit0, s@); }
        return Some(KeyCode::Digit0);
    }
    if str_eq(s, "Digit1") {
        proof { lemma_name_found(KeyCode::Digit1, s@); }
        return Some(KeyCode::Digit1);
    }
    if str_eq(s, "Digit2") {
        proof { lemma_name_found(KeyCode::Digit2, s@); }
        return Some(KeyCode::Digit2);
    }
    if str_eq(s, "Digit3") {
        proof { lemma_name_found(KeyCode::Digit3, s@); }
        return Some(KeyCode::Digit3);
    }
    if str_eq(s, "Digit4") {
        proof { lemma_name_found(KeyCode::Digit4, s@); }
        return Some(KeyCode::Digit4);
    }
    if str_eq(s, "Digit5") {
        proof { lemma_name_found(KeyCode::Digit5, s@); }
        return Some(KeyCode::Digit5);
    }
    if str_eq(s, "Digit6") {
        proof { lemma_name_found(KeyCode::Digit6, s@); }
        return Some(KeyCode::Digit6);
    }
    if str_eq(s, "Digit7") {
        proof { lemma_name_found(KeyCode::Digit7, s@); }
        return Some(KeyCode::Digit7);
    }
    if str_eq(s, "Digit8") {
        proof { lemma_name_found(KeyCode::Digit8, s@); }
        return Some(KeyCode::Digit8);
    }
    if str_eq(s, "Digit9") {
        proof { lemma_name_found(KeyCode::Digit9, s@); }
        return Some(KeyCode::Digit9);
    }
    if str_eq(s, "ShiftLeft") {
        proof { lemma_name_found(KeyCode::ShiftLeft, s@); }
        return Some(KeyCode::ShiftLeft);
    }
    if str_eq(s, "ShiftRight") {
        proof { lemma_name_found(KeyCode::ShiftRight, s@); }
        return Some(KeyCode::ShiftRight);
    }
    if str_eq(s, "ControlLeft") {
        proof { lemma_name_found(KeyCode::ControlLeft, s@); }
        return Some(KeyCode::ControlLeft);
    }
    if str_eq(s, "ControlRight") {
        proof { lemma_name_found(KeyCode::ControlRight, s@); }
        return Some(KeyCode::ControlRight);
    }
    if str_eq(s, "AltLeft") {
        proof { lemma_name_found(KeyCode::AltLeft, s@); }
        return Some(KeyCode::AltLeft);
    }
    if str_eq(s, "AltRight") {
        proof { lemma_name_found(KeyCode::AltRight, s@); }
        return Some(KeyCode::AltRight);
    }
    if str_eq(s, "SuperLeft") {
        proof { lemma_name_found(KeyCode::SuperLeft, s@); }
        return Some(KeyCode::SuperLeft);
    }
    if str_eq(s, "SuperRight") {
        proof { lemma_name_found(KeyCode::SuperRight, s@); }
        return Some(KeyCode::SuperRight);
    }
    if str_eq(s, "Space") {
        proof { lemma_name_found(KeyCode::Space, s@); }
        return Some(KeyCode::Space);
    }
    if str_eq(s, "Enter") {
        proof { lemma_name_found(KeyCode::Enter, s@); }
        return Some(KeyCode::Enter);
    }
    if str_eq(s, "Escape") {
        proof { lemma_name_found(KeyCode::Escape, s@); }
        return Some(KeyCode::Escape);
    }
    if str_eq(s, "Backspace") {
        proof { lemma_name_found(KeyCode::Backspace, s@); }
        return Some(KeyCode::Backspace);
    }
    if str_eq(s, "Tab") {
        proof { lemma_name_found(KeyCode::Tab, s@); }
        return Some(KeyCode::Tab);
    }
    if str_eq(s, "CapsLock") {
        proof { lemma_name_found(KeyCode::CapsLock, s@); }
        return Some(KeyCode::CapsLock);
    }
    if str_eq(s, "F1") {
        proof { lemma_name_found(KeyCode::F1, s@); }
        return Some(KeyCode::F1);
    }
    if str_eq(s, "F2") {
        proof { lemma_name_found(KeyCode::F2, s@); }
        return Some(KeyCode::F2);
    }
    if str_eq(s, "F3") {
        proof { lemma_name_found(KeyCode::F3, s@); }
        return Some(KeyCode::F3);
    }
    if str_eq(s, "F4") {
        proof { lemma_name_found(KeyCode::F4, s@); }
        return Some(KeyCode::F4);
    }
    if str_eq(s, "F5") {
        proof { lemma_name_found(KeyCode::F5, s@); }
        return Some(KeyCode::F5);
    }
    if str_eq(s, "F6") {
        proof { lemma_name_found(KeyCode::F6, s@); }
        return Some(KeyCode::F6);
    }
    if str_eq(s, "F7") {
        proof { lemma_name_found(KeyCode::F7, s@); }
        return Some(KeyCode::F7);
    }
    if str_eq(s, "F8") {
        proof { lemma_name_found(KeyCode::F8, s@); }
        return Some(KeyCode::F8);
    }
    if str_eq(s, "F9") {
        proof { lemma_name_found(KeyCode::F9, s@); }
        return Some(KeyCode::F9);
    }
    if str_eq(s, "F10") {
        proof { lemma_name_found(KeyCode::F10, s@); }
        return Some(KeyCode::F10);
    }
    if str_eq(s, "F11") {
        proof { lemma_name_found(KeyCode::F11, s@); }
        return Some(KeyCode::F11);
    }
    if str_eq(s, "F12") {
        proof { lemma_name_found(KeyCode::F12, s@); }
        return Some(KeyCode::F12);
    }
    if str_eq(s, "Comma") {
        proof { lemma_name_found(KeyCode::Comma, s@); }
        return Some(KeyCode::Comma);
    }
    if str_eq(s, "Period") {
        proof { lemma_name_found(KeyCode::Period, s@); }
        return Some(KeyCode::Period);
    }
    if str_eq(s, "Slash") {
        proof { lemma_name_found(KeyCode::Slash, s@); }
        return Some(KeyCode::Slash);
    }
    if str_eq(s, "Semicolon") {
        proof { lemma_name_found(KeyCode::Semicolon, s@); }
        return Some(KeyCode::Semicolon);
    }
    if str_eq(s, "Quote") {
        proof { lemma_name_found(KeyCode::Quote, s@); }
        return Some(KeyCode::Quote);
    }
    if str_eq(s, "BracketLeft") {
        proof { lemma_name_found(KeyCode::BracketLeft, s@); }
        return Some(KeyCode::BracketLeft);
    }
    if str_eq(s, "BracketRight") {
        proof { lemma_name_found(KeyCode::BracketRight, s@); }
        return Some(KeyCode::BracketRight);
    }
    if str_eq(s, "Backslash") {
        proof { lemma_name_found(KeyCode::Backslash, s@); }
        return Some(KeyCode::Backslash);
    }
    if str_eq(s, "Minus") {
        proof { lemma_name_found(KeyCode::Minus, s@); }
        return Some(KeyCode::Minus);
    }
    if str_eq(s, "Equal") {
        proof { lemma_name_found(KeyCode::Equal, s@); }
        return Some(KeyCode::Equal);
    }
    if str_eq(s, "Backquote") {
        proof { lemma_name_found(KeyCode::Backquote, s@); }
        return Some(KeyCode::Backquote);
    }
    if str_eq(s, "Numpad0") {
        proof { lemma_name_found(KeyCode::Numpad0, s@); }
        return Some(KeyCode::Numpad0);
    }
    if str_eq(s, "Numpad1") {
        proof { lemma_name_found(KeyCode::Numpad1, s@); }
        return Some(KeyCode::Numpad1);
    }
    if str_eq(s, "Numpad2") {
        proof { lemma_name_found(KeyCode::Numpad2, s@); }
        return Some(KeyCode::Numpad2);
    }
    if str_eq(s, "Numpad3") {
        proof { lemma_name_found(KeyCode::Numpad3, s@); }
        return Some(KeyCode::Numpad3);
    }
    if str_eq(s, "Numpad4") {
        proof { lemma_name_found(KeyCode::Numpad4, s@); }
        return Some(KeyCode::Numpad4);
    }
    if str_eq(s, "Numpad5") {
        proof { lemma_name_found(KeyCode::Numpad5, s@); }
        return Some(KeyCode::Numpad5);
    }
    if str_eq(s, "Numpad6") {
        proof { lemma_name_found(KeyCode::Numpad6, s@); }
        return Some(KeyCode::Numpad6);
    }
    if str_eq(s, "Numpad7") {
        proof { lemma_name_found(KeyCode::Numpad7, s@); }
        return Some(KeyCode::Numpad7);
    }
    if str_eq(s, "Numpad8") {
        proof { lemma_name_found(KeyCode::Numpad8, s@); }
        return Some(KeyCode::Numpad8);
    }
    if str_eq(s, "Numpad9") {
        proof { lemma_name_found(KeyCode::Numpad9, s@); }
        return Some(KeyCode::Numpad9);
    }
    if str_eq(s, "NumpadAdd") {
        proof { lemma_name_found(KeyCode::NumpadAdd, s@); }
        return Some(KeyCode::NumpadAdd);
    }
    if str_eq(s, "NumpadSubtract") {
        proof { lemma_name_found(KeyCode::NumpadSubtract, s@); }
        return Some(KeyCode::NumpadSubtract);
    }
    if str_eq(s, "NumpadMultiply") {
        proof { lemma_name_found(KeyCode::NumpadMultiply, s@); }
        return Some(KeyCode::NumpadMultiply);
    }
    if str_eq(s, "NumpadDivide") {
        proof { lemma_name_found(KeyCode::NumpadDivide, s@); }
        return Some(KeyCode::NumpadDivide);
    }
    if str_eq(s, "NumpadEnter") {
        proof { lemma_name_found(KeyCode::NumpadEnter, s@); }
        return Some(KeyCode::NumpadEnter);
    }
    if str_eq(s, "NumpadDecimal") {
        proof { lemma_name_found(KeyCode::NumpadDecimal, s@); }
        return Some(KeyCode::NumpadDecimal);
    }
    if str_eq(s, "Insert") {
        proof { lemma_name_found(KeyCode::Insert, s@); }
        return Some(KeyCode::Insert);
    }
    if str_eq(s, "Delete") {
        proof { lemma_name_found(KeyCode::Delete, s@); }
        return Some(KeyCode::Delete);
    }
    if str_eq(s, "Home") {
        proof { lemma_name_found(KeyCode::Home, s@); }
        return Some(KeyCode::Home);
    }
    if str_eq(s, "End") {
        proof { lemma_name_found(KeyCode::End, s@); }
        return Some(KeyCode::End);
    }
    if str_eq(s, "PageUp") {
        proof { lemma_name_found(KeyCode::PageUp, s@); }
        return Some(KeyCode::PageUp);
    }
    if str_eq(s, "PageDown") {
        proof { lemma_name_found(KeyCode::PageDown, s@); }
        return Some(KeyCode::PageDown);
    }
    proof {
        assert forall|k: KeyCode| is_named(k) implies key_name(k) != s@ by {
            match k {
                KeyCode::ArrowUp => {},
                KeyCode::ArrowDown => {},
                KeyCode::ArrowLeft => {},
                KeyCode::ArrowRight => {},
                KeyCode::KeyA => {},
                KeyCode::KeyB => {},
                KeyCode::KeyC => {},
                KeyCode::KeyD => {},
                KeyCode::KeyE => {},
                KeyCode::KeyF => {},
                KeyCode::KeyG => {},
                KeyCode::KeyH => {},
                KeyCode::KeyI => {},
                KeyCode::KeyJ => {},
                KeyCode::KeyK => {},
                KeyCode::KeyL => {},
                KeyCode::KeyM => {},
                KeyCode::KeyN => {},
                KeyCode::KeyO => {},
                KeyCode::KeyP => {},
                KeyCode::KeyQ => {},
                KeyCode::KeyR => {},
                KeyCode::KeyS => {},
                KeyCode::KeyT => {},
                KeyCode::KeyU => {},
                KeyCode::KeyV => {},
                KeyCode::KeyW => {},
                KeyCode::KeyX => {},
                KeyCode::KeyY => {},
                KeyCode::KeyZ => {},
                KeyCode::Digit0 => {},
                KeyCode::Digit1 => {},
                KeyCode::Digit2 => {},
                KeyCode::Digit3 => {},
                KeyCode::Digit4 => {},
                KeyCode::Digit5 => {},
                KeyCode::Digit6 => {},
                KeyCode::Digit7 => {},
                KeyCode::Digit8 => {},
                KeyCode::Digit9 => {},
                KeyCode::ShiftLeft => {},
                KeyCode::ShiftRight => {},
                KeyCode::ControlLeft => {},
                KeyCode::ControlRight => {},
                KeyCode::AltLeft => {},
                KeyCode::AltRight => {},
                KeyCode::SuperLeft => {},
                KeyCode::SuperRight => {},
                KeyCode::Space => {},
                KeyCode::Enter => {},
                KeyCode::Escape => {},
                KeyCode::Backspace => {},
                KeyCode::Tab => {},
                KeyCode::CapsLock => {},
                KeyCode::F1 => {},
                KeyCode::F2 => {},
                KeyCode::F3 => {},
                KeyCode::F4 => {},
                KeyCode::F5 => {},
                KeyCode::F6 => {},
                KeyCode::F7 => {},
                KeyCode::F8 => {},
                KeyCode::F9 => {},
                KeyCode::F10 => {},
                KeyCode::F11 => {},
                KeyCode::F12 => {},
                KeyCode::Comma => {},
                KeyCode::Period => {},
                KeyCode::Slash => {},
                KeyCode::Semicolon => {},
                KeyCode::Quote => {},
                KeyCode::BracketLeft => {},
                KeyCode::BracketRight => {},
                KeyCode::Backslash => {},
                KeyCode::Minus => {},
                KeyCode::Equal => {},
                KeyCode::Backquote => {},
                KeyCode::Numpad0 => {},
                KeyCode::Numpad1 => {},
                KeyCode::Numpad2 => {},
                KeyCode::Numpad3 => {},
                KeyCode::Numpad4 => {},
                KeyCode::Numpad5 => {},
                KeyCode::Numpad6 => {},
                KeyCode::Numpad7 => {},
                KeyCode::Numpad8 => {},
                KeyCode::Numpad9 => {},
                KeyCode::NumpadAdd => {},
                KeyCode::NumpadSubtract => {},
                KeyCode::NumpadMultiply => {},
                KeyCode::NumpadDivide => {},
                KeyCode::NumpadEnter => {},
                KeyCode::NumpadDecimal => {},
                KeyCode::Insert => {},
                KeyCode::Delete => {},
                KeyCode::Home => {},
                KeyCode::End => {},
                KeyCode::PageUp => {},
                KeyCode::PageDown => {},
                KeyCode::Other(_) => {},
            }
        }
    }
    None
}

/// A name that some named key has stands for that key.
pub proof fn lemma_name_found(k: KeyCode, s: Seq<char>)
    requires
        is_named(k),
        key_name(k) == s,
    ensures
        key_from_name(s) == Some(k),
{
    let c = choose|c: KeyCode| is_named(c) && key_name(c) == s;
    lemma_key_name_injective(c, k);
}

/// The label shown to players for a key: a short form for arrows and
/// modifiers, otherwise its name with the word "Key" removed.
pub open spec fn key_label(k: KeyCode) -> Seq<char> {
    match k {
        KeyCode::ArrowUp => "Up"@,
        KeyCode::ArrowDown => "Down"@,
        KeyCode::ArrowLeft => "Left"@,
        KeyCode::ArrowRight => "Right"@,
        KeyCode::Space => "Space"@,
        KeyCode::ShiftLeft => "L-Shift"@,
        KeyCode::ShiftRight => "R-Shift"@,
        KeyCode::ControlLeft => "L-Ctrl"@,
        KeyCode::ControlRight => "R-Ctrl"@,
        KeyCode::AltLeft => "L-Alt"@,
        KeyCode::AltRight => "R-Alt"@,
        KeyCode::Enter => "Enter"@,
        KeyCode::Escape => "Esc"@,
        KeyCode::Tab => "Tab"@,
        _ => without_key_word(key_name(k)),
    }
}

/// The label shown to players for a key.
pub fn key_code_display_name(key: KeyCode) -> (r: String)
    ensures
        r@ == key_label(key),
{
    match key {
        KeyCode::ArrowUp => String::from_str("Up"),
        KeyCode::ArrowDown => String::from_str("Down"),
        KeyCode::ArrowLeft => String::from_str("Left"),
        KeyCode::ArrowRight => String::from_str("Right"),
        KeyCode::Space => String::from_str("Space"),
        KeyCode::ShiftLeft => String::from_str("L-Shift"),
        KeyCode::ShiftRight => String::from_str("R-Shift"),
        KeyCode::ControlLeft => String::from_str("L-Ctrl"),
        KeyCode::ControlRight => String::from_str("R-Ctrl"),
        KeyCode::AltLeft => String::from_str("L-Alt"),
        KeyCode::AltRight => String::from_str("R-Alt"),
        KeyCode::Enter => String::from_str("Enter"),
        KeyCode::Escape => String::from_str("Esc"),
        KeyCode::Tab => String::from_str("Tab"),
        _ => strip_key_word(key_code_name(&key)),
    }
}

/// Writing a named key's name and reading it back gives the key again.
pub proof fn law_key_name_roundtrip(k: KeyCode)
    requires
        is_named(k),
    ensures
        key_from_name(key_name(k)) == Some(k),
{
    lemma_name_found(k, key_name(k));
}

/// A name that is read as a key is exactly that key's name.
pub proof fn law_key_from_name_sound(s: Seq<char>)
    ensures
        key_from_name(s) matches Some(k) ==> is_named(k) && key_name(k) == s,
{
}

/// Reads a label back by looking at its length and at a few of its
/// characters (a proof device for showing that labels differ).
spec fn decode_label(s: Seq<char>) -> Option<KeyCode> {
    if s.len() == 1 {
        if s[0] == 'A' {
            Some(KeyCode::KeyA)
        } else if s[0] == 'B' {
            Some(KeyCode::KeyB)
        } else if s[0] == 'C' {
            Some(KeyCode::KeyC)
        } else if s[0] == 'D' {
            Some(KeyCode::KeyD)
        } else if s[0] == 'E' {
            Some(KeyCode::KeyE)
        } else if s[0] == 'F' {
            Some(KeyCode::KeyF)
        } else if s[0] == 'G' {
            Some(KeyCode::KeyG)
        } else if s[0] == 'H' {
            Some(KeyCode::KeyH)
        } else if s[0] == 'I' {
            Some(KeyCode::KeyI)
        } else if s[0] == 'J' {
            Some(KeyCode::KeyJ)
        } else if s[0] == 'K' {
            Some(KeyCode::KeyK)
        } else if s[0] == 'L' {
            Some(KeyCode::KeyL)
        } else if s[0] == 'M' {
            Some(KeyCode::KeyM)
        } else if s[0] == 'N' {
            Some(KeyCode::KeyN)
        } else if s[0] == 'O' {
            Some(KeyCode::KeyO)
        } else if s[0] == 'P' {
            Some(KeyCode::KeyP)
        } else if s[0] == 'Q' {
            Some(KeyCode::KeyQ)
        } else if s[0] == 'R' {
            Some(KeyCode::KeyR)
        } else if s[0] == 'S' {
            Some(KeyCode::KeyS)
        } else if s[0] == 'T' {
            Some(KeyCode::KeyT)
        } else if s[0] == 'U' {
            Some(KeyCode::KeyU)
        } else if s[0] == 'V' {
            Some(KeyCode::KeyV)
        } else if s[0] == 'W' {
            Some(KeyCode::KeyW)
        } else if s[0] == 'X' {
            Some(KeyCode::KeyX)
        } else if s[0] == 'Y' {
            Some(KeyCode::KeyY)
        } else if s[0] == 'Z' {
            Some(KeyCode::KeyZ)
        } else {
            None
        }
    } else if s.len() == 2 {
        if s[0] == 'F' {
            if s[1] == '1' {
                Some(KeyCode::F1)
            } else if s[1] == '2' {
                Some(KeyCode::F2)
            } else if s[1] == '3' {
                Some(KeyCode::F3)
            } else if s[1] == '4' {
                Some(KeyCode::F4)
            } else if s[1] == '5' {
                Some(KeyCode::F5)
            } else if s[1] == '6' {
                Some(KeyCode::F6)
            } else if s[1] == '7' {
                Some(KeyCode::F7)
            } else if s[1] == '8' {
                Some(KeyCode::F8)
            } else if s[1] == '9' {
                Some(KeyCode::F9)
            } else {
                None
            }
        } else if s[0] == 'U' {
            Some(KeyCode::ArrowUp)
        } else {
            None
        }
    } else if s.len() == 3 {
        if s[0] == 'E' {
            if s[1] == 'n' {
                Some(KeyCode::End)
            } else if s[1] == 's' {
                Some(KeyCode::Escape)
            } else {
                None
            }
        } else if s[0] == 'F' {
            if s[2] == '0' {
                Some(KeyCode::F10)
            } else if s[2] == '1' {
                Some(KeyCode::F11)
            } else if s[2] == '2' {
                Some(KeyCode::F12)
            } else {
                None
            }
        } else if s[0] == 'T' {
            Some(KeyCode::Tab)
        } else {
            None
        }
    } else if s.len() == 4 {
        if s[0] == 'D' {
            Some(KeyCode::ArrowDown)
        } else if s[0] == 'H' {
            Some(KeyCode::Home)
        } else if s[0] == 'L' {
            Some(KeyCode::ArrowLeft)
        } else {
            None
        }
    } else if s.len() == 5 {
        if s[0] == 'C' {
            Some(KeyCode::Comma)
        } else if s[0] == 'E' {
            if s[1] == 'n' {
                Some(KeyCode::Enter)
            } else if s[1] == 'q' {
                Some(KeyCode::Equal)
            } else {
                None
            }
        } else if s[0] == 'L' {
            Some(KeyCode::AltLeft)
        } else if s[0] == 'M' {
            Some(KeyCode::Minus)
        } else if s[0] == 'Q' {
            Some(KeyCode::Quote)
        } else if s[0] == 'R' {
            if s[1] == '-' {
                Some(KeyCode::AltRight)
            } else if s[1] == 'i' {
                Some(KeyCode::ArrowRight)
            } else {
                None
            }
        } else if s[0] == 'S' {
            if s[1] == 'l' {
                Some(KeyCode::Slash)
            } else if s[1] == 'p' {
                Some(KeyCode::Space)
            } else {
                None
            }
        } else {
            None
        }
    } else if s.len() == 6 {
        if s[0] == 'D' {
            if s[1] == 'e' {
                Some(KeyCode::Delete)
            } else if s[1] == 'i' {
                if s[5] == '0' {
                    Some(KeyCode::Digit0)
                } else if s[5] == '1' {
                    Some(KeyCode::Digit1)
                } else if s[5] == '2' {
                    Some(KeyCode::Digit2)
                } else if s[5] == '3' {
                    Some(KeyCode::Digit3)
                } else if s[5] == '4' {
                    Some(KeyCode::Digit4)
                } else if s[5] == '5' {
                    Some(KeyCode::Digit5)
                } else if s[5] == '6' {
                    Some(KeyCode::Digit6)
                } else if s[5] == '7' {
                    Some(KeyCode::Digit7)
                } else if s[5] == '8' {
                    Some(KeyCode::Digit8)
                } else if s[5] == '9' {
                    Some(KeyCode::Digit9)
                } else {
                    None
                }
            } else {
                None
            }
        } else if s[0] == 'I' {
            Some(KeyCode::Insert)
        } else if s[0] == 'L' {
            Some(KeyCode::ControlLeft)
        } else if s[0] == 'P' {
            if s[1] == 'a' {
                Some(KeyCode::PageUp)
            } else if s[1] == 'e' {
                Some(KeyCode::Period)
            } else {
                None
            }
        } else if s[0] == 'R' {
            Some(KeyCode::ControlRight)
        } else {
            None
        }
    } else if s.len() == 7 {
        if s[0] == 'L' {
            Some(KeyCode::ShiftLeft)
        } else if s[0] == 'N' {
            if s[6] == '0' {
                Some(KeyCode::Numpad0)
            } else if s[6] == '1' {
                Some(KeyCode::Numpad1)
            } else if s[6] == '2' {
                Some(KeyCode::Numpad2)
            } else if s[6] == '3' {
                Some(KeyCode::Numpad3)
            } else if s[6] == '4' {
                Some(KeyCode::Numpad4)
            } else if s[6] == '5' {
                Some(KeyCode::Numpad5)
            } else if s[6] == '6' {
                Some(KeyCode::Numpad6)
            } else if s[6] == '7' {
                Some(KeyCode::Numpad7)
            } else if s[6] == '8' {
                Some(KeyCode::Numpad8)
            } else if s[6] == '9' {
                Some(KeyCode::Numpad9)
            } else {
                None
            }
        } else if s[0] == 'R' {
            Some(KeyCode::ShiftRight)
        } else {
            None
        }
    } else if s.len() == 8 {
        if s[0] == 'C' {
            Some(KeyCode::CapsLock)
        } else if s[0] == 'P' {
            Some(KeyCode::PageDown)
        } else {
            None
        }
    } else if s.len() == 9 {
        if s[0] == 'B' {
            if s[4] == 'q' {
                Some(KeyCode::Backquote)
            } else if s[4] == 's' {
                if s[5] == 'l' {
                    Some(KeyCode::Backslash)
                } else if s[5] == 'p' {
                    Some(KeyCode::Backspace)
                } else {
                    None
                }
            } else {
                None
            }
        } else if s[0] == 'N' {
            Some(KeyCode::NumpadAdd)
        } else if s[0] == 'S' {
            if s[1] == 'e' {
                Some(KeyCode::Semicolon)
            } else if s[1] == 'u' {
                Some(KeyCode::SuperLeft)
            } else {
                None
            }
        } else {
            None
        }
    } else if s.len() == 10 {
        Some(KeyCode::SuperRight)
    } else if s.len() == 11 {
        if s[0] == 'B' {
            Some(KeyCode::BracketLeft)
        } else if s[0] == 'N' {
            Some(KeyCode::NumpadEnter)
        } else {
            None
        }
    } else if s.len() == 12 {
        if s[0] == 'B' {
            Some(KeyCode::BracketRight)
        } else if s[0] == 'N' {
            Some(KeyCode::NumpadDivide)
        } else {
            None
        }
    } else if s.len() == 13 {
        Some(KeyCode::NumpadDecimal)
    } else if s.len() == 14 {
        if s[6] == 'M' {
            Some(KeyCode::NumpadMultiply)
        } else if s[6] == 'S' {
            Some(KeyCode::NumpadSubtract)
        } else {
            None
        }
    } else {
        None
    }
}

/// The label of `ArrowUp`.
proof fn lemma_label_arrow_up()
    ensures
        key_label(KeyCode::ArrowUp) == "Up"@,
{
    reveal_strlit("ArrowUp");
    reveal_strlit("Up");
}

/// The label of `ArrowDown`.
proof fn lemma_label_arrow_down()
    ensures
        key_label(KeyCode::ArrowDown) == "Down"@,
{
    reveal_strlit("ArrowDown");
    reveal_strlit("Down");
}

/// The label of `ArrowLeft`.
proof fn lemma_label_arrow_left()
    ensures
        key_label(KeyCode::ArrowLeft) == "Left"@,
{
    reveal_strlit("ArrowLeft");
    reveal_strlit("Left");
}

/// The label of `ArrowRight`.
proof fn lemma_label_arrow_right()
    ensures
        key_label(KeyCode::ArrowRight) == "Right"@,
{
    reveal_strlit("ArrowRight");
    reveal_strlit("Right");
}

/// The label of `KeyA`.
proof fn lemma_label_key_a()
    ensures
        key_label(KeyCode::KeyA) == "A"@,
{
    reveal_strlit("KeyA");
    reveal_strlit("A");
    assert("KeyA"@.skip(3) =~= "A"@);
    reveal_with_fuel(without_key_word, 6);
}

/// The label of `KeyB`.
proof fn lemma_label_key_b()
    ensures
        key_label(KeyCode::KeyB) == "B"@,
{
    reveal_strlit("KeyB");
    reveal_strlit("B");
    assert("KeyB"@.skip(3) =~= "B"@);
    reveal_with_fuel(without_key_word, 6);
}

/// The label of `KeyC`.
proof fn lemma_label_key_c()
    ensures
        key_label(KeyCode::KeyC) == "C"@,
{
    reveal_strlit("KeyC");
    reveal_strlit("C");
    assert("KeyC"@.skip(3) =~= "C"@);
    reveal_with_fuel(without_key_word, 6);
}

/// The label of `KeyD`.
proof fn lemma_label_key_d()
    ensures
        key_label(KeyCode::KeyD) == "D"@,
{
    reveal_strlit("KeyD");
    reveal_strlit("D");
    assert("KeyD"@.skip(3) =~= "D"@);
    reveal_with_fuel(without_key_word, 6);
}

/// The label of `KeyE`.
proof fn lemma_label_key_e()
    ensures
        key_label(KeyCode::KeyE) == "E"@,
{
    reveal_strlit("KeyE");
    reveal_strlit("E");
    assert("KeyE"@.skip(3) =~= "E"@);
    reveal_with_fuel(without_key_word, 6);
}

/// The label of `KeyF`.
proof fn lemma_label_key_f()
    ensures
        key_label(KeyCode::KeyF) == "F"@,
{
    reveal_strlit("KeyF");
    reveal_strlit("F");
    assert("KeyF"@.skip(3) =~= "F"@);
    reveal_with_fuel(without_key_word, 6);
}

/// The label of `KeyG`.
proof fn lemma_label_key_g()
    ensures
        key_label(KeyCode::KeyG) == "G"@,
{
    reveal_strlit("KeyG");
    reveal_strlit("G");
    assert("KeyG"@.skip(3) =~= "G"@);
    reveal_with_fuel(without_key_word, 6);
}

/// The label of `KeyH`.
proof fn lemma_label_key_h()
    ensures
        key_label(KeyCode::KeyH) == "H"@,
{
    reveal_strlit("KeyH");
    reveal_strlit("H");
    assert("KeyH"@.skip(3) =~= "H"@);
    reveal_with_fuel(without_key_word, 6);
}

/// The label of `KeyI`.
proof fn lemma_label_key_i()
    ensures
        key_label(KeyCode::KeyI) == "I"@,
{
    reveal_strlit("KeyI");
    reveal_strlit("I");
    assert("KeyI"@.skip(3) =~= "I"@);
    reveal_with_fuel(without_key_word, 6);
}

/// The label of `KeyJ`.
proof fn lemma_label_key_j()
    ensures
        key_label(KeyCode::KeyJ) == "J"@,
{
    reveal_strlit("KeyJ");
    reveal_strlit("J");
    assert("KeyJ"@.skip(3) =~= "J"@);
    reveal_with_fuel(without_key_word, 6);
}

/// The label of `KeyK`.
proof fn lemma_label_key_k()
    ensures
        key_label(KeyCode::KeyK) == "K"@,
{
    reveal_strlit("KeyK");
    reveal_strlit("K");
    assert("KeyK"@.skip(3) =~= "K"@);
    reveal_with_fuel(without_key_word, 6);
}

/// The label of `KeyL`.
proof fn lemma_label_key_l()
    ensures
        key_label(KeyCode::KeyL) == "L"@,
{
    reveal_strlit("KeyL");
    reveal_strlit("L");
    assert("KeyL"@.skip(3) =~= "L"@);
    reveal_with_fuel(without_key_word, 6);
}

/// The label of `KeyM`.
proof fn lemma_label_key_m()
    ensures
        key_label(KeyCode::KeyM) == "M"@,
{
    reveal_strlit("KeyM");
    reveal_strlit("M");
    assert("KeyM"@.skip(3) =~= "M"@);
    reveal_with_fuel(without_key_word, 6);
}

/// The label of `KeyN`.
proof fn lemma_label_key_n()
    ensures
        key_label(KeyCode::KeyN) == "N"@,
{
    reveal_strlit("KeyN");
    reveal_strlit("N");
    assert("KeyN"@.skip(3) =~= "N"@);
    reveal_with_fuel(without_key_word, 6);
}

/// The label of `KeyO`.
proof fn lemma_label_key_o()
    ensures
        key_label(KeyCode::KeyO) == "O"@,
{
    reveal_strlit("KeyO");
    reveal_strlit("O");
    assert("KeyO"@.skip(3) =~= "O"@);
    reveal_with_fuel(without_key_word, 6);
}

/// The label of `KeyP`.
proof fn lemma_label_key_p()
    ensures
        key_label(KeyCode::KeyP) == "P"@,
{
    reveal_strlit("KeyP");
    reveal_strlit("P");
    assert("KeyP"@.skip(3) =~= "P"@);
    reveal_with_fuel(without_key_word, 6);
}

/// The label of `KeyQ`.
proof fn lemma_label_key_q()
    ensures
        key_label(KeyCode::KeyQ) == "Q"@,
{
    reveal_strlit("KeyQ");
    reveal_strlit("Q");
    assert("KeyQ"@.skip(3) =~= "Q"@);
    reveal_with_fuel(without_key_word, 6);
}

/// The label of `KeyR`.
proof fn lemma_label_key_r()
    ensures
        key_label(KeyCode::KeyR) == "R"@,
{
    reveal_strlit("KeyR");
    reveal_strlit("R");
    assert("KeyR"@.skip(3) =~= "R"@);
    reveal_with_fuel(without_key_word, 6);
}

/// The label of `KeyS`.
proof fn lemma_label_key_s()
    ensures
        key_label(KeyCode::KeyS) == "S"@,
{
    reveal_strlit("KeyS");
    reveal_strlit("S");
    assert("KeyS"@.skip(3) =~= "S"@);
    reveal_with_fuel(without_key_word, 6);
}

/// The label of `KeyT`.
proof fn lemma_label_key_t()
    ensures
        key_label(KeyCode::KeyT) == "T"@,
{
    reveal_strlit("KeyT");
    reveal_strlit("T");
    assert("KeyT"@.skip(3) =~= "T"@);
    reveal_with_fuel(without_key_word, 6);
}

/// The label of `KeyU`.
proof fn lemma_label_key_u()
    ensures
        key_label(KeyCode::KeyU) == "U"@,
{
    reveal_strlit("KeyU");
    reveal_strlit("U");
    assert("KeyU"@.skip(3) =~= "U"@);
    reveal_with_fuel(without_key_word, 6);
}

/// The label of `KeyV`.
proof fn lemma_label_key_v()
    ensures
        key_label(KeyCode::KeyV) == "V"@,
{
    reveal_strlit("KeyV");
    reveal_strlit("V");
    assert("KeyV"@.skip(3) =~= "V"@);
    reveal_with_fuel(without_key_word, 6);
}

/// The label of `KeyW`.
proof fn lemma_label_key_w()
    ensures
        key_label(KeyCode::KeyW) == "W"@,
{
    reveal_strlit("KeyW");
    reveal_strlit("W");
    assert("KeyW"@.skip(3) =~= "W"@);
    reveal_with_fuel(without_key_word, 6);
}

/// The label of `KeyX`.
proof fn lemma_label_key_x()
    ensures
        key_label(KeyCode::KeyX) == "X"@,
{
    reveal_strlit("KeyX");
    reveal_strlit("X");
    assert("KeyX"@.skip(3) =~= "X"@);
    reveal_with_fuel(without_key_word, 6);
}

/// The label of `KeyY`.
proof fn lemma_label_key_y()
    ensures
        key_label(KeyCode::KeyY) == "Y"@,
{
    reveal_strlit("KeyY");
    reveal_strlit("Y");
    assert("KeyY"@.skip(3) =~= "Y"@);
    reveal_with_fuel(without_key_word, 6);
}

/// The label of `KeyZ`.
proof fn lemma_label_key_z()
    ensures
        key_label(KeyCode::KeyZ) == "Z"@,
{
    reveal_strlit("KeyZ");
    reveal_strlit("Z");
    assert("KeyZ"@.skip(3) =~= "Z"@);
    reveal_with_fuel(without_key_word, 6);
}

/// The label of `Digit0`.
proof fn lemma_label_digit0()
    ensures
        key_label(KeyCode::Digit0) == "Digit0"@,
{
    reveal_strlit("Digit0");
    reveal_strlit("Digit0");
    reveal_with_fuel(without_key_word, 8);
}

/// The label of `Digit1`.
proof fn lemma_label_digit1()
    ensures
        key_label(KeyCode::Digit1) == "Digit1"@,
{
    reveal_strlit("Digit1");
    reveal_strlit("Digit1");
    reveal_with_fuel(without_key_word, 8);
}

/// The label of `Digit2`.
proof fn lemma_label_digit2()
    ensures
        key_label(KeyCode::Digit2) == "Digit2"@,
{
    reveal_strlit("Digit2");
    reveal_strlit("Digit2");
    reveal_with_fuel(without_key_word, 8);
}

/// The label of `Digit3`.
proof fn lemma_label_digit3()
    ensures
        key_label(KeyCode::Digit3) == "Digit3"@,
{
    reveal_strlit("Digit3");
    reveal_strlit("Digit3");
    reveal_with_fuel(without_key_word, 8);
}

/// The label of `Digit4`.
proof fn lemma_label_digit4()
    ensures
        key_label(KeyCode::Digit4) == "Digit4"@,
{
    reveal_strlit("Digit4");
    reveal_strlit("Digit4");
    reveal_with_fuel(without_key_word, 8);
}

/// The label of `Digit5`.
proof fn lemma_label_digit5()
    ensures
        key_label(KeyCode::Digit5) == "Digit5"@,
{
    reveal_strlit("Digit5");
    reveal_strlit("Digit5");
    reveal_with_fuel(without_key_word, 8);
}

/// The label of `Digit6`.
proof fn lemma_label_digit6()
    ensures
        key_label(KeyCode::Digit6) == "Digit6"@,
{
    reveal_strlit("Digit6");
    reveal_strlit("Digit6");
    reveal_with_fuel(without_key_word, 8);
}

/// The label of `Digit7`.
proof fn lemma_label_digit7()
    ensures
        key_label(KeyCode::Digit7) == "Digit7"@,
{
    reveal_strlit("Digit7");
    reveal_strlit("Digit7");
    reveal_with_fuel(without_key_word, 8);
}

/// The label of `Digit8`.
proof fn lemma_label_digit8()
    ensures
        key_label(KeyCode::Digit8) == "Digit8"@,
{
    reveal_strlit("Digit8");
    reveal_strlit("Digit8");
    reveal_with_fuel(without_key_word, 8);
}

/// The label of `Digit9`.
proof fn lemma_label_digit9()
    ensures
        key_label(KeyCode::Digit9) == "Digit9"@,
{
    reveal_strlit("Digit9");
    reveal_strlit("Digit9");
    reveal_with_fuel(without_key_word, 8);
}

/// The label of `ShiftLeft`.
proof fn lemma_label_shift_left()
    ensures
        key_label(KeyCode::ShiftLeft) == "L-Shift"@,
{
    reveal_strlit("ShiftLeft");
    reveal_strlit("L-Shift");
}

/// The label of `ShiftRight`.
proof fn lemma_label_shift_right()
    ensures
        key_label(KeyCode::ShiftRight) == "R-Shift"@,
{
    reveal_strlit("ShiftRight");
    reveal_strlit("R-Shift");
}

/// The label of `ControlLeft`.
proof fn lemma_label_control_left()
    ensures
        key_label(KeyCode::ControlLeft) == "L-Ctrl"@,
{
    reveal_strlit("ControlLeft");
    reveal_strlit("L-Ctrl");
}

/// The label of `ControlRight`.
proof fn lemma_label_control_right()
    ensures
        key_label(KeyCode::ControlRight) == "R-Ctrl"@,
{
    reveal_strlit("ControlRight");
    reveal_strlit("R-Ctrl");
}

/// The label of `AltLeft`.
proof fn lemma_label_alt_left()
    ensures
        key_label(KeyCode::AltLeft) == "L-Alt"@,
{
    reveal_strlit("AltLeft");
    reveal_strlit("L-Alt");
}

/// The label of `AltRight`.
proof fn lemma_label_alt_right()
    ensures
        key_label(KeyCode::AltRight) == "R-Alt"@,
{
    reveal_strlit("AltRight");
    reveal_strlit("R-Alt");
}

/// The label of `SuperLeft`.
proof fn lemma_label_super_left()
    ensures
        key_label(KeyCode::SuperLeft) == "SuperLeft"@,
{
    reveal_strlit("SuperLeft");
    reveal_strlit("SuperLeft");
    reveal_with_fuel(without_key_word, 11);
}

/// The label of `SuperRight`.
proof fn lemma_label_super_right()
    ensures
        key_label(KeyCode::SuperRight) == "SuperRight"@,
{
    reveal_strlit("SuperRight");
    reveal_strlit("SuperRight");
    reveal_with_fuel(without_key_word, 12);
}

/// The label of `Space`.
proof fn lemma_label_space()
    ensures
        key_label(KeyCode::Space) == "Space"@,
{
    reveal_strlit("Space");
    reveal_strlit("Space");
}

/// The label of `Enter`.
proof fn lemma_label_enter()
    ensures
        key_label(KeyCode::Enter) == "Enter"@,
{
    reveal_strlit("Enter");
    reveal_strlit("Enter");
}

/// The label of `Escape`.
proof fn lemma_label_escape()
    ensures
        key_label(KeyCode::Escape) == "Esc"@,
{
    reveal_strlit("Escape");
    reveal_strlit("Esc");
}

/// The label of `Backspace`.
proof fn lemma_label_backspace()
    ensures
        key_label(KeyCode::Backspace) == "Backspace"@,
{
    reveal_strlit("Backspace");
    reveal_strlit("Backspace");
    reveal_with_fuel(without_key_word, 11);
}

/// The label of `Tab`.
proof fn lemma_label_tab()
    ensures
        key_label(KeyCode::Tab) == "Tab"@,
{
    reveal_strlit("Tab");
    reveal_strlit("Tab");
}

/// The label of `CapsLock`.
proof fn lemma_label_caps_lock()
    ensures
        key_label(KeyCode::CapsLock) == "CapsLock"@,
{
    reveal_strlit("CapsLock");
    reveal_strlit("CapsLock");
    reveal_with_fuel(without_key_word, 10);
}

/// The label of `F1`.
proof fn lemma_label_f1()
    ensures
        key_label(KeyCode::F1) == "F1"@,
{
    reveal_strlit("F1");
    reveal_strlit("F1");
    reveal_with_fuel(without_key_word, 4);
}

/// The label of `F2`.
proof fn lemma_label_f2()
    ensures
        key_label(KeyCode::F2) == "F2"@,
{
    reveal_strlit("F2");
    reveal_strlit("F2");
    reveal_with_fuel(without_key_word, 4);
}

/// The label of `F3`.
proof fn lemma_label_f3()
    ensures
        key_label(KeyCode::F3) == "F3"@,
{
    reveal_strlit("F3");
    reveal_strlit("F3");
    reveal_with_fuel(without_key_word, 4);
}

/// The label of `F4`.
proof fn lemma_label_f4()
    ensures
        key_label(KeyCode::F4) == "F4"@,
{
    reveal_strlit("F4");
    reveal_strlit("F4");
    reveal_with_fuel(without_key_word, 4);
}

/// The label of `F5`.
proof fn lemma_label_f5()
    ensures
        key_label(KeyCode::F5) == "F5"@,
{
    reveal_strlit("F5");
    reveal_strlit("F5");
    reveal_with_fuel(without_key_word, 4);
}

/// The label of `F6`.
proof fn lemma_label_f6()
    ensures
        key_label(KeyCode::F6) == "F6"@,
{
    reveal_strlit("F6");
    reveal_strlit("F6");
    reveal_with_fuel(without_key_word, 4);
}

/// The label of `F7`.
proof fn lemma_label_f7()
    ensures
        key_label(KeyCode::F7) == "F7"@,
{
    reveal_strlit("F7");
    reveal_strlit("F7");
    reveal_with_fuel(without_key_word, 4);
}

/// The label of `F8`.
proof fn lemma_label_f8()
    ensures
        key_label(KeyCode::F8) == "F8"@,
{
    reveal_strlit("F8");
    reveal_strlit("F8");
    reveal_with_fuel(without_key_word, 4);
}

/// The label of `F9`.
proof fn lemma_label_f9()
    ensures
        key_label(KeyCode::F9) == "F9"@,
{
    reveal_strlit("F9");
    reveal_strlit("F9");
    reveal_with_fuel(without_key_word, 4);
}

/// The label of `F10`.
proof fn lemma_label_f10()
    ensures
        key_label(KeyCode::F10) == "F10"@,
{
    reveal_strlit("F10");
    reveal_strlit("F10");
    reveal_with_fuel(without_key_word, 5);
}

/// The label of `F11`.
proof fn lemma_label_f11()
    ensures
        key_label(KeyCode::F11) == "F11"@,
{
    reveal_strlit("F11");
    reveal_strlit("F11");
    reveal_with_fuel(without_key_word, 5);
}

/// The label of `F12`.
proof fn lemma_label_f12()
    ensures
        key_label(KeyCode::F12) == "F12"@,
{
    reveal_strlit("F12");
    reveal_strlit("F12");
    reveal_with_fuel(without_key_word, 5);
}

/// The label of `Comma`.
proof fn lemma_label_comma()
    ensures
        key_label(KeyCode::Comma) == "Comma"@,
{
    reveal_strlit("Comma");
    reveal_strlit("Comma");
    reveal_with_fuel(without_key_word, 7);
}

/// The label of `Period`.
proof fn lemma_label_period()
    ensures
        key_label(KeyCode::Period) == "Period"@,
{
    reveal_strlit("Period");
    reveal_strlit("Period");
    reveal_with_fuel(without_key_word, 8);
}

/// The label of `Slash`.
proof fn lemma_label_slash()
    ensures
        key_label(KeyCode::Slash) == "Slash"@,
{
    reveal_strlit("Slash");
    reveal_strlit("Slash");
    reveal_with_fuel(without_key_word, 7);
}

/// The label of `Semicolon`.
proof fn lemma_label_semicolon()
    ensures
        key_label(KeyCode::Semicolon) == "Semicolon"@,
{
    reveal_strlit("Semicolon");
    reveal_strlit("Semicolon");
    reveal_with_fuel(without_key_word, 11);
}

/// The label of `Quote`.
proof fn lemma_label_quote()
    ensures
        key_label(KeyCode::Quote) == "Quote"@,
{
    reveal_strlit("Quote");
    reveal_strlit("Quote");
    reveal_with_fuel(without_key_word, 7);
}

/// The label of `BracketLeft`.
proof fn lemma_label_bracket_left()
    ensures
        key_label(KeyCode::BracketLeft) == "BracketLeft"@,
{
    reveal_strlit("BracketLeft");
    reveal_strlit("BracketLeft");
    reveal_with_fuel(without_key_word, 13);
}

/// The label of `BracketRight`.
proof fn lemma_label_bracket_right()
    ensures
        key_label(KeyCode::BracketRight) == "BracketRight"@,
{
    reveal_strlit("BracketRight");
    reveal_strlit("BracketRight");
    reveal_with_fuel(without_key_word, 14);
}

/// The label of `Backslash`.
proof fn lemma_label_backslash()
    ensures
        key_label(KeyCode::Backslash) == "Backslash"@,
{
    reveal_strlit("Backslash");
    reveal_strlit("Backslash");
    reveal_with_fuel(without_key_word, 11);
}

/// The label of `Minus`.
proof fn lemma_label_minus()
    ensures
        key_label(KeyCode::Minus) == "Minus"@,
{
    reveal_strlit("Minus");
    reveal_strlit("Minus");
    reveal_with_fuel(without_key_word, 7);
}

/// The label of `Equal`.
proof fn lemma_label_equal()
    ensures
        key_label(KeyCode::Equal) == "Equal"@,
{
    reveal_strlit("Equal");
    reveal_strlit("Equal");
    reveal_with_fuel(without_key_word, 7);
}

/// The label of `Backquote`.
proof fn lemma_label_backquote()
    ensures
        key_label(KeyCode::Backquote) == "Backquote"@,
{
    reveal_strlit("Backquote");
    reveal_strlit("Backquote");
    reveal_with_fuel(without_key_word, 11);
}

/// The label of `Numpad0`.
proof fn lemma_label_numpad0()
    ensures
        key_label(KeyCode::Numpad0) == "Numpad0"@,
{
    reveal_strlit("Numpad0");
    reveal_strlit("Numpad0");
    reveal_with_fuel(without_key_word, 9);
}

/// The label of `Numpad1`.
proof fn lemma_label_numpad1()
    ensures
        key_label(KeyCode::Numpad1) == "Numpad1"@,
{
    reveal_strlit("Numpad1");
    reveal_strlit("Numpad1");
    reveal_with_fuel(without_key_word, 9);
}

/// The label of `Numpad2`.
proof fn lemma_label_numpad2()
    ensures
        key_label(KeyCode::Numpad2) == "Numpad2"@,
{
    reveal_strlit("Numpad2");
    reveal_strlit("Numpad2");
    reveal_with_fuel(without_key_word, 9);
}

/// The label of `Numpad3`.
proof fn lemma_label_numpad3()
    ensures
        key_label(KeyCode::Numpad3) == "Numpad3"@,
{
    reveal_strlit("Numpad3");
    reveal_strlit("Numpad3");
    reveal_with_fuel(without_key_word, 9);
}

/// The label of `Numpad4`.
proof fn lemma_label_numpad4()
    ensures
        key_label(KeyCode::Numpad4) == "Numpad4"@,
{
    reveal_strlit("Numpad4");
    reveal_strlit("Numpad4");
    reveal_with_fuel(without_key_word, 9);
}

/// The label of `Numpad5`.
proof fn lemma_label_numpad5()
    ensures
        key_label(KeyCode::Numpad5) == "Numpad5"@,
{
    reveal_strlit("Numpad5");
    reveal_strlit("Numpad5");
    reveal_with_fuel(without_key_word, 9);
}

/// The label of `Numpad6`.
proof fn lemma_label_numpad6()
    ensures
        key_label(KeyCode::Numpad6) == "Numpad6"@,
{
    reveal_strlit("Numpad6");
    reveal_strlit("Numpad6");
    reveal_with_fuel(without_key_word, 9);
}

/// The label of `Numpad7`.
proof fn lemma_label_numpad7()
    ensures
        key_label(KeyCode::Numpad7) == "Numpad7"@,
{
    reveal_strlit("Numpad7");
    reveal_strlit("Numpad7");
    reveal_with_fuel(without_key_word, 9);
}

/// The label of `Numpad8`.
proof fn lemma_label_numpad8()
    ensures
        key_label(KeyCode::Numpad8) == "Numpad8"@,
{
    reveal_strlit("Numpad8");
    reveal_strlit("Numpad8");
    reveal_with_fuel(without_key_word, 9);
}

/// The label of `Numpad9`.
proof fn lemma_label_numpad9()
    ensures
        key_label(KeyCode::Numpad9) == "Numpad9"@,
{
    reveal_strlit("Numpad9");
    reveal_strlit("Numpad9");
    reveal_with_fuel(without_key_word, 9);
}

/// The label of `NumpadAdd`.
proof fn lemma_label_numpad_add()
    ensures
        key_label(KeyCode::NumpadAdd) == "NumpadAdd"@,
{
    reveal_strlit("NumpadAdd");
    reveal_strlit("NumpadAdd");
    reveal_with_fuel(without_key_word, 11);
}

/// The label of `NumpadSubtract`.
proof fn lemma_label_numpad_subtract()
    ensures
        key_label(KeyCode::NumpadSubtract) == "NumpadSubtract"@,
{
    reveal_strlit("NumpadSubtract");
    reveal_strlit("NumpadSubtract");
    reveal_with_fuel(without_key_word, 16);
}

/// The label of `NumpadMultiply`.
proof fn lemma_label_numpad_multiply()
    ensures
        key_label(KeyCode::NumpadMultiply) == "NumpadMultiply"@,
{
    reveal_strlit("NumpadMultiply");
    reveal_strlit("NumpadMultiply");
    reveal_with_fuel(without_key_word, 16);
}

/// The label of `NumpadDivide`.
proof fn lemma_label_numpad_divide()
    ensures
        key_label(KeyCode::NumpadDivide) == "NumpadDivide"@,
{
    reveal_strlit("NumpadDivide");
    reveal_strlit("NumpadDivide");
    reveal_with_fuel(without_key_word, 14);
}

/// The label of `NumpadEnter`.
proof fn lemma_label_numpad_enter()
    ensures
        key_label(KeyCode::NumpadEnter) == "NumpadEnter"@,
{
    reveal_strlit("NumpadEnter");
    reveal_strlit("NumpadEnter");
    reveal_with_fuel(without_key_word, 13);
}

/// The label of `NumpadDecimal`.
proof fn lemma_label_numpad_decimal()
    ensures
        key_label(KeyCode::NumpadDecimal) == "NumpadDecimal"@,
{
    reveal_strlit("NumpadDecimal");
    reveal_strlit("NumpadDecimal");
    reveal_with_fuel(without_key_word, 15);
}

/// The label of `Insert`.
proof fn lemma_label_insert()
    ensures
        key_label(KeyCode::Insert) == "Insert"@,
{
    reveal_strlit("Insert");
    reveal_strlit("Insert");
    reveal_with_fuel(without_key_word, 8);
}

/// The label of `Delete`.
proof fn lemma_label_delete()
    ensures
        key_label(KeyCode::Delete) == "Delete"@,
{
    reveal_strlit("Delete");
    reveal_strlit("Delete");
    reveal_with_fuel(without_key_word, 8);
}

/// The label of `Home`.
proof fn lemma_label_home()
    ensures
        key_label(KeyCode::Home) == "Home"@,
{
    reveal_strlit("Home");
    reveal_strlit("Home");
    reveal_with_fuel(without_key_word, 6);
}

/// The label of `End`.
proof fn lemma_label_end()
    ensures
        key_label(KeyCode::End) == "End"@,
{
    reveal_strlit("End");
    reveal_strlit("End");
    reveal_with_fuel(without_key_word, 5);
}

/// The label of `PageUp`.
proof fn lemma_label_page_up()
    ensures
        key_label(KeyCode::PageUp) == "PageUp"@,
{
    reveal_strlit("PageUp");
    reveal_strlit("PageUp");
    reveal_with_fuel(without_key_word, 8);
}

/// The label of `PageDown`.
proof fn lemma_label_page_down()
    ensures
        key_label(KeyCode::PageDown) == "PageDown"@,
{
    reveal_strlit("PageDown");
    reveal_strlit("PageDown");
    reveal_with_fuel(without_key_word, 10);
}

/// Every named key is read back from its label.
#[verifier::spinoff_prover]
proof fn lemma_decode_label(k: KeyCode)
    requires
        is_named(k),
    ensures
        decode_label(key_label(k)) == Some(k),
{
    match k {
        KeyCode::ArrowUp => {
            reveal_strlit("Up");
            lemma_label_arrow_up();
        },
        KeyCode::ArrowDown => {
            reveal_strlit("Down");
            lemma_label_arrow_down();
        },
        KeyCode::ArrowLeft => {
            reveal_strlit("Left");
            lemma_label_arrow_left();
        },
        KeyCode::ArrowRight => {
            reveal_strlit("Right");
            lemma_label_arrow_right();
        },
        KeyCode::KeyA => {
            reveal_strlit("A");
            lemma_label_key_a();
        },
        KeyCode::KeyB => {
            reveal_strlit("B");
            lemma_label_key_b();
        },
        KeyCode::KeyC => {
            reveal_strlit("C");
            lemma_label_key_c();
        },
        KeyCode::KeyD => {
            reveal_strlit("D");
            lemma_label_key_d();
        },
        KeyCode::KeyE => {
            reveal_strlit("E");
            lemma_label_key_e();
        },
        KeyCode::KeyF => {
            reveal_strlit("F");
            lemma_label_key_f();
        },
        KeyCode::KeyG => {
            reveal_strlit("G");
            lemma_label_key_g();
        },
        KeyCode::KeyH => {
            reveal_strlit("H");
            lemma_label_key_h();
        },
        KeyCode::KeyI => {
            reveal_strlit("I");
            lemma_label_key_i();
        },
        KeyCode::KeyJ => {
            reveal_strlit("J");
            lemma_label_key_j();
        },
        KeyCode::KeyK => {
            reveal_strlit("K");
            lemma_label_key_k();
        },
        KeyCode::KeyL => {
            reveal_strlit("L");
            lemma_label_key_l();
        },
        KeyCode::KeyM => {
            reveal_strlit("M");
            lemma_label_key_m();
        },
        KeyCode::KeyN => {
            reveal_strlit("N");
            lemma_label_key_n();
        },
        KeyCode::KeyO => {
            reveal_strlit("O");
            lemma_label_key_o();
        },
        KeyCode::KeyP => {
            reveal_strlit("P");
            lemma_label_key_p();
        },
        KeyCode::KeyQ => {
            reveal_strlit("Q");
            lemma_label_key_q();
        },
        KeyCode::KeyR => {
            reveal_strlit("R");
            lemma_label_key_r();
        },
        KeyCode::KeyS => {
            reveal_strlit("S");
            lemma_label_key_s();
        },
        KeyCode::KeyT => {
            reveal_strlit("T");
            lemma_label_key_t();
        },
        KeyCode::KeyU => {
            reveal_strlit("U");
            lemma_label_key_u();
        },
        KeyCode::KeyV => {
            reveal_strlit("V");
            lemma_label_key_v();
        },
        KeyCode::KeyW => {
            reveal_strlit("W");
            lemma_label_key_w();
        },
        KeyCode::KeyX => {
            reveal_strlit("X");
            lemma_label_key_x();
        },
        KeyCode::KeyY => {
            reveal_strlit("Y");
            lemma_label_key_y();
        },
        KeyCode::KeyZ => {
            reveal_strlit("Z");
            lemma_label_key_z();
        },
        KeyCode::Digit0 => {
            reveal_strlit("Digit0");
            lemma_label_digit0();
        },
        KeyCode::Digit1 => {
            reveal_strlit("Digit1");
            lemma_label_digit1();
        },
        KeyCode::Digit2 => {
            reveal_strlit("Digit2");
            lemma_label_digit2();
        },
        KeyCode::Digit3 => {
            reveal_strlit("Digit3");
            lemma_label_digit3();
        },
        KeyCode::Digit4 => {
            reveal_strlit("Digit4");
            lemma_label_digit4();
        },
        KeyCode::Digit5 => {
            reveal_strlit("Digit5");
            lemma_label_digit5();
        },
        KeyCode::Digit6 => {
            reveal_strlit("Digit6");
            lemma_label_digit6();
        },
        KeyCode::Digit7 => {
            reveal_strlit("Digit7");
            lemma_label_digit7();
        },
        KeyCode::Digit8 => {
            reveal_strlit("Digit8");
            lemma_label_digit8();
        },
        KeyCode::Digit9 => {
            reveal_strlit("Digit9");
            lemma_label_digit9();
        },
        KeyCode::ShiftLeft => {
            reveal_strlit("L-Shift");
            lemma_label_shift_left();
        },
        KeyCode::ShiftRight => {
            reveal_strlit("R-Shift");
            lemma_label_shift_right();
        },
        KeyCode::ControlLeft => {
            reveal_strlit("L-Ctrl");
            lemma_label_control_left();
        },
        KeyCode::ControlRight => {
            reveal_strlit("R-Ctrl");
            lemma_label_control_right();
        },
        KeyCode::AltLeft => {
            reveal_strlit("L-Alt");
            lemma_label_alt_left();
        },
        KeyCode::AltRight => {
            reveal_strlit("R-Alt");
            lemma_label_alt_right();
        },
        KeyCode::SuperLeft => {
            reveal_strlit("SuperLeft");
            lemma_label_super_left();
        },
        KeyCode::SuperRight => {
            reveal_strlit("SuperRight");
            lemma_label_super_right();
        },
        KeyCode::Space => {
            reveal_strlit("Space");
            lemma_label_space();
        },
        KeyCode::Enter => {
            reveal_strlit("Enter");
            lemma_label_enter();
        },
        KeyCode::Escape => {
            reveal_strlit("Esc");
            lemma_label_escape();
        },
        KeyCode::Backspace => {
            reveal_strlit("Backspace");
            lemma_label_backspace();
        },
        KeyCode::Tab => {
            reveal_strlit("Tab");
            lemma_label_tab();
        },
        KeyCode::CapsLock => {
            reveal_strlit("CapsLock");
            lemma_label_caps_lock();
        },
        KeyCode::F1 => {
            reveal_strlit("F1");
            lemma_label_f1();
        },
        KeyCode::F2 => {
            reveal_strlit("F2");
            lemma_label_f2();
        },
        KeyCode::F3 => {
            reveal_strlit("F3");
            lemma_label_f3();
        },
        KeyCode::F4 => {
            reveal_strlit("F4");
            lemma_label_f4();
        },
        KeyCode::F5 => {
            reveal_strlit("F5");
            lemma_label_f5();
        },
        KeyCode::F6 => {
            reveal_strlit("F6");
            lemma_label_f6();
        },
        KeyCode::F7 => {
            reveal_strlit("F7");
            lemma_label_f7();
        },
        KeyCode::F8 => {
            reveal_strlit("F8");
            lemma_label_f8();
        },
        KeyCode::F9 => {
            reveal_strlit("F9");
            lemma_label_f9();
        },
        KeyCode::F10 => {
            reveal_strlit("F10");
            lemma_label_f10();
        },
        KeyCode::F11 => {
            reveal_strlit("F11");
            lemma_label_f11();
        },
        KeyCode::F12 => {
            reveal_strlit("F12");
            lemma_label_f12();
        },
        KeyCode::Comma => {
            reveal_strlit("Comma");
            lemma_label_comma();
        },
        KeyCode::Period => {
            reveal_strlit("Period");
            lemma_label_period();
        },
        KeyCode::Slash => {
            reveal_strlit("Slash");
            lemma_label_slash();
        },
        KeyCode::Semicolon => {
            reveal_strlit("Semicolon");
            lemma_label_semicolon();
        },
        KeyCode::Quote => {
            reveal_strlit("Quote");
            lemma_label_quote();
        },
        KeyCode::BracketLeft => {
            reveal_strlit("BracketLeft");
            lemma_label_bracket_left();
        },
        KeyCode::BracketRight => {
            reveal_strlit("BracketRight");
            lemma_label_bracket_right();
        },
        KeyCode::Backslash => {
            reveal_strlit("Backslash");
            lemma_label_backslash();
        },
        KeyCode::Minus => {
            reveal_strlit("Minus");
            lemma_label_minus();
        },
        KeyCode::Equal => {
            reveal_strlit("Equal");
            lemma_label_equal();
        },
        KeyCode::Backquote => {
            reveal_strlit("Backquote");
            lemma_label_backquote();
        },
        KeyCode::Numpad0 => {
            reveal_strlit("Numpad0");
            lemma_label_numpad0();
        },
        KeyCode::Numpad1 => {
            reveal_strlit("Numpad1");
            lemma_label_numpad1();
        },
        KeyCode::Numpad2 => {
            reveal_strlit("Numpad2");
            lemma_label_numpad2();
        },
        KeyCode::Numpad3 => {
            reveal_strlit("Numpad3");
            lemma_label_numpad3();
        },
        KeyCode::Numpad4 => {
            reveal_strlit("Numpad4");
            lemma_label_numpad4();
        },
        KeyCode::Numpad5 => {
            reveal_strlit("Numpad5");
            lemma_label_numpad5();
        },
        KeyCode::Numpad6 => {
            reveal_strlit("Numpad6");
            lemma_label_numpad6();
        },
        KeyCode::Numpad7 => {
            reveal_strlit("Numpad7");
            lemma_label_numpad7();
        },
        KeyCode::Numpad8 => {
            reveal_strlit("Numpad8");
            lemma_label_numpad8();
        },
        KeyCode::Numpad9 => {
            reveal_strlit("Numpad9");
            lemma_label_numpad9();
        },
        KeyCode::NumpadAdd => {
            reveal_strlit("NumpadAdd");
            lemma_label_numpad_add();
        },
        KeyCode::NumpadSubtract => {
            reveal_strlit("NumpadSubtract");
            lemma_label_numpad_subtract();
        },
        KeyCode::NumpadMultiply => {
            reveal_strlit("NumpadMultiply");
            lemma_label_numpad_multiply();
        },
        KeyCode::NumpadDivide => {
            reveal_strlit("NumpadDivide");
            lemma_label_numpad_divide();
        },
        KeyCode::NumpadEnter => {
            reveal_strlit("NumpadEnter");
            lemma_label_numpad_enter();
        },
        KeyCode::NumpadDecimal => {
            reveal_strlit("NumpadDecimal");
            lemma_label_numpad_decimal();
        },
        KeyCode::Insert => {
            reveal_strlit("Insert");
            lemma_label_insert();
        },
        KeyCode::Delete => {
            reveal_strlit("Delete");
            lemma_label_delete();
        },
        KeyCode::Home => {
            reveal_strlit("Home");
            lemma_label_home();
        },
        KeyCode::End => {
            reveal_strlit("End");
            lemma_label_end();
        },
        KeyCode::PageUp => {
            reveal_strlit("PageUp");
            lemma_label_page_up();
        },
        KeyCode::PageDown => {
            reveal_strlit("PageDown");
            lemma_label_page_down();
        },
        KeyCode::Other(_) => {},
    }
}

/// Different named keys get different labels: a player can tell every
/// bound key from every other by its label.
pub proof fn law_key_label_injective(a: KeyCode, b: KeyCode)
    requires
        is_named(a),
        is_named(b),
        key_label(a) == key_label(b),
    ensures
        a == b,
{
    lemma_decode_label(a);
    lemma_decode_label(b);
}

} // verus!
