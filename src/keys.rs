use vstd::prelude::*;

verus! {

/// A logical key event, decoded from the keypad's logical code.
#[derive(Clone, Copy, Debug, PartialEq, Eq, Structural)]
pub enum KeyEvent {
    /// A decimal digit key; the value is the digit.
    Digit(u8),
    /// The first reserved step-advance key (code 10).
    Continue,
    /// The second reserved step-advance key (code 11).
    ContinueAlt,
    /// Backspace (code 12): clears the entry like `Reset`.
    Backspace,
    /// Drops the last typed digit by shifting the entry right (code 13).
    Shift,
    /// Starts the entry over (code 18).
    Reset,
    /// Accepts the entered number (code 19).
    Confirm,
    /// A code with no meaning of its own.
    Other(u8),
}

/// The key event that a logical code stands for.
pub open spec fn key_of_code(code: u8) -> KeyEvent {
    if code <= 9 {
        KeyEvent::Digit(code)
    } else if code == 10 {
        KeyEvent::Continue
    } else if code == 11 {
        KeyEvent::ContinueAlt
    } else if code == 12 {
        KeyEvent::Backspace
    } else if code == 13 {
        KeyEvent::Shift
    } else if code == 18 {
        KeyEvent::Reset
    } else if code == 19 {
        KeyEvent::Confirm
    } else {
        KeyEvent::Other(code)
    }
}

impl KeyEvent {
    /// Decodes a logical key code.
    pub fn from_code(code: u8) -> (r: KeyEvent)
        ensures
            r == key_of_code(code),
    {
        if code <= 9 {
            KeyEvent::Digit(code)
        } else if code == 10 {
            KeyEvent::Continue
        } else if code == 11 {
            KeyEvent::ContinueAlt
        } else if code == 12 {
            KeyEvent::Backspace
        } else if code == 13 {
            KeyEvent::Shift
        } else if code == 18 {
            KeyEvent::Reset
        } else if code == 19 {
            KeyEvent::Confirm
        } else {
            KeyEvent::Other(code)
        }
    }
}

/// The signal a key gives at a step-advance wait: 1 and 2 for the two
/// reserved keys, 0 for any other key.
pub open spec fn signal_of(key: KeyEvent) -> u8 {
    match key {
        KeyEvent::Continue => 1,
        KeyEvent::ContinueAlt => 2,
        _ => 0,
    }
}

/// Classifies the key that ended a step-advance wait.
pub fn press_any_key(key: KeyEvent) -> (r: u8)
    ensures
        r == signal_of(key),
        r <= 2,
{
    match key {
        KeyEvent::Continue => 1,
        KeyEvent::ContinueAlt => 2,
        _ => 0,
    }
}

} // verus!
