//! Key presses, as the dispatchers read them.

use vstd::prelude::*;

verus! {

/// The key that was pressed.
#[derive(Clone, Copy, Debug, PartialEq, Eq, Structural)]
pub enum KeyCode {
    /// A character key, with the character it produces.
    Char(char),
    Enter,
    Esc,
    Tab,
    /// Shift and Tab together.
    BackTab,
    Up,
    Down,
    Left,
    Right,
    Backspace,
    /// Any key that no binding of this library reads.
    Other,
}

/// The modifier keys held during a key press.
#[derive(Clone, Copy, Debug, PartialEq, Eq, Structural)]
pub enum KeyModifiers {
    /// No modifier.
    Unmodified,
    /// Control, and nothing else.
    Control,
    /// Any other combination.
    Other,
}

/// A key as an editor buffer reads it. The buffer has bindings for
/// character keys, for Control with a character key, for Enter, Esc,
/// Backspace and the arrows.
#[derive(Clone, Copy, Debug, PartialEq, Eq, Structural)]
pub enum BufferKey {
    Char(char),
    Ctrl(char),
    Down,
    Up,
    Right,
    Left,
    Enter,
    Esc,
    Backspace,
    /// A key that the buffer has no binding for.
    Unbound,
}

/// One key press.
#[derive(Clone, Copy, Debug, PartialEq, Eq, Structural)]
pub struct KeyEvent {
    pub code: KeyCode,
    pub modifiers: KeyModifiers,
}

impl KeyEvent {
    /// A key press with the given modifiers.
    pub fn new(code: KeyCode, modifiers: KeyModifiers) -> (event: Self)
        ensures
            event == (KeyEvent { code, modifiers }),
    {
        KeyEvent { code, modifiers }
    }

    /// A key press without modifiers.
    pub fn plain(code: KeyCode) -> (event: Self)
        ensures
            event == (KeyEvent { code, modifiers: KeyModifiers::Unmodified }),
    {
        KeyEvent { code, modifiers: KeyModifiers::Unmodified }
    }

    /// Control held together with a character key.
    pub fn ctrl(c: char) -> (event: Self)
        ensures
            event == (KeyEvent { code: KeyCode::Char(c), modifiers: KeyModifiers::Control }),
    {
        KeyEvent { code: KeyCode::Char(c), modifiers: KeyModifiers::Control }
    }

    /// The key as an editor buffer reads it. With Control held, a character
    /// key is a control key and every other key is unbound. Other modifiers
    /// are not looked at.
    pub open spec fn for_buffer(self) -> BufferKey {
        if self.modifiers == KeyModifiers::Control {
            match self.code {
                KeyCode::Char(c) => BufferKey::Ctrl(c),
                _ => BufferKey::Unbound,
            }
        } else {
            match self.code {
                KeyCode::Char(c) => BufferKey::Char(c),
                KeyCode::Enter => BufferKey::Enter,
                KeyCode::Down => BufferKey::Down,
                KeyCode::Up => BufferKey::Up,
                KeyCode::Right => BufferKey::Right,
                KeyCode::Left => BufferKey::Left,
                KeyCode::Esc => BufferKey::Esc,
                KeyCode::Backspace => BufferKey::Backspace,
                _ => BufferKey::Unbound,
            }
        }
    }

    /// The key as an editor buffer reads it.
    pub fn buffer_key(self) -> (key: BufferKey)
        ensures
            key == self.for_buffer(),
    {
        if self.modifiers == KeyModifiers::Control {
            match self.code {
                KeyCode::Char(c) => BufferKey::Ctrl(c),
                _ => BufferKey::Unbound,
            }
        } else {
            match self.code {
                KeyCode::Char(c) => BufferKey::Char(c),
                KeyCode::Enter => BufferKey::Enter,
                KeyCode::Down => BufferKey::Down,
                KeyCode::Up => BufferKey::Up,
                KeyCode::Right => BufferKey::Right,
                KeyCode::Left => BufferKey::Left,
                KeyCode::Esc => BufferKey::Esc,
                KeyCode::Backspace => BufferKey::Backspace,
                _ => BufferKey::Unbound,
            }
        }
    }

    /// Whether Control, and only Control, was held.
    pub open spec fn control(self) -> bool {
        self.modifiers == KeyModifiers::Control
    }

    /// Whether Control, and only Control, was held.
    #[verifier::when_used_as_spec(control)]
    pub fn is_control(self) -> (held: bool)
        ensures
            held == self.control(),
    {
        self.modifiers == KeyModifiers::Control
    }
}

} // verus!
