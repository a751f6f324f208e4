//! Plain-value model of the input events the application reacts to.
//!
//! The surrounding program translates whatever its input source yields into
//! these types; the library's state machine is stated and proved over them.

use vstd::prelude::*;

verus! {

/// The key that was pressed, as far as the application distinguishes keys.
#[derive(Clone, Copy, Debug, PartialEq, Eq)]
pub enum KeyCode {
    /// The escape key.
    Esc,
    /// A character key.
    Char(char),
    /// Any other key; the application ignores all of them.
    Other,
}

/// Which modifier keys were held during a key event.
#[derive(Clone, Copy, Debug, PartialEq, Eq)]
pub struct KeyModifiers {
    pub control: bool,
    pub shift: bool,
    pub alt: bool,
}

impl KeyModifiers {
    /// No modifier key held.
    pub open spec fn spec_none(self) -> bool {
        !self.control && !self.shift && !self.alt
    }
}

/// Whether a key event reports the key going down, up, or auto-repeating.
#[derive(Clone, Copy, Debug, PartialEq, Eq)]
pub enum KeyEventKind {
    Press,
    Release,
    Repeat,
}

/// A single keyboard event.
#[derive(Clone, Copy, Debug, PartialEq, Eq)]
pub struct KeyEvent {
    pub code: KeyCode,
    pub modifiers: KeyModifiers,
    pub kind: KeyEventKind,
}

/// One event from the input source.
#[derive(Clone, Copy, Debug, PartialEq, Eq)]
pub enum InputEvent {
    /// A keyboard event.
    Key(KeyEvent),
    /// A pointer event; ignored.
    Mouse,
    /// A window resize; ignored.
    Resize,
    /// Anything else the input source may report; ignored.
    Other,
}

/// The quit combinations: Escape with no modifier held, or Control together
/// with the character `c` or `C`, with or without Shift.
pub open spec fn is_quit_key(code: KeyCode, modifiers: KeyModifiers) -> bool {
    (code == KeyCode::Esc && modifiers.spec_none()) || (modifiers.control && !modifiers.alt && (
    code == KeyCode::Char('c') || code == KeyCode::Char('C')))
}

/// A key-press event that quits the application.
pub open spec fn is_quit_event(e: InputEvent) -> bool {
    match e {
        InputEvent::Key(k) => k.kind is Press && is_quit_key(k.code, k.modifiers),
        _ => false,
    }
}

} // verus!
