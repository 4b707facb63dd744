//! The keys that the interactive menus react to.
use vstd::prelude::*;

verus! {

/// A key press, as the menus see it.
#[derive(Clone, Copy, PartialEq, Eq, Debug, Structural)]
pub enum Key {
    Up,
    Down,
    Left,
    Right,
    PageUp,
    PageDown,
    Home,
    End,
    Enter,
    Esc,
    Backspace,
    Tab,
    /// A character typed without the Control key.
    Char(char),
    /// A character typed with the Control key held.
    Ctrl(char),
    /// Any other key.
    Other,
}

/// Esc or Ctrl+C: the keys that close a menu without a choice.
pub open spec fn is_cancel(key: Key) -> bool {
    key == Key::Esc || key == Key::Ctrl('c')
}

/// Whether the key closes a menu without a choice.
pub fn cancels(key: Key) -> (r: bool)
    ensures
        r == is_cancel(key),
{
    match key {
        Key::Esc => true,
        Key::Ctrl(c) => c == 'c',
        _ => false,
    }
}

/// `char::is_control`: the Unicode control characters (general category
/// Cc).
pub open spec fn is_control_char(c: char) -> bool {
    ('\u{0}' <= c && c <= '\u{1f}') || ('\u{7f}' <= c && c <= '\u{9f}')
}

/// Whether `c` is a control character.
pub fn is_control(c: char) -> (r: bool)
    ensures
        r == is_control_char(c),
{
    ('\u{0}' <= c && c <= '\u{1f}') || ('\u{7f}' <= c && c <= '\u{9f}')
}

} // verus!
