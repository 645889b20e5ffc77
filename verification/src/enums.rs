//! Strongly typed enumerations over the native integer constants.
//!
//! Each enumeration wraps a family of native integer values. Conversion to
//! the native ABI is an exact integer mapping, and converting a declared
//! native value through the safe wrapper and back is proved to be the
//! identity.

use vstd::prelude::*;

verus! {

/// A direction, as arrow buttons and similar widgets take it.
#[derive(Clone, Copy, Debug, PartialEq, Eq, Structural)]
pub enum Direction {
    /// No direction (the native sentinel value).
    Unset,
    Left,
    Right,
    Up,
    Down,
}

impl Direction {
    /// The native integer value of this direction.
    pub open spec fn to_native_spec(self) -> i32 {
        match self {
            Direction::Unset => -1i32,
            Direction::Left => 0,
            Direction::Right => 1,
            Direction::Up => 2,
            Direction::Down => 3,
        }
    }

    /// The direction a native integer value names, if it names one.
    pub open spec fn from_native_spec(raw: i32) -> Option<Direction> {
        if raw == -1 {
            Some(Direction::Unset)
        } else if raw == 0 {
            Some(Direction::Left)
        } else if raw == 1 {
            Some(Direction::Right)
        } else if raw == 2 {
            Some(Direction::Up)
        } else if raw == 3 {
            Some(Direction::Down)
        } else {
            None
        }
    }

    /// Converts to the native integer value, bit-preserving.
    pub fn to_native(self) -> (r: i32)
        ensures
            r == self.to_native_spec(),
    {
        match self {
            Direction::Unset => -1,
            Direction::Left => 0,
            Direction::Right => 1,
            Direction::Up => 2,
            Direction::Down => 3,
        }
    }

    /// Converts a native integer value back to the typed direction; an
    /// undeclared value yields `None`.
    pub fn from_native(raw: i32) -> (r: Option<Direction>)
        ensures
            r == Direction::from_native_spec(raw),
    {
        if raw == -1 {
            Some(Direction::Unset)
        } else if raw == 0 {
            Some(Direction::Left)
        } else if raw == 1 {
            Some(Direction::Right)
        } else if raw == 2 {
            Some(Direction::Up)
        } else if raw == 3 {
            Some(Direction::Down)
        } else {
            None
        }
    }
}

/// Converting a direction to its native value and back is the identity on
/// every declared variant.
pub proof fn lemma_direction_round_trip(d: Direction)
    ensures
        Direction::from_native_spec(d.to_native_spec()) == Some(d),
{
}

/// An input key, as item key ownership takes it.
///
/// The variants carry the native named-key integer values, which start at
/// the engine's named-key range.
#[derive(Clone, Copy, Debug, PartialEq, Eq, Structural)]
pub enum Key {
    Tab,
    LeftArrow,
    RightArrow,
    UpArrow,
    DownArrow,
    PageUp,
    PageDown,
    Home,
    End,
    Insert,
    Delete,
    Backspace,
    Space,
    Enter,
    Escape,
}

impl Key {
    /// The native integer value of this key.
    pub open spec fn to_native_spec(self) -> i32 {
        match self {
            Key::Tab => 512,
            Key::LeftArrow => 513,
            Key::RightArrow => 514,
            Key::UpArrow => 515,
            Key::DownArrow => 516,
            Key::PageUp => 517,
            Key::PageDown => 518,
            Key::Home => 519,
            Key::End => 520,
            Key::Insert => 521,
            Key::Delete => 522,
            Key::Backspace => 523,
            Key::Space => 524,
            Key::Enter => 525,
            Key::Escape => 526,
        }
    }

    /// The key a native integer value names, if it names one.
    pub open spec fn from_native_spec(raw: i32) -> Option<Key> {
        if raw == 512 {
            Some(Key::Tab)
        } else if raw == 513 {
            Some(Key::LeftArrow)
        } else if raw == 514 {
            Some(Key::RightArrow)
        } else if raw == 515 {
            Some(Key::UpArrow)
        } else if raw == 516 {
            Some(Key::DownArrow)
        } else if raw == 517 {
            Some(Key::PageUp)
        } else if raw == 518 {
            Some(Key::PageDown)
        } else if raw == 519 {
            Some(Key::Home)
        } else if raw == 520 {
            Some(Key::End)
        } else if raw == 521 {
            Some(Key::Insert)
        } else if raw == 522 {
            Some(Key::Delete)
        } else if raw == 523 {
            Some(Key::Backspace)
        } else if raw == 524 {
            Some(Key::Space)
        } else if raw == 525 {
            Some(Key::Enter)
        } else if raw == 526 {
            Some(Key::Escape)
        } else {
            None
        }
    }

    /// Converts to the native integer value, bit-preserving.
    pub fn to_native(self) -> (r: i32)
        ensures
            r == self.to_native_spec(),
    {
        match self {
            Key::Tab => 512,
            Key::LeftArrow => 513,
            Key::RightArrow => 514,
            Key::UpArrow => 515,
            Key::DownArrow => 516,
            Key::PageUp => 517,
            Key::PageDown => 518,
            Key::Home => 519,
            Key::End => 520,
            Key::Insert => 521,
            Key::Delete => 522,
            Key::Backspace => 523,
            Key::Space => 524,
            Key::Enter => 525,
            Key::Escape => 526,
        }
    }

    /// Converts a native integer value back to the typed key; an undeclared
    /// value yields `None`.
    pub fn from_native(raw: i32) -> (r: Option<Key>)
        ensures
            r == Key::from_native_spec(raw),
    {
        if raw == 512 {
            Some(Key::Tab)
        } else if raw == 513 {
            Some(Key::LeftArrow)
        } else if raw == 514 {
            Some(Key::RightArrow)
        } else if raw == 515 {
            Some(Key::UpArrow)
        } else if raw == 516 {
            Some(Key::DownArrow)
        } else if raw == 517 {
            Some(Key::PageUp)
        } else if raw == 518 {
            Some(Key::PageDown)
        } else if raw == 519 {
            Some(Key::Home)
        } else if raw == 520 {
            Some(Key::End)
        } else if raw == 521 {
            Some(Key::Insert)
        } else if raw == 522 {
            Some(Key::Delete)
        } else if raw == 523 {
            Some(Key::Backspace)
        } else if raw == 524 {
            Some(Key::Space)
        } else if raw == 525 {
            Some(Key::Enter)
        } else if raw == 526 {
            Some(Key::Escape)
        } else {
            None
        }
    }
}

/// Converting a key to its native value and back is the identity on every
/// declared variant.
pub proof fn lemma_key_round_trip(k: Key)
    ensures
        Key::from_native_spec(k.to_native_spec()) == Some(k),
{
}

} // verus!
