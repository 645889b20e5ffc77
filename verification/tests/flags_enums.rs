//! Flag set algebra and enumeration round trips.

use imgui_core::ButtonFlags;
use imgui_core::Direction;
use imgui_core::ImageFlags;
use imgui_core::Key;

#[test]
fn button_flags_union_matches_bitwise_or() {
    let left = ButtonFlags::mouse_button_left();
    let right = ButtonFlags::mouse_button_right();
    let both = left.union(right);
    assert_eq!(both.bits(), left.bits() | right.bits());
    assert_eq!(both.bits(), 0b11);
}

#[test]
fn button_flags_none_is_zero() {
    assert_eq!(ButtonFlags::none().bits(), 0);
    assert!(ButtonFlags::none().is_empty());
    assert_eq!(ImageFlags::none().bits(), 0);
}

#[test]
fn button_flags_contains_is_the_mask_test() {
    let left = ButtonFlags::mouse_button_left();
    let middle = ButtonFlags::mouse_button_middle();
    let both = left.union(middle);
    assert!(both.contains(left));
    assert!(both.contains(middle));
    assert!(!left.contains(middle));
    assert_eq!(
        both.contains(left),
        (both.bits() & left.bits()) == left.bits()
    );
    assert!(both.intersects(left));
    assert!(!left.intersects(middle));
}

#[test]
fn button_flags_set_algebra() {
    let left = ButtonFlags::mouse_button_left();
    let right = ButtonFlags::mouse_button_right();
    let both = left.union(right);
    assert_eq!(both.intersection(left), left);
    assert_eq!(both.difference(left), right);
    assert_eq!(both.symmetric_difference(left), right);
    assert_eq!(ButtonFlags::all().bits(), 0b111);
    assert_eq!(ButtonFlags::from_bits_truncate(-1).bits(), 0b111);
}

#[test]
fn button_flags_round_trip_through_native_bits() {
    let original = ButtonFlags::mouse_button_left().union(ButtonFlags::mouse_button_right());
    let native = original.bits();
    assert_eq!(native, 1 | 2);
    let back = ButtonFlags::from_bits_retain(native);
    assert_eq!(back, original);
}

#[test]
fn direction_round_trips_on_declared_variants() {
    let all = [
        Direction::Unset,
        Direction::Left,
        Direction::Right,
        Direction::Up,
        Direction::Down,
    ];
    for d in all {
        assert_eq!(Direction::from_native(d.to_native()), Some(d));
    }
    assert_eq!(Direction::Unset.to_native(), -1);
    assert_eq!(Direction::from_native(99), None);
}

#[test]
fn key_round_trips_on_declared_variants() {
    let all = [
        Key::Tab,
        Key::LeftArrow,
        Key::RightArrow,
        Key::UpArrow,
        Key::DownArrow,
        Key::PageUp,
        Key::PageDown,
        Key::Home,
        Key::End,
        Key::Insert,
        Key::Delete,
        Key::Backspace,
        Key::Space,
        Key::Enter,
        Key::Escape,
    ];
    for k in all {
        assert_eq!(Key::from_native(k.to_native()), Some(k));
    }
    assert_eq!(Key::Tab.to_native(), 512);
    assert_eq!(Key::from_native(0), None);
}
