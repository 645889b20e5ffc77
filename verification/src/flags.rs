//! Typed bitmask option bags.
//!
//! Each flag type is a transparent integer wrapper whose named values mirror
//! the native engine's flag constants bit for bit. Conversion to the native
//! ABI is bit-preserving, and the set algebra on the typed side is proved to
//! agree with the integer algebra the engine sees: the bits of a union are
//! the bitwise or of the bits, the empty set has bits zero, and containment
//! is exactly the mask test.

use vstd::prelude::*;

verus! {

/// Flags for button widgets, mirroring the native button flag constants.
#[derive(Clone, Copy, Debug, PartialEq, Eq, Structural)]
pub struct ButtonFlags {
    bits: i32,
}

impl View for ButtonFlags {
    type V = i32;

    closed spec fn view(&self) -> i32 {
        self.bits
    }
}

impl ButtonFlags {
    /// The empty flag set: no option chosen, bits zero.
    pub fn none() -> (r: ButtonFlags)
        ensures
            r@ == 0,
    {
        ButtonFlags { bits: 0 }
    }

    /// React on the left mouse button (native bit 0).
    pub fn mouse_button_left() -> (r: ButtonFlags)
        ensures
            r@ == 1,
    {
        ButtonFlags { bits: 1 }
    }

    /// React on the right mouse button (native bit 1).
    pub fn mouse_button_right() -> (r: ButtonFlags)
        ensures
            r@ == 2,
    {
        ButtonFlags { bits: 2 }
    }

    /// React on the middle mouse button (native bit 2).
    pub fn mouse_button_middle() -> (r: ButtonFlags)
        ensures
            r@ == 4,
    {
        ButtonFlags { bits: 4 }
    }

    /// The union of every declared flag.
    pub fn all() -> (r: ButtonFlags)
        ensures
            r@ == 7,
    {
        ButtonFlags { bits: 7 }
    }

    /// The raw bits, exactly as the native ABI takes them.
    pub fn bits(self) -> (r: i32)
        ensures
            r == self@,
    {
        self.bits
    }

    /// Reconstructs a flag set from raw bits, keeping every bit.
    pub fn from_bits_retain(bits: i32) -> (r: ButtonFlags)
        ensures
            r@ == bits,
    {
        ButtonFlags { bits }
    }

    /// Reconstructs a flag set from raw bits; bits outside the declared set
    /// are treated as zero.
    pub fn from_bits_truncate(bits: i32) -> (r: ButtonFlags)
        ensures
            r@ == bits & 7,
    {
        ButtonFlags { bits: bits & 7 }
    }

    /// Set union: the bits of the union are the bitwise or of the bits.
    pub fn union(self, other: ButtonFlags) -> (r: ButtonFlags)
        ensures
            r@ == self@ | other@,
    {
        ButtonFlags { bits: self.bits | other.bits }
    }

    /// Set intersection: bitwise and.
    pub fn intersection(self, other: ButtonFlags) -> (r: ButtonFlags)
        ensures
            r@ == self@ & other@,
    {
        ButtonFlags { bits: self.bits & other.bits }
    }

    /// Set difference: the bits of `self` that are not in `other`.
    pub fn difference(self, other: ButtonFlags) -> (r: ButtonFlags)
        ensures
            r@ == self@ & !other@,
    {
        ButtonFlags { bits: self.bits & !other.bits }
    }

    /// Symmetric difference: bitwise exclusive or.
    pub fn symmetric_difference(self, other: ButtonFlags) -> (r: ButtonFlags)
        ensures
            r@ == self@ ^ other@,
    {
        ButtonFlags { bits: self.bits ^ other.bits }
    }

    /// Containment: `self` holds every bit of `other`.
    pub fn contains(self, other: ButtonFlags) -> (r: bool)
        ensures
            r == ((self@ & other@) == other@),
    {
        (self.bits & other.bits) == other.bits
    }

    /// Whether the two sets share any bit.
    pub fn intersects(self, other: ButtonFlags) -> (r: bool)
        ensures
            r == ((self@ & other@) != 0),
    {
        (self.bits & other.bits) != 0
    }

    /// Whether no bit is set.
    pub fn is_empty(self) -> (r: bool)
        ensures
            r == (self@ == 0),
    {
        self.bits == 0
    }
}

/// Two button flag sets with the same bits are the same value.
///
/// Together with the operations' contracts this pins the round trip down:
/// reconstructing a set from its own bits yields the original value.
pub proof fn lemma_button_flags_bits_injective(a: ButtonFlags, b: ButtonFlags)
    requires
        a@ == b@,
    ensures
        a == b,
{
}

/// Flags for image plots, mirroring the native image flag constants.
///
/// The native surface declares no option bits for images beyond "none", so
/// the declared set is empty and every bit is outside it.
#[derive(Clone, Copy, Debug, PartialEq, Eq, Structural)]
pub struct ImageFlags {
    bits: u32,
}

impl View for ImageFlags {
    type V = u32;

    closed spec fn view(&self) -> u32 {
        self.bits
    }
}

impl ImageFlags {
    /// The empty flag set: no option chosen, bits zero.
    pub fn none() -> (r: ImageFlags)
        ensures
            r@ == 0,
    {
        ImageFlags { bits: 0 }
    }

    /// The raw bits.
    pub fn bits(self) -> (r: u32)
        ensures
            r == self@,
    {
        self.bits
    }

    /// Reconstructs a flag set from raw bits, keeping every bit.
    pub fn from_bits_retain(bits: u32) -> (r: ImageFlags)
        ensures
            r@ == bits,
    {
        ImageFlags { bits }
    }

    /// Set union: the bits of the union are the bitwise or of the bits.
    pub fn union(self, other: ImageFlags) -> (r: ImageFlags)
        ensures
            r@ == self@ | other@,
    {
        ImageFlags { bits: self.bits | other.bits }
    }

    /// Set intersection: bitwise and.
    pub fn intersection(self, other: ImageFlags) -> (r: ImageFlags)
        ensures
            r@ == self@ & other@,
    {
        ImageFlags { bits: self.bits & other.bits }
    }

    /// Containment: `self` holds every bit of `other`.
    pub fn contains(self, other: ImageFlags) -> (r: bool)
        ensures
            r == ((self@ & other@) == other@),
    {
        (self.bits & other.bits) == other.bits
    }

    /// Whether no bit is set.
    pub fn is_empty(self) -> (r: bool)
        ensures
            r == (self@ == 0),
    {
        self.bits == 0
    }
}

/// Two image flag sets with the same bits are the same value.
pub proof fn lemma_image_flags_bits_injective(a: ImageFlags, b: ImageFlags)
    requires
        a@ == b@,
    ensures
        a == b,
{
}

} // verus!
