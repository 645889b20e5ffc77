//! Plain-value models of the small records the native ABI takes.
//!
//! The engine's scalar records carry floating-point fields. Here each scalar
//! is held as its exact bit pattern (an unsigned integer of the native
//! width), so the records are plain values the contracts can speak about; a
//! backend reinterprets the bits when it performs a recorded call. The named
//! constants below are the bit patterns of the two scalar values the
//! defaults need, zero and one.

use vstd::prelude::*;

verus! {

/// Bit pattern of the 32-bit scalar zero.
pub const F32_ZERO_BITS: u32 = 0;

/// Bit pattern of the 32-bit scalar one.
pub const F32_ONE_BITS: u32 = 0x3F80_0000;

/// Bit pattern of the 64-bit scalar zero.
pub const F64_ZERO_BITS: u64 = 0;

/// Bit pattern of the 64-bit scalar one.
pub const F64_ONE_BITS: u64 = 0x3FF0_0000_0000_0000;

/// Width in bytes of one 64-bit scalar, the step between two contiguous
/// data points.
pub const F64_WIDTH: i32 = 8;

/// A point in plot coordinates: two 64-bit scalars, held as bit patterns.
#[derive(Clone, Copy, Debug, PartialEq, Eq, Structural)]
pub struct PlotPoint {
    pub x_bits: u64,
    pub y_bits: u64,
}

impl PlotPoint {
    /// A point from the bit patterns of its two coordinates.
    pub fn new(x_bits: u64, y_bits: u64) -> (r: PlotPoint)
        ensures
            r == (PlotPoint { x_bits, y_bits }),
    {
        PlotPoint { x_bits, y_bits }
    }
}

/// A two-component vector of 32-bit scalars, held as bit patterns; texture
/// coordinates and sizes cross the ABI in this shape.
#[derive(Clone, Copy, Debug, PartialEq, Eq, Structural)]
pub struct Vec2Bits {
    pub x_bits: u32,
    pub y_bits: u32,
}

impl Vec2Bits {
    /// A vector from the bit patterns of its two components.
    pub fn new(x_bits: u32, y_bits: u32) -> (r: Vec2Bits)
        ensures
            r == (Vec2Bits { x_bits, y_bits }),
    {
        Vec2Bits { x_bits, y_bits }
    }

    /// Both components zero.
    pub fn zero() -> (r: Vec2Bits)
        ensures
            r == (Vec2Bits { x_bits: F32_ZERO_BITS, y_bits: F32_ZERO_BITS }),
    {
        Vec2Bits { x_bits: F32_ZERO_BITS, y_bits: F32_ZERO_BITS }
    }

    /// Both components one.
    pub fn one() -> (r: Vec2Bits)
        ensures
            r == (Vec2Bits { x_bits: F32_ONE_BITS, y_bits: F32_ONE_BITS }),
    {
        Vec2Bits { x_bits: F32_ONE_BITS, y_bits: F32_ONE_BITS }
    }
}

/// An RGBA color of 32-bit scalar channels, held as bit patterns.
#[derive(Clone, Copy, Debug, PartialEq, Eq, Structural)]
pub struct RgbaBits {
    pub r_bits: u32,
    pub g_bits: u32,
    pub b_bits: u32,
    pub a_bits: u32,
}

impl RgbaBits {
    /// A color from the bit patterns of its four channels.
    pub fn new(r_bits: u32, g_bits: u32, b_bits: u32, a_bits: u32) -> (r: RgbaBits)
        ensures
            r == (RgbaBits { r_bits, g_bits, b_bits, a_bits }),
    {
        RgbaBits { r_bits, g_bits, b_bits, a_bits }
    }

    /// Opaque white: every channel one.
    pub fn opaque_white() -> (r: RgbaBits)
        ensures
            r == (RgbaBits {
                r_bits: F32_ONE_BITS,
                g_bits: F32_ONE_BITS,
                b_bits: F32_ONE_BITS,
                a_bits: F32_ONE_BITS,
            }),
    {
        RgbaBits {
            r_bits: F32_ONE_BITS,
            g_bits: F32_ONE_BITS,
            b_bits: F32_ONE_BITS,
            a_bits: F32_ONE_BITS,
        }
    }
}

/// An opaque texture identifier, as the renderer hands it out.
///
/// The value carries no ownership of the GPU resource; it is an
/// ABI-compatible bit pattern, and conversion to the native
/// texture-reference record (which adds a reserved null pointer) preserves
/// it exactly.
#[derive(Clone, Copy, Debug, PartialEq, Eq, Structural)]
pub struct TextureId {
    raw: u64,
}

impl View for TextureId {
    type V = u64;

    closed spec fn view(&self) -> u64 {
        self.raw
    }
}

impl TextureId {
    /// Wraps a raw renderer identifier.
    pub fn new(raw: u64) -> (r: TextureId)
        ensures
            r@ == raw,
    {
        TextureId { raw }
    }

    /// The raw identifier, bit-preserving.
    pub fn id(self) -> (r: u64)
        ensures
            r == self@,
    {
        self.raw
    }
}

} // verus!
