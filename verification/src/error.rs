//! The closed error taxonomy of the plotting surface.

use vstd::prelude::*;

verus! {

/// Why a plot descriptor was rejected.
///
/// `validate` on a descriptor returns one of these by value; execution of an
/// invalid descriptor is silent (draws nothing), while the one-shot facade
/// methods surface the error to the caller.
#[derive(Clone, Copy, Debug, PartialEq, Eq, Structural)]
pub enum PlotError {
    /// A mandatory input slice is zero-length where at least one point is
    /// required.
    EmptyData,
    /// Paired slices (such as X and Y) disagree in length.
    MismatchedLengths,
    /// An offset/stride combination would read outside a provided slice.
    OutOfBoundsOffset,
    /// A label holds characters the scratch-buffer policy forbids.
    InvalidLabel,
    /// A conversion between adjacent binding families whose compatibility
    /// cannot be confirmed.
    Unsupported,
}

} // verus!
