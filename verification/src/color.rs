use vstd::prelude::*;

verus! {

/// The two optical states a pixel of this monochrome panel can take.
///
/// A driver instance records one of these as its background color; the value
/// has no effect on the hardware until a later frame or clear operation
/// consumes it.
#[derive(Clone, Copy, Debug, PartialEq, Eq, Structural)]
pub enum Color {
    /// A dark pixel.
    Black,
    /// A light pixel.
    White,
}

} // verus!
