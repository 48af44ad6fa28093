use vstd::prelude::*;

verus! {

/// An axis-aligned rectangle: the bounding box of a node.
///
/// Each field holds the IEEE 754 binary64 bit pattern of one coordinate,
/// exactly as it crossed the boundary. `(x0, y0)` is the top-left corner and
/// `(x1, y1)` the bottom-right one; the protocol does not check that the
/// corners are ordered — that is the caller's responsibility. Keeping the
/// raw bit patterns makes storage and read-back exact to the bit.
#[derive(Clone, Copy, Debug, PartialEq, Eq, Structural)]
pub struct Rect {
    /// Bit pattern of the left edge's x coordinate.
    pub x0: u64,
    /// Bit pattern of the top edge's y coordinate.
    pub y0: u64,
    /// Bit pattern of the right edge's x coordinate.
    pub x1: u64,
    /// Bit pattern of the bottom edge's y coordinate.
    pub y1: u64,
}

} // verus!
