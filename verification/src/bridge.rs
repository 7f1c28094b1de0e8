//! The record in which a detector hands over one face.

use vstd::prelude::*;

verus! {

/// One detection exactly as the detector wrote it. Nothing has been checked:
/// every field may hold any value.
#[derive(Debug, Clone, Copy)]
pub struct BridgeFace {
    /// The detector's confidence, a single-precision number, as its 32 bits.
    pub score: u32,
    /// Left edge of the face rectangle, in pixels.
    pub x: i32,
    /// Top edge of the face rectangle, in pixels.
    pub y: i32,
    /// Width of the face rectangle, in pixels.
    pub w: i32,
    /// Height of the face rectangle, in pixels.
    pub h: i32,
    /// Five `x, y` pairs: right eye, left eye, nose, right and left corner of
    /// the mouth.
    pub lm: [i32; 10],
}

} // verus!
