//! Interpretation of face-detector output.
//!
//! A detector reports each face as a flat record: a score, a rectangle and
//! five landmark points, all in pixels of the image it was run on. This
//! library turns such records into [`Face`] values, keeps the geometry as the
//! detector gave it, and derives resolution-independent coordinates from it.
//!
//! Two choices run through the library.
//!
//! - Records are taken over as they are. A detector now and then reports a
//!   negative width or a landmark outside the image; [`Face`] keeps such
//!   numbers, signed, and [`detect_faces`] drops nothing. That loses no
//!   detection and leaves every check to the caller. A caller who would
//!   rather lose a detection than meet such numbers asks for [`StrictFace`]
//!   and [`detect_strict_faces`] instead.
//! - A face remembers the size of its image in sixteen bits a side. An image
//!   of more than 65535 pixels a side is not refused: its width and height
//!   are reduced modulo 65536, for the detector and for the faces alike.
//!
//! No floating-point arithmetic is done here. A score is carried as the bits
//! of the single-precision number that the detector wrote, and a normalized
//! coordinate is a [`Ratio`] of two integers, exact, for the caller to divide.

pub mod bridge;
pub mod detect;
pub mod error;
pub mod face;
pub mod frame;
pub mod geometry;
pub mod laws;
pub mod ratio;
pub mod strict;

pub use crate::bridge::BridgeFace;
pub use crate::detect::{detect_faces, detect_strict_faces};
pub use crate::error::YuNetError;
pub use crate::face::Face;
pub use crate::frame::{BgrImage, InferenceCall};
pub use crate::geometry::{FaceLandmarks, Rect};
pub use crate::ratio::Ratio;
pub use crate::strict::{ConversionError, StrictFace};
