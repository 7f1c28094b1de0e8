//! Why a detection run gave no faces.

use vstd::prelude::*;

verus! {

/// The image library's own error. The library carries it and never looks
/// inside.
#[verifier::external_type_specification]
#[verifier::external_body]
pub struct ExImageError(image::ImageError);

/// Why no detection could be made at all. Each of these ends the whole run:
/// there is then no list of faces, not even an empty one.
#[derive(Debug)]
pub enum YuNetError {
    /// The path names nothing that can be read as an image.
    InvalidFile,
    /// The image could not be decoded; the decoder's own report is inside.
    ImageError(image::ImageError),
    /// The detector itself failed on the image.
    FaceDetectionFailed,
}

impl YuNetError {
    /// The one-line message of each error.
    pub open spec fn spec_message(self) -> Seq<char> {
        match self {
            YuNetError::InvalidFile => "Invalid input file"@,
            YuNetError::ImageError(_) => "Image error"@,
            YuNetError::FaceDetectionFailed => "Face detection failed"@,
        }
    }

    /// A one-line message for the error. For an image error the decoder's
    /// own report says more.
    pub fn message(&self) -> (text: &'static str)
        ensures
            text@ == self.spec_message(),
    {
        match self {
            YuNetError::InvalidFile => "Invalid input file",
            YuNetError::ImageError(_) => "Image error",
            YuNetError::FaceDetectionFailed => "Face detection failed",
        }
    }
}

impl From<image::ImageError> for YuNetError {
    fn from(cause: image::ImageError) -> (error: YuNetError) {
        YuNetError::ImageError(cause)
    }
}

impl vstd::std_specs::convert::FromSpecImpl<image::ImageError> for YuNetError {
    open spec fn obeys_from_spec() -> bool {
        true
    }

    open spec fn from_spec(cause: image::ImageError) -> YuNetError {
        YuNetError::ImageError(cause)
    }
}

} // verus!
