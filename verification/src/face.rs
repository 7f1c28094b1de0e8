//! A detected face and its resolution-independent views.

use vstd::prelude::*;
use crate::bridge::BridgeFace;
use crate::geometry::{FaceLandmarks, Rect};
use crate::ratio::Ratio;

verus! {

/// What a [`Face`] holds.
pub struct FaceModel {
    pub confidence: u32,
    pub rectangle: Rect<i32>,
    pub detection_dimensions: (u16, u16),
    pub landmarks: FaceLandmarks<i32>,
}

/// A point with its `x` set against the image's width and its `y` against the
/// image's height.
pub open spec fn normalized_point(point: (i32, i32), dimensions: (u16, u16)) -> (Ratio, Ratio) {
    (
        Ratio { numerator: point.0, denominator: dimensions.0 },
        Ratio { numerator: point.1, denominator: dimensions.1 },
    )
}

impl FaceModel {
    /// The face that a detector's record describes, found on an image of the
    /// given width and height. Every number is taken over as it stands:
    /// negative or off-image geometry is kept, and the score is not clamped.
    pub open spec fn from_bridge_face(raw: BridgeFace, dimensions: (u16, u16)) -> FaceModel {
        FaceModel {
            confidence: raw.score,
            rectangle: Rect { left: raw.x, top: raw.y, width: raw.w, height: raw.h },
            detection_dimensions: dimensions,
            landmarks: FaceLandmarks::spec_from_array(raw.lm@),
        }
    }

    /// The rectangle with `left` and `width` set against the image's width,
    /// `top` and `height` against its height.
    pub open spec fn normalized_rectangle(self) -> Rect<Ratio> {
        Rect {
            left: Ratio {
                numerator: self.rectangle.left,
                denominator: self.detection_dimensions.0,
            },
            top: Ratio { numerator: self.rectangle.top, denominator: self.detection_dimensions.1 },
            width: Ratio {
                numerator: self.rectangle.width,
                denominator: self.detection_dimensions.0,
            },
            height: Ratio {
                numerator: self.rectangle.height,
                denominator: self.detection_dimensions.1,
            },
        }
    }

    /// Each landmark with its `x` set against the image's width and its `y`
    /// against the image's height.
    pub open spec fn normalized_landmarks(self) -> FaceLandmarks<Ratio> {
        FaceLandmarks {
            right_eye: normalized_point(self.landmarks.right_eye, self.detection_dimensions),
            left_eye: normalized_point(self.landmarks.left_eye, self.detection_dimensions),
            nose: normalized_point(self.landmarks.nose, self.detection_dimensions),
            mouth_right: normalized_point(self.landmarks.mouth_right, self.detection_dimensions),
            mouth_left: normalized_point(self.landmarks.mouth_left, self.detection_dimensions),
        }
    }

    /// The smaller of normalized width and normalized height; the width where
    /// neither is smaller.
    pub open spec fn size(self) -> Ratio {
        let rectangle = self.normalized_rectangle();
        if rectangle.width.spec_le(rectangle.height) {
            rectangle.width
        } else {
            rectangle.height
        }
    }
}

/// One face found in an image.
///
/// The geometry is the detector's, in signed pixels of the image the
/// detection ran on. No record is ever turned away: a rectangle with a
/// negative extent or landmarks outside the image are kept as reported, so
/// that nothing the detector said is lost. Callers that need unsigned pixels
/// convert with [`crate::strict::StrictFace`], which refuses such records.
///
/// A face also remembers the width and height of that image, so that its
/// geometry can be had as fractions of them at any later time.
#[derive(Debug)]
pub struct Face {
    confidence: u32,
    rectangle: Rect<i32>,
    detection_dimensions: (u16, u16),
    landmarks: FaceLandmarks<i32>,
}

impl View for Face {
    type V = FaceModel;

    closed spec fn view(&self) -> FaceModel {
        FaceModel {
            confidence: self.confidence,
            rectangle: self.rectangle,
            detection_dimensions: self.detection_dimensions,
            landmarks: self.landmarks,
        }
    }
}

impl Clone for Face {
    fn clone(&self) -> (copy: Self)
        ensures
            copy@ == self@,
    {
        Face {
            confidence: self.confidence,
            rectangle: self.rectangle,
            detection_dimensions: self.detection_dimensions,
            landmarks: self.landmarks.clone(),
        }
    }
}

impl Face {
    /// Takes over one record of the detector, found on an image of the given
    /// width and height. This never fails.
    pub fn from_yunet_bridge_face(
        face_rect: &BridgeFace,
        detection_dimensions: (u16, u16),
    ) -> (face: Self)
        ensures
            face@ == FaceModel::from_bridge_face(*face_rect, detection_dimensions),
    {
        Self {
            confidence: face_rect.score,
            rectangle: Rect::with_size(face_rect.x, face_rect.y, face_rect.w, face_rect.h),
            landmarks: FaceLandmarks::from_yunet_landmark_array(&face_rect.lm),
            detection_dimensions,
        }
    }

    /// The detector's confidence that the rectangle holds a face: the 32
    /// bits of a single-precision number, meant to lie between zero and one
    /// and handed on untouched.
    pub fn confidence(&self) -> (bits: u32)
        ensures
            bits == self@.confidence,
    {
        self.confidence
    }

    /// The face rectangle in pixels of the image. It may reach outside the
    /// image.
    pub fn rectangle(&self) -> (rectangle: Rect<i32>)
        ensures
            rectangle == self@.rectangle,
    {
        self.rectangle
    }

    /// Width and height of the image in which the face was found.
    pub fn detection_dimensions(&self) -> (dimensions: (u16, u16))
        ensures
            dimensions == self@.detection_dimensions,
    {
        self.detection_dimensions
    }

    /// The five landmarks in pixels of the image.
    pub fn landmarks(&self) -> (landmarks: &FaceLandmarks<i32>)
        ensures
            *landmarks == self@.landmarks,
    {
        &self.landmarks
    }

    /// The face rectangle as fractions of the image's width and height.
    pub fn normalized_rectangle(&self) -> (rectangle: Rect<Ratio>)
        ensures
            rectangle == self@.normalized_rectangle(),
    {
        Rect::with_size(
            Ratio::new(self.rectangle.left, self.detection_dimensions.0),
            Ratio::new(self.rectangle.top, self.detection_dimensions.1),
            Ratio::new(self.rectangle.width, self.detection_dimensions.0),
            Ratio::new(self.rectangle.height, self.detection_dimensions.1),
        )
    }

    /// The five landmarks as fractions of the image's width and height.
    pub fn normalized_landmarks(&self) -> (landmarks: FaceLandmarks<Ratio>)
        ensures
            landmarks == self@.normalized_landmarks(),
    {
        FaceLandmarks {
            right_eye: (
                Ratio::new(self.landmarks.right_eye.0, self.detection_dimensions.0),
                Ratio::new(self.landmarks.right_eye.1, self.detection_dimensions.1),
            ),
            left_eye: (
                Ratio::new(self.landmarks.left_eye.0, self.detection_dimensions.0),
                Ratio::new(self.landmarks.left_eye.1, self.detection_dimensions.1),
            ),
            nose: (
                Ratio::new(self.landmarks.nose.0, self.detection_dimensions.0),
                Ratio::new(self.landmarks.nose.1, self.detection_dimensions.1),
            ),
            mouth_right: (
                Ratio::new(self.landmarks.mouth_right.0, self.detection_dimensions.0),
                Ratio::new(self.landmarks.mouth_right.1, self.detection_dimensions.1),
            ),
            mouth_left: (
                Ratio::new(self.landmarks.mouth_left.0, self.detection_dimensions.0),
                Ratio::new(self.landmarks.mouth_left.1, self.detection_dimensions.1),
            ),
        }
    }

    /// How large the face appears: the smaller of normalized width and
    /// normalized height. The number has no unit and says something only
    /// beside other faces on like images.
    pub fn size(&self) -> (size: Ratio)
        ensures
            size == self@.size(),
    {
        let rect: Rect<Ratio> = self.normalized_rectangle();
        if rect.width.le(&rect.height) {
            rect.width
        } else {
            rect.height
        }
    }
}

} // verus!
