//! Faces in unsigned pixels, for callers that refuse doubtful geometry.

use vstd::prelude::*;
use crate::bridge::BridgeFace;
use crate::face::{Face, FaceModel};
use crate::geometry::{is_pixel, FaceLandmarks, Rect};

verus! {

/// Why a detector's record was not taken over.
#[derive(Debug, Clone, Copy, PartialEq, Eq, Structural)]
pub enum ConversionError {
    /// A coordinate of the rectangle or of a landmark is negative, or too
    /// large for an unsigned 16-bit pixel.
    MalformedDetection,
}

/// What a [`StrictFace`] holds.
pub struct StrictFaceModel {
    pub confidence: u32,
    pub rectangle: Rect<u16>,
    pub detection_dimensions: (u16, u16),
    pub landmarks: FaceLandmarks<u16>,
}

impl StrictFaceModel {
    /// Whether every coordinate of the record is an unsigned pixel.
    pub open spec fn accepts(raw: BridgeFace) -> bool {
        &&& is_pixel(raw.x as int)
        &&& is_pixel(raw.y as int)
        &&& is_pixel(raw.w as int)
        &&& is_pixel(raw.h as int)
        &&& forall|i: int| 0 <= i < 10 ==> is_pixel(#[trigger] raw.lm@[i] as int)
    }

    /// The face that a detector's record describes, where every coordinate
    /// is an unsigned pixel; the refusal where one is not.
    pub open spec fn from_bridge_face(
        raw: BridgeFace,
        dimensions: (u16, u16),
    ) -> Result<StrictFaceModel, ConversionError> {
        let face = FaceModel::from_bridge_face(raw, dimensions);
        if Self::accepts(raw) {
            Ok(
                StrictFaceModel {
                    confidence: face.confidence,
                    rectangle: face.rectangle.spec_to_unsigned(),
                    detection_dimensions: dimensions,
                    landmarks: face.landmarks.spec_to_unsigned(),
                },
            )
        } else {
            Err(ConversionError::MalformedDetection)
        }
    }

    /// The same face in signed coordinates.
    pub open spec fn widened(self) -> FaceModel {
        FaceModel {
            confidence: self.confidence,
            rectangle: self.rectangle.spec_to_signed(),
            detection_dimensions: self.detection_dimensions,
            landmarks: self.landmarks.spec_to_signed(),
        }
    }
}

/// One face whose whole geometry is known to be unsigned pixels.
///
/// Where [`Face`] keeps whatever the detector reported, this type turns a
/// record away as soon as one coordinate cannot be written as an unsigned
/// 16-bit pixel. That costs the rare detection at the edge of the frame, and
/// every landmark that the detector places outside the image; it buys
/// geometry that needs no further check.
#[derive(Debug)]
pub struct StrictFace {
    confidence: u32,
    rectangle: Rect<u16>,
    detection_dimensions: (u16, u16),
    landmarks: FaceLandmarks<u16>,
}

impl View for StrictFace {
    type V = StrictFaceModel;

    closed spec fn view(&self) -> StrictFaceModel {
        StrictFaceModel {
            confidence: self.confidence,
            rectangle: self.rectangle,
            detection_dimensions: self.detection_dimensions,
            landmarks: self.landmarks,
        }
    }
}

impl StrictFace {
    /// Takes over one record of the detector, found on an image of the given
    /// width and height, unless a coordinate of it is no unsigned pixel.
    pub fn from_yunet_bridge_face(
        face_rect: &BridgeFace,
        detection_dimensions: (u16, u16),
    ) -> (face: Result<Self, ConversionError>)
        ensures
            face is Ok <==> StrictFaceModel::accepts(*face_rect),
            face matches Ok(strict) ==> Ok::<StrictFaceModel, ConversionError>(strict@)
                == StrictFaceModel::from_bridge_face(*face_rect, detection_dimensions),
            face matches Err(error) ==> error == ConversionError::MalformedDetection,
    {
        let signed: Face = Face::from_yunet_bridge_face(face_rect, detection_dimensions);
        let rectangle: Rect<u16> = match signed.rectangle().to_unsigned() {
            Some(rectangle) => rectangle,
            None => { return Err(ConversionError::MalformedDetection); },
        };
        let landmarks: FaceLandmarks<u16> = match signed.landmarks().to_unsigned() {
            Some(landmarks) => landmarks,
            None => { return Err(ConversionError::MalformedDetection); },
        };
        Ok(StrictFace { confidence: signed.confidence(), rectangle, detection_dimensions, landmarks })
    }

    /// The detector's confidence, as the 32 bits of a single-precision
    /// number, handed on untouched.
    pub fn confidence(&self) -> (bits: u32)
        ensures
            bits == self@.confidence,
    {
        self.confidence
    }

    /// The face rectangle in pixels of the image.
    pub fn rectangle(&self) -> (rectangle: Rect<u16>)
        ensures
            rectangle == self@.rectangle,
    {
        self.rectangle
    }

    /// Width and height of the image in which the face was found.
    pub fn detection_dimensions(&self) -> (dimensions: (u16, u16))
        ensures
            dimensions == self@.detection_dimensions,
    {
        self.detection_dimensions
    }

    /// The five landmarks in pixels of the image.
    pub fn landmarks(&self) -> (landmarks: &FaceLandmarks<u16>)
        ensures
            *landmarks == self@.landmarks,
    {
        &self.landmarks
    }

    /// The same face in signed coordinates, with the views that [`Face`]
    /// offers.
    pub fn to_face(&self) -> (face: Face)
        ensures
            face@ == self@.widened(),
    {
        let rectangle: Rect<i32> = self.rectangle.to_signed();
        let points: FaceLandmarks<i32> = self.landmarks.to_signed();
        let record = BridgeFace {
            score: self.confidence,
            x: rectangle.left,
            y: rectangle.top,
            w: rectangle.width,
            h: rectangle.height,
            lm: [
                points.right_eye.0,
                points.right_eye.1,
                points.left_eye.0,
                points.left_eye.1,
                points.nose.0,
                points.nose.1,
                points.mouth_right.0,
                points.mouth_right.1,
                points.mouth_left.0,
                points.mouth_left.1,
            ],
        };
        Face::from_yunet_bridge_face(&record, self.detection_dimensions)
    }
}

} // verus!
