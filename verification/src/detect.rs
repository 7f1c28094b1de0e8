//! One detection run: from the detector's answer to faces.
//!
//! The detector is not called from here. A run goes in three steps: the
//! caller wraps the pixels in a [`BgrImage`] and asks it for the
//! [`crate::frame::InferenceCall`]; the caller runs the detector with those
//! numbers on the image's bytes; [`detect_faces`] turns what came back into
//! faces.

use vstd::prelude::*;
use crate::bridge::BridgeFace;
use crate::error::YuNetError;
use crate::face::{Face, FaceModel};
use crate::frame::BgrImage;
use crate::strict::{ConversionError, StrictFace, StrictFaceModel};

verus! {

/// Turns the outcome of running the detector on `image` into faces.
///
/// `detections` is what the detector returned for
/// [`BgrImage::inference_call`], or `None` where it failed. A failure ends
/// the run. Otherwise every record becomes a face, none is dropped, and the
/// faces stand in the order of the records: the detector has done its own
/// suppression of overlapping boxes, so nothing is sorted or merged here.
pub fn detect_faces(
    image: &BgrImage,
    detections: Option<Vec<BridgeFace>>,
) -> (result: Result<Vec<Face>, YuNetError>)
    ensures
        detections is None ==> (result matches Err(error) && error is FaceDetectionFailed),
        detections matches Some(raws) ==> (result matches Ok(faces) && {
            &&& faces@.len() == raws@.len()
            &&& forall|i: int|
                0 <= i < raws@.len() ==> (#[trigger] faces@[i])@ == FaceModel::from_bridge_face(
                    raws@[i],
                    image@.detection_dimensions(),
                )
        }),
{
    let raws: Vec<BridgeFace> = match detections {
        Some(raws) => raws,
        None => { return Err(YuNetError::FaceDetectionFailed); },
    };
    let dimensions: (u16, u16) = image.detection_dimensions();
    let mut faces: Vec<Face> = Vec::new();
    let mut index: usize = 0;
    while index < raws.len()
        invariant
            index <= raws.len(),
            faces@.len() == index,
            forall|i: int|
                0 <= i < index ==> (#[trigger] faces@[i])@ == FaceModel::from_bridge_face(
                    raws@[i],
                    dimensions,
                ),
        decreases raws.len() - index,
    {
        let face: Face = Face::from_yunet_bridge_face(&raws[index], dimensions);
        faces.push(face);
        index += 1;
    }
    Ok(faces)
}

/// The strict faces that a list of detector records describes: one for each
/// record of which every coordinate is an unsigned pixel, in the detector's
/// order. The other records leave no trace.
pub open spec fn strict_faces_of(
    raws: Seq<BridgeFace>,
    dimensions: (u16, u16),
) -> Seq<StrictFaceModel>
    decreases raws.len(),
{
    if raws.len() == 0 {
        Seq::empty()
    } else {
        let earlier = strict_faces_of(raws.drop_last(), dimensions);
        match StrictFaceModel::from_bridge_face(raws.last(), dimensions) {
            Ok(face) => earlier.push(face),
            Err(_) => earlier,
        }
    }
}

/// What a list of strict faces holds, face by face.
pub open spec fn strict_face_views(faces: Seq<StrictFace>) -> Seq<StrictFaceModel> {
    Seq::new(faces.len(), |i: int| faces[i]@)
}

/// Turns the outcome of running the detector on `image` into strict faces.
///
/// As [`detect_faces`], but a record with a coordinate that is no unsigned
/// pixel is left out. Such a record is the detector's fault, not the run's:
/// the others are still returned, in the detector's order.
pub fn detect_strict_faces(
    image: &BgrImage,
    detections: Option<Vec<BridgeFace>>,
) -> (result: Result<Vec<StrictFace>, YuNetError>)
    ensures
        detections is None ==> (result matches Err(error) && error is FaceDetectionFailed),
        detections matches Some(raws) ==> (result matches Ok(faces) && strict_face_views(faces@)
            == strict_faces_of(raws@, image@.detection_dimensions())),
{
    let raws: Vec<BridgeFace> = match detections {
        Some(raws) => raws,
        None => { return Err(YuNetError::FaceDetectionFailed); },
    };
    let dimensions: (u16, u16) = image.detection_dimensions();
    let mut faces: Vec<StrictFace> = Vec::new();
    let mut index: usize = 0;
    while index < raws.len()
        invariant
            index <= raws.len(),
            strict_face_views(faces@) == strict_faces_of(raws@.take(index as int), dimensions),
        decreases raws.len() - index,
    {
        let ghost before = faces@;
        let converted: Result<StrictFace, ConversionError> = StrictFace::from_yunet_bridge_face(
            &raws[index],
            dimensions,
        );
        proof {
            assert(raws@.take(index + 1).drop_last() == raws@.take(index as int));
        }
        match converted {
            Ok(face) => {
                faces.push(face);
                proof {
                    assert(strict_face_views(faces@) =~= strict_face_views(before).push(face@));
                }
            },
            Err(_) => {},
        }
        index += 1;
    }
    assert(raws@.take(index as int) == raws@);
    Ok(faces)
}

} // verus!
