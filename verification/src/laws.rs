//! What holds of the library's functions taken together.

use vstd::prelude::*;
use vstd::arithmetic::div_mod::lemma_div_multiples_vanish;
use crate::bridge::BridgeFace;
use crate::detect::strict_faces_of;
use crate::face::FaceModel;
use crate::geometry::Rect;
use crate::ratio::{lemma_floor_bounds, Ratio};
use crate::strict::{ConversionError, StrictFaceModel};

verus! {

/// A ratio applied to its own denominator gives back its numerator, with
/// nothing lost to rounding.
pub proof fn ratio_scales_back(ratio: Ratio)
    requires
        ratio.is_number(),
    ensures
        ratio.spec_scaled_to(ratio.denominator as int) == ratio.numerator,
{
    let n = ratio.numerator as int;
    let d = ratio.denominator as int;
    assert(n * d == d * n) by (nonlinear_arith);
    lemma_div_multiples_vanish(n, d);
}

/// A ratio applied to an extent is rounded down: the result is the largest
/// integer that, multiplied by the denominator, does not exceed the numerator
/// multiplied by the extent.
pub proof fn ratio_scaling_rounds_down(ratio: Ratio, extent: int)
    requires
        ratio.is_number(),
    ensures
        ({
            let pixel = ratio.spec_scaled_to(extent);
            &&& pixel * ratio.denominator <= ratio.numerator * extent
            &&& ratio.numerator * extent < (pixel + 1) * ratio.denominator
        }),
{
    lemma_floor_bounds(ratio.numerator * extent, ratio.denominator as int);
}

/// Between numbers, one of two ratios is at most the other.
pub proof fn ratio_order_is_total(a: Ratio, b: Ratio)
    ensures
        a.spec_le(b) || b.spec_le(a),
        a.spec_le(b) && b.spec_le(a) <==> a.spec_same_value(b),
{
}

/// Between numbers, the order of ratios is transitive.
pub proof fn ratio_order_is_transitive(a: Ratio, b: Ratio, c: Ratio)
    requires
        a.is_number(),
        b.is_number(),
        c.is_number(),
        a.spec_le(b),
        b.spec_le(c),
    ensures
        a.spec_le(c),
{
    let (an, ad) = (a.numerator as int, a.denominator as int);
    let (bn, bd) = (b.numerator as int, b.denominator as int);
    let (cn, cd) = (c.numerator as int, c.denominator as int);
    assert(an * bd * cd <= bn * ad * cd) by (nonlinear_arith)
        requires
            an * bd <= bn * ad,
            cd > 0,
    ;
    assert(bn * cd * ad <= cn * bd * ad) by (nonlinear_arith)
        requires
            bn * cd <= cn * bd,
            ad > 0,
    ;
    assert(an * cd <= cn * ad) by (nonlinear_arith)
        requires
            an * bd * cd <= bn * ad * cd,
            bn * cd * ad <= cn * bd * ad,
            bd > 0,
    ;
}

/// A record of which every coordinate is an unsigned pixel is accepted by the
/// strict conversion, and the strict face holds exactly the record's numbers:
/// widened again, it is the face that the permissive conversion gives.
pub proof fn strict_conversion_round_trips(raw: BridgeFace, dimensions: (u16, u16))
    requires
        StrictFaceModel::accepts(raw),
    ensures
        StrictFaceModel::from_bridge_face(raw, dimensions) matches Ok(face) && {
            &&& face.rectangle.left == raw.x
            &&& face.rectangle.top == raw.y
            &&& face.rectangle.width == raw.w
            &&& face.rectangle.height == raw.h
            &&& face.confidence == raw.score
            &&& face.detection_dimensions == dimensions
            &&& face.widened() == FaceModel::from_bridge_face(raw, dimensions)
        },
{
}

/// A record whose rectangle has a negative field is refused by the strict
/// conversion as malformed. The permissive conversion takes the same record
/// and keeps the four fields as they are, sign included.
pub proof fn negative_rectangle_is_refused_or_kept(raw: BridgeFace, dimensions: (u16, u16))
    requires
        raw.x < 0 || raw.y < 0 || raw.w < 0 || raw.h < 0,
    ensures
        StrictFaceModel::from_bridge_face(raw, dimensions) == Err::<
            StrictFaceModel,
            ConversionError,
        >(ConversionError::MalformedDetection),
        FaceModel::from_bridge_face(raw, dimensions).rectangle == (Rect {
            left: raw.x,
            top: raw.y,
            width: raw.w,
            height: raw.h,
        }),
{
}

/// The strict conversion refuses a record exactly when one of its fourteen
/// coordinates is negative or above 65535.
pub proof fn strict_conversion_refuses_exactly_non_pixels(raw: BridgeFace, dimensions: (u16, u16))
    ensures
        StrictFaceModel::from_bridge_face(raw, dimensions) is Err <==> {
            ||| !(0 <= raw.x <= 0xffff)
            ||| !(0 <= raw.y <= 0xffff)
            ||| !(0 <= raw.w <= 0xffff)
            ||| !(0 <= raw.h <= 0xffff)
            ||| exists|i: int| 0 <= i < 10 && !(0 <= #[trigger] raw.lm@[i] <= 0xffff)
        },
{
}

/// On an image with a width and a height, the normalized rectangle scaled
/// back by the image's dimensions is the rectangle in pixels again.
pub proof fn normalized_rectangle_scales_back(face: FaceModel)
    requires
        face.detection_dimensions.0 > 0,
        face.detection_dimensions.1 > 0,
    ensures
        ({
            let normalized = face.normalized_rectangle();
            let (width, height) = face.detection_dimensions;
            &&& normalized.left.spec_scaled_to(width as int) == face.rectangle.left
            &&& normalized.top.spec_scaled_to(height as int) == face.rectangle.top
            &&& normalized.width.spec_scaled_to(width as int) == face.rectangle.width
            &&& normalized.height.spec_scaled_to(height as int) == face.rectangle.height
        }),
{
    let normalized = face.normalized_rectangle();
    ratio_scales_back(normalized.left);
    ratio_scales_back(normalized.top);
    ratio_scales_back(normalized.width);
    ratio_scales_back(normalized.height);
}

/// On an image with a width and a height, each normalized landmark scaled
/// back by the image's dimensions is the landmark in pixels again.
pub proof fn normalized_landmarks_scale_back(face: FaceModel)
    requires
        face.detection_dimensions.0 > 0,
        face.detection_dimensions.1 > 0,
    ensures
        ({
            let normalized = face.normalized_landmarks();
            let (width, height) = face.detection_dimensions;
            let back = |point: (Ratio, Ratio)|
                (point.0.spec_scaled_to(width as int), point.1.spec_scaled_to(height as int));
            let pixels = |point: (i32, i32)| (point.0 as int, point.1 as int);
            &&& back(normalized.right_eye) == pixels(face.landmarks.right_eye)
            &&& back(normalized.left_eye) == pixels(face.landmarks.left_eye)
            &&& back(normalized.nose) == pixels(face.landmarks.nose)
            &&& back(normalized.mouth_right) == pixels(face.landmarks.mouth_right)
            &&& back(normalized.mouth_left) == pixels(face.landmarks.mouth_left)
        }),
{
    let normalized = face.normalized_landmarks();
    ratio_scales_back(normalized.right_eye.0);
    ratio_scales_back(normalized.right_eye.1);
    ratio_scales_back(normalized.left_eye.0);
    ratio_scales_back(normalized.left_eye.1);
    ratio_scales_back(normalized.nose.0);
    ratio_scales_back(normalized.nose.1);
    ratio_scales_back(normalized.mouth_right.0);
    ratio_scales_back(normalized.mouth_right.1);
    ratio_scales_back(normalized.mouth_left.0);
    ratio_scales_back(normalized.mouth_left.1);
}

/// The size of a face is its normalized width or its normalized height, and
/// is at most either of them.
pub proof fn size_is_the_smaller_extent(face: FaceModel)
    ensures
        ({
            let normalized = face.normalized_rectangle();
            &&& face.size() == normalized.width || face.size() == normalized.height
            &&& face.size().spec_le(normalized.width)
            &&& face.size().spec_le(normalized.height)
        }),
{
}

/// Which records the strict run keeps, as their positions in the detector's
/// list, in rising order.
pub open spec fn kept_positions(raws: Seq<BridgeFace>) -> Seq<int>
    decreases raws.len(),
{
    if raws.len() == 0 {
        Seq::empty()
    } else if StrictFaceModel::accepts(raws.last()) {
        kept_positions(raws.drop_last()).push(raws.len() - 1)
    } else {
        kept_positions(raws.drop_last())
    }
}

/// The strict run keeps the detector's order and loses no acceptable record:
/// its faces are those of the accepted records, each once, at rising
/// positions of the detector's list.
pub proof fn strict_faces_keep_order(raws: Seq<BridgeFace>, dimensions: (u16, u16))
    ensures
        ({
            let kept = kept_positions(raws);
            let faces = strict_faces_of(raws, dimensions);
            &&& kept.len() == faces.len()
            &&& forall|k: int| 0 <= k < kept.len() ==> 0 <= #[trigger] kept[k] < raws.len()
            &&& forall|j: int, k: int| 0 <= j < k < kept.len() ==> kept[j] < kept[k]
            &&& forall|k: int|
                0 <= k < kept.len() ==> StrictFaceModel::from_bridge_face(
                    raws[#[trigger] kept[k]],
                    dimensions,
                ) == Ok::<StrictFaceModel, ConversionError>(faces[k])
            &&& forall|i: int|
                0 <= i < raws.len() && StrictFaceModel::accepts(#[trigger] raws[i])
                    ==> kept.contains(i)
        }),
    decreases raws.len(),
{
    if raws.len() > 0 {
        let earlier = raws.drop_last();
        strict_faces_keep_order(earlier, dimensions);
        let kept = kept_positions(raws);
        let kept_earlier = kept_positions(earlier);
        let faces = strict_faces_of(raws, dimensions);
        assert forall|k: int| 0 <= k < kept.len() implies StrictFaceModel::from_bridge_face(
            raws[#[trigger] kept[k]],
            dimensions,
        ) == Ok::<StrictFaceModel, ConversionError>(faces[k]) by {
            if k < kept_earlier.len() {
                assert(earlier[kept_earlier[k]] == raws[kept_earlier[k]]);
            }
        }
        assert forall|i: int|
            0 <= i < raws.len() && StrictFaceModel::accepts(#[trigger] raws[i]) implies kept.contains(
            i,
        ) by {
            if i < raws.len() - 1 {
                assert(earlier[i] == raws[i]);
                let k = choose|k: int| 0 <= k < kept_earlier.len() && kept_earlier[k] == i;
                assert(kept[k] == i);
            } else {
                assert(kept[kept.len() - 1] == i);
            }
        }
    }
}

} // verus!
