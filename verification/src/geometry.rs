//! Axis-aligned rectangles and the five facial landmarks.

use vstd::prelude::*;

verus! {

/// An axis-aligned box given by its corner and its extent.
///
/// Nothing is demanded of the fields: a detector may report a box that lies
/// partly outside the image, or one with a negative extent. Whether to reject
/// or to clamp such a box is left to the caller.
#[derive(Debug, Clone, Copy)]
pub struct Rect<T> {
    pub left: T,
    pub top: T,
    pub width: T,
    pub height: T,
}

impl<T> Rect<T> {
    /// The rectangle with the given corner and extent.
    pub fn with_size(left: T, top: T, width: T, height: T) -> (rect: Self)
        ensures
            rect.left == left,
            rect.top == top,
            rect.width == width,
            rect.height == height,
    {
        Self { left, top, width, height }
    }

    pub fn left(&self) -> (left: &T)
        ensures
            *left == self.left,
    {
        &self.left
    }

    pub fn top(&self) -> (top: &T)
        ensures
            *top == self.top,
    {
        &self.top
    }

    pub fn width(&self) -> (width: &T)
        ensures
            *width == self.width,
    {
        &self.width
    }

    pub fn height(&self) -> (height: &T)
        ensures
            *height == self.height,
    {
        &self.height
    }
}

/// Whether a coordinate can be written as an unsigned 16-bit pixel.
pub open spec fn is_pixel(value: int) -> bool {
    0 <= value <= 0xffff
}

/// The coordinate as an unsigned pixel, where it is one.
pub fn to_pixel(value: i32) -> (pixel: Option<u16>)
    ensures
        pixel is Some <==> is_pixel(value as int),
        pixel matches Some(p) ==> p == value,
{
    if 0 <= value && value <= 0xffff {
        Some(value as u16)
    } else {
        None
    }
}

impl Rect<i32> {
    /// The first column to the right of the rectangle: `left + width`.
    pub fn right(&self) -> (right: i64)
        ensures
            right == self.left + self.width,
    {
        self.left as i64 + self.width as i64
    }

    /// The first row below the rectangle: `top + height`.
    pub fn bottom(&self) -> (bottom: i64)
        ensures
            bottom == self.top + self.height,
    {
        self.top as i64 + self.height as i64
    }

    /// Whether all four fields are unsigned pixels.
    pub open spec fn is_unsigned(self) -> bool {
        &&& is_pixel(self.left as int)
        &&& is_pixel(self.top as int)
        &&& is_pixel(self.width as int)
        &&& is_pixel(self.height as int)
    }

    /// The same rectangle in unsigned pixels.
    pub open spec fn spec_to_unsigned(self) -> Rect<u16>
        recommends
            self.is_unsigned(),
    {
        Rect {
            left: self.left as u16,
            top: self.top as u16,
            width: self.width as u16,
            height: self.height as u16,
        }
    }

    /// The same rectangle in unsigned pixels; `None` as soon as one field is
    /// negative or too large for that.
    pub fn to_unsigned(&self) -> (unsigned: Option<Rect<u16>>)
        ensures
            unsigned is Some <==> self.is_unsigned(),
            unsigned matches Some(rect) ==> rect == self.spec_to_unsigned(),
    {
        let left: u16 = match to_pixel(self.left) {
            Some(pixel) => pixel,
            None => { return None; },
        };
        let top: u16 = match to_pixel(self.top) {
            Some(pixel) => pixel,
            None => { return None; },
        };
        let width: u16 = match to_pixel(self.width) {
            Some(pixel) => pixel,
            None => { return None; },
        };
        let height: u16 = match to_pixel(self.height) {
            Some(pixel) => pixel,
            None => { return None; },
        };
        Some(Rect { left, top, width, height })
    }
}

impl Rect<u16> {
    /// The first column to the right of the rectangle: `left + width`.
    pub fn right(&self) -> (right: u32)
        ensures
            right == self.left + self.width,
    {
        self.left as u32 + self.width as u32
    }

    /// The first row below the rectangle: `top + height`.
    pub fn bottom(&self) -> (bottom: u32)
        ensures
            bottom == self.top + self.height,
    {
        self.top as u32 + self.height as u32
    }

    /// The same rectangle in signed coordinates.
    pub open spec fn spec_to_signed(self) -> Rect<i32> {
        Rect {
            left: self.left as i32,
            top: self.top as i32,
            width: self.width as i32,
            height: self.height as i32,
        }
    }

    /// The same rectangle in signed coordinates.
    pub fn to_signed(&self) -> (signed: Rect<i32>)
        ensures
            signed == self.spec_to_signed(),
            signed.is_unsigned(),
            signed.spec_to_unsigned() == *self,
    {
        Rect {
            left: self.left as i32,
            top: self.top as i32,
            width: self.width as i32,
            height: self.height as i32,
        }
    }
}

/// Five points of a face, each as `(x, y)`.
///
/// Right and left are the person's own: the right eye is the one seen on the
/// left side of the picture. A point may lie outside the image, since a
/// detector places hidden landmarks by what it sees of the rest.
#[derive(Debug)]
pub struct FaceLandmarks<T> {
    pub right_eye: (T, T),
    pub left_eye: (T, T),
    pub nose: (T, T),
    pub mouth_right: (T, T),
    pub mouth_left: (T, T),
}

/// Whether `copy` is what cloning both coordinates of `point` may give.
pub open spec fn cloned_point<T: Clone>(point: (T, T), copy: (T, T)) -> bool {
    cloned(point.0, copy.0) && cloned(point.1, copy.1)
}

impl<T: Clone> Clone for FaceLandmarks<T> {
    /// Clones coordinate by coordinate.
    fn clone(&self) -> (copy: Self)
        ensures
            cloned_point(self.right_eye, copy.right_eye),
            cloned_point(self.left_eye, copy.left_eye),
            cloned_point(self.nose, copy.nose),
            cloned_point(self.mouth_right, copy.mouth_right),
            cloned_point(self.mouth_left, copy.mouth_left),
    {
        FaceLandmarks {
            right_eye: (self.right_eye.0.clone(), self.right_eye.1.clone()),
            left_eye: (self.left_eye.0.clone(), self.left_eye.1.clone()),
            nose: (self.nose.0.clone(), self.nose.1.clone()),
            mouth_right: (self.mouth_right.0.clone(), self.mouth_right.1.clone()),
            mouth_left: (self.mouth_left.0.clone(), self.mouth_left.1.clone()),
        }
    }
}

/// Whether both coordinates of a point are unsigned pixels.
pub open spec fn is_pixel_point(point: (i32, i32)) -> bool {
    is_pixel(point.0 as int) && is_pixel(point.1 as int)
}

/// The point as unsigned pixels, where both coordinates are.
pub fn to_pixel_point(point: (i32, i32)) -> (pixels: Option<(u16, u16)>)
    ensures
        pixels is Some <==> is_pixel_point(point),
        pixels matches Some(p) ==> p.0 == point.0 && p.1 == point.1,
{
    let x: u16 = match to_pixel(point.0) {
        Some(pixel) => pixel,
        None => { return None; },
    };
    let y: u16 = match to_pixel(point.1) {
        Some(pixel) => pixel,
        None => { return None; },
    };
    Some((x, y))
}

impl FaceLandmarks<i32> {
    /// The landmarks that a flat array of ten coordinates stands for: five
    /// `x, y` pairs, in the order right eye, left eye, nose, right and left
    /// corner of the mouth.
    pub open spec fn spec_from_array(landmarks: Seq<i32>) -> FaceLandmarks<i32>
        recommends
            landmarks.len() == 10,
    {
        FaceLandmarks {
            right_eye: (landmarks[0], landmarks[1]),
            left_eye: (landmarks[2], landmarks[3]),
            nose: (landmarks[4], landmarks[5]),
            mouth_right: (landmarks[6], landmarks[7]),
            mouth_left: (landmarks[8], landmarks[9]),
        }
    }

    /// Reads the landmarks out of a detector's flat array of five `x, y`
    /// pairs.
    pub fn from_yunet_landmark_array(landmarks: &[i32; 10]) -> (points: Self)
        ensures
            points == Self::spec_from_array(landmarks@),
    {
        Self {
            right_eye: (landmarks[0], landmarks[1]),
            left_eye: (landmarks[2], landmarks[3]),
            nose: (landmarks[4], landmarks[5]),
            mouth_right: (landmarks[6], landmarks[7]),
            mouth_left: (landmarks[8], landmarks[9]),
        }
    }

    /// Whether all ten coordinates are unsigned pixels.
    pub open spec fn is_unsigned(self) -> bool {
        &&& is_pixel_point(self.right_eye)
        &&& is_pixel_point(self.left_eye)
        &&& is_pixel_point(self.nose)
        &&& is_pixel_point(self.mouth_right)
        &&& is_pixel_point(self.mouth_left)
    }

    /// The same landmarks in unsigned pixels.
    pub open spec fn spec_to_unsigned(self) -> FaceLandmarks<u16>
        recommends
            self.is_unsigned(),
    {
        FaceLandmarks {
            right_eye: (self.right_eye.0 as u16, self.right_eye.1 as u16),
            left_eye: (self.left_eye.0 as u16, self.left_eye.1 as u16),
            nose: (self.nose.0 as u16, self.nose.1 as u16),
            mouth_right: (self.mouth_right.0 as u16, self.mouth_right.1 as u16),
            mouth_left: (self.mouth_left.0 as u16, self.mouth_left.1 as u16),
        }
    }

    /// The same landmarks in unsigned pixels; `None` as soon as one
    /// coordinate is negative or too large for that.
    pub fn to_unsigned(&self) -> (unsigned: Option<FaceLandmarks<u16>>)
        ensures
            unsigned is Some <==> self.is_unsigned(),
            unsigned matches Some(points) ==> points == self.spec_to_unsigned(),
    {
        let right_eye: (u16, u16) = match to_pixel_point(self.right_eye) {
            Some(point) => point,
            None => { return None; },
        };
        let left_eye: (u16, u16) = match to_pixel_point(self.left_eye) {
            Some(point) => point,
            None => { return None; },
        };
        let nose: (u16, u16) = match to_pixel_point(self.nose) {
            Some(point) => point,
            None => { return None; },
        };
        let mouth_right: (u16, u16) = match to_pixel_point(self.mouth_right) {
            Some(point) => point,
            None => { return None; },
        };
        let mouth_left: (u16, u16) = match to_pixel_point(self.mouth_left) {
            Some(point) => point,
            None => { return None; },
        };
        Some(FaceLandmarks { right_eye, left_eye, nose, mouth_right, mouth_left })
    }
}

impl FaceLandmarks<u16> {
    /// The same landmarks in signed coordinates.
    pub open spec fn spec_to_signed(self) -> FaceLandmarks<i32> {
        FaceLandmarks {
            right_eye: (self.right_eye.0 as i32, self.right_eye.1 as i32),
            left_eye: (self.left_eye.0 as i32, self.left_eye.1 as i32),
            nose: (self.nose.0 as i32, self.nose.1 as i32),
            mouth_right: (self.mouth_right.0 as i32, self.mouth_right.1 as i32),
            mouth_left: (self.mouth_left.0 as i32, self.mouth_left.1 as i32),
        }
    }

    /// The same landmarks in signed coordinates.
    pub fn to_signed(&self) -> (signed: FaceLandmarks<i32>)
        ensures
            signed == self.spec_to_signed(),
            signed.is_unsigned(),
            signed.spec_to_unsigned() == *self,
    {
        FaceLandmarks {
            right_eye: (self.right_eye.0 as i32, self.right_eye.1 as i32),
            left_eye: (self.left_eye.0 as i32, self.left_eye.1 as i32),
            nose: (self.nose.0 as i32, self.nose.1 as i32),
            mouth_right: (self.mouth_right.0 as i32, self.mouth_right.1 as i32),
            mouth_left: (self.mouth_left.0 as i32, self.mouth_left.1 as i32),
        }
    }
}

} // verus!
