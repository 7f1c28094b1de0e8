//! The image as the detector reads it, and the numbers it is run with.

use vstd::prelude::*;
use image::GenericImageView;

verus! {

/// A decoded image of the image library, in whichever of its pixel formats.
/// The library hands it on and never looks inside.
#[verifier::external_type_specification]
#[verifier::external_body]
pub struct ExDynamicImage(image::DynamicImage);

/// Width and height of a decoded image, in pixels.
pub uninterp spec fn dimensions_of(image: image::DynamicImage) -> (u32, u32);

/// The pixels of a decoded image after the image library's conversion to
/// eight-bit blue, green, red: three bytes a pixel, rows from the top.
pub uninterp spec fn bgr_bytes_of(image: image::DynamicImage) -> Seq<u8>;

/// `GenericImageView::dimensions` of the image library: width and height of
/// the image, read from its buffer.
#[verifier::external_body]
fn dimensions(image: &image::DynamicImage) -> (dimensions: (u32, u32))
    ensures
        dimensions == dimensions_of(*image),
{
    image.dimensions()
}

/// `DynamicImage::into_bgr8` of the image library, and the bytes of the
/// buffer it returns. What those bytes are, for each pixel format, is the
/// image library's business; all that is claimed here is that they depend on
/// the image alone. The image library allocates `3 * width * height` bytes
/// for them and panics where a vector cannot be that long, so such an image
/// is not to be passed.
#[verifier::external_body]
fn into_bgr_bytes(image: image::DynamicImage) -> (bytes: Vec<u8>)
    requires
        3 * dimensions_of(image).0 * dimensions_of(image).1 <= isize::MAX,
    ensures
        bytes@ == bgr_bytes_of(image),
{
    image.into_bgr8().into_raw()
}

/// Bytes per pixel: blue, green, red, eight bits each.
pub const CHANNELS: u32 = 3;

/// What a [`BgrImage`] holds.
pub struct BgrImageModel {
    pub width: u32,
    pub height: u32,
    pub data: Seq<u8>,
}

impl BgrImageModel {
    /// Whether the bytes hold every pixel of the image: three bytes each, row
    /// after row without padding.
    pub open spec fn holds_all_pixels(self) -> bool {
        CHANNELS * self.width * self.height <= self.data.len()
    }

    /// Whether a vector can be as long as the image's pixels need.
    pub open spec fn fits_a_vector(self) -> bool {
        CHANNELS * self.width * self.height <= isize::MAX
    }

    /// A decoded image in the form the detector reads: its width and height,
    /// and its pixels as the image library converts them.
    pub open spec fn of_decoded(decoded: image::DynamicImage) -> BgrImageModel {
        BgrImageModel {
            width: dimensions_of(decoded).0,
            height: dimensions_of(decoded).1,
            data: bgr_bytes_of(decoded),
        }
    }

    /// Width and height as the detector and the faces get them: each reduced
    /// modulo 65536 to an unsigned 16-bit number. An image of up to 65535
    /// pixels a side keeps its dimensions; a larger one is cut down.
    pub open spec fn detection_dimensions(self) -> (u16, u16) {
        ((self.width % 0x1_0000) as u16, (self.height % 0x1_0000) as u16)
    }

    /// The numbers the detector is run with: the detection dimensions, and a
    /// row length of three bytes per pixel.
    pub open spec fn inference_call(self) -> InferenceCall {
        InferenceCall {
            width: self.detection_dimensions().0 as i32,
            height: self.detection_dimensions().1 as i32,
            step: (CHANNELS * self.detection_dimensions().0) as i32,
        }
    }
}

/// An image as the detector reads it: eight-bit blue, green and red for each
/// pixel, rows from the top, no padding between rows. The bytes always hold
/// at least `width * height` pixels.
#[derive(Debug)]
pub struct BgrImage {
    width: u32,
    height: u32,
    data: Vec<u8>,
}

impl View for BgrImage {
    type V = BgrImageModel;

    closed spec fn view(&self) -> BgrImageModel {
        BgrImageModel { width: self.width, height: self.height, data: self.data@ }
    }
}

/// How many bytes the pixels of an image need.
fn bytes_needed(width: u32, height: u32) -> (needed: u128)
    ensures
        needed == CHANNELS * width * height,
{
    assert(0 <= width * height <= 0xffff_ffff * 0xffff_ffff) by (nonlinear_arith)
        requires
            0 <= width <= 0xffff_ffff,
            0 <= height <= 0xffff_ffff,
    ;
    let pixels: u64 = width as u64 * height as u64;
    assert(CHANNELS * pixels == CHANNELS * width * height) by (nonlinear_arith)
        requires
            pixels == width * height,
    ;
    CHANNELS as u128 * pixels as u128
}

/// The numbers that go to the detector beside the image's bytes.
#[derive(Debug, Clone, Copy, PartialEq, Eq, Structural)]
pub struct InferenceCall {
    /// Pixels per row.
    pub width: i32,
    /// Number of rows.
    pub height: i32,
    /// Bytes from the start of one row to the start of the next.
    pub step: i32,
}

impl BgrImage {
    #[verifier::type_invariant]
    spec fn well_formed(self) -> bool {
        CHANNELS * self.width * self.height <= self.data@.len()
    }

    /// Wraps the bytes of an image of the given width and height; `None`
    /// where they are too few for that many pixels.
    pub fn new(width: u32, height: u32, data: Vec<u8>) -> (image: Option<BgrImage>)
        ensures
            image is Some <==> (BgrImageModel { width, height, data: data@ }).holds_all_pixels(),
            image matches Some(wrapped) ==> wrapped@ == (BgrImageModel {
                width,
                height,
                data: data@,
            }),
    {
        if bytes_needed(width, height) <= data.len() as u128 {
            Some(BgrImage { width, height, data })
        } else {
            None
        }
    }

    /// Converts a decoded image, whatever its pixel format, into the form
    /// the detector reads. `None` for an image of so many pixels that no
    /// vector could hold three bytes for each, and where the converted bytes
    /// are too few for the image's width and height. The image library, as
    /// it is, never returns too few; nothing here rests on that.
    pub fn from_dynamic_image(decoded: image::DynamicImage) -> (image: Option<BgrImage>)
        ensures
            image is Some <==> BgrImageModel::of_decoded(decoded).fits_a_vector()
                && BgrImageModel::of_decoded(decoded).holds_all_pixels(),
            image matches Some(converted) ==> converted@ == BgrImageModel::of_decoded(decoded),
    {
        let (width, height): (u32, u32) = dimensions(&decoded);
        if bytes_needed(width, height) > isize::MAX as u128 {
            return None;
        }
        let bytes: Vec<u8> = into_bgr_bytes(decoded);
        BgrImage::new(width, height, bytes)
    }

    /// Pixels per row.
    pub fn width(&self) -> (width: u32)
        ensures
            width == self@.width,
    {
        self.width
    }

    /// Number of rows.
    pub fn height(&self) -> (height: u32)
        ensures
            height == self@.height,
    {
        self.height
    }

    /// The pixels: blue, green and red of the top left pixel first.
    pub fn data(&self) -> (data: &Vec<u8>)
        ensures
            data@ == self@.data,
    {
        &self.data
    }

    /// Width and height as the detector and the faces get them.
    pub fn detection_dimensions(&self) -> (dimensions: (u16, u16))
        ensures
            dimensions == self@.detection_dimensions(),
            self@.width <= 0xffff ==> dimensions.0 == self@.width,
            self@.height <= 0xffff ==> dimensions.1 == self@.height,
    {
        ((self.width % 0x1_0000) as u16, (self.height % 0x1_0000) as u16)
    }

    /// The numbers to run the detector with on [`BgrImage::data`]. A
    /// detector that reads `height` rows of `step` bytes stays inside the
    /// image's bytes.
    pub fn inference_call(&self) -> (call: InferenceCall)
        ensures
            call == self@.inference_call(),
            call.width == self@.detection_dimensions().0,
            call.height == self@.detection_dimensions().1,
            call.step == CHANNELS * call.width,
            0 <= call.step * call.height <= self@.data.len(),
    {
        let dimensions: (u16, u16) = self.detection_dimensions();
        let width: i32 = dimensions.0 as i32;
        let height: i32 = dimensions.1 as i32;
        let step: i32 = 3 * width;
        proof {
            use_type_invariant(self);
            let w = self.width as int;
            let h = self.height as int;
            assert(0 <= (3 * (w % 0x1_0000)) * (h % 0x1_0000) <= 3 * w * h) by (nonlinear_arith)
                requires
                    0 <= w,
                    0 <= h,
                    0 <= w % 0x1_0000 <= w,
                    0 <= h % 0x1_0000 <= h,
            ;
        }
        InferenceCall { width, height, step }
    }
}

} // verus!
