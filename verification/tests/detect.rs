use image::{DynamicImage, GrayImage, ImageBuffer, Luma, Rgb, RgbImage, Rgba};
use rusty_yunet::bridge::BridgeFace;
use rusty_yunet::detect::{detect_faces, detect_strict_faces};
use rusty_yunet::error::YuNetError;
use rusty_yunet::frame::{BgrImage, InferenceCall, CHANNELS};

fn record(x: i32) -> BridgeFace {
    BridgeFace {
        score: 0.5_f32.to_bits(),
        x,
        y: 2,
        w: 3,
        h: 4,
        lm: [1, 2, 3, 4, 5, 6, 7, 8, 9, 10],
    }
}

fn blank(width: u32, height: u32) -> BgrImage {
    BgrImage::new(width, height, vec![0; (3 * width * height) as usize]).unwrap()
}

#[test]
fn image_takes_bytes_for_all_its_pixels() {
    assert_eq!(CHANNELS, 3);
    let image = BgrImage::new(2, 3, vec![7; 18]).unwrap();
    assert_eq!(image.width(), 2);
    assert_eq!(image.height(), 3);
    assert_eq!(image.data(), &vec![7_u8; 18]);
    assert!(BgrImage::new(2, 3, vec![7; 19]).is_some());
    assert!(BgrImage::new(0, 3, vec![]).is_some());
    assert!(BgrImage::new(3, 0, vec![]).is_some());
}

#[test]
fn image_refuses_too_few_bytes() {
    assert!(BgrImage::new(2, 3, vec![7; 17]).is_none());
    assert!(BgrImage::new(1, 1, vec![]).is_none());
    assert!(BgrImage::new(u32::MAX, u32::MAX, vec![0; 16]).is_none());
}

#[test]
fn inference_call_has_three_bytes_a_pixel() {
    let image = blank(64, 48);
    assert_eq!(image.detection_dimensions(), (64, 48));
    assert_eq!(image.inference_call(), InferenceCall { width: 64, height: 48, step: 192 });
}

#[test]
fn inference_call_of_an_image_without_extent() {
    let image = blank(0, 0);
    assert_eq!(image.detection_dimensions(), (0, 0));
    assert_eq!(image.inference_call(), InferenceCall { width: 0, height: 0, step: 0 });
}

#[test]
fn inference_call_cuts_large_dimensions_down() {
    let image = blank(65536 + 5, 1);
    assert_eq!(image.width(), 65541);
    assert_eq!(image.detection_dimensions(), (5, 1));
    assert_eq!(image.inference_call(), InferenceCall { width: 5, height: 1, step: 15 });
    let image = blank(1, 65536);
    assert_eq!(image.detection_dimensions(), (1, 0));
    assert_eq!(image.inference_call(), InferenceCall { width: 1, height: 0, step: 3 });
    let image = blank(65535, 1);
    assert_eq!(image.detection_dimensions(), (65535, 1));
    assert_eq!(image.inference_call(), InferenceCall { width: 65535, height: 1, step: 196605 });
}

#[test]
fn inference_call_stays_inside_the_bytes() {
    for (width, height) in [(0, 0), (1, 1), (64, 48), (65541, 3), (3, 65541)] {
        let image = blank(width, height);
        let call = image.inference_call();
        assert!((call.step as usize) * (call.height as usize) <= image.data().len());
        assert_eq!(call.step, 3 * call.width);
    }
}

#[test]
fn detector_failure_ends_the_run() {
    let image = blank(64, 48);
    assert!(matches!(detect_faces(&image, None), Err(YuNetError::FaceDetectionFailed)));
    assert!(matches!(detect_strict_faces(&image, None), Err(YuNetError::FaceDetectionFailed)));
}

#[test]
fn no_detections_give_no_faces() {
    let image = blank(64, 48);
    assert!(detect_faces(&image, Some(vec![])).unwrap().is_empty());
    assert!(detect_strict_faces(&image, Some(vec![])).unwrap().is_empty());
}

#[test]
fn faces_come_in_the_order_of_the_detections() {
    let image = blank(64, 48);
    let raws = vec![record(30), record(-10), record(20), record(-10), record(0)];
    let faces = detect_faces(&image, Some(raws)).unwrap();
    let lefts: Vec<i32> = faces.iter().map(|face| face.rectangle().left).collect();
    assert_eq!(lefts, vec![30, -10, 20, -10, 0]);
    for face in &faces {
        assert_eq!(face.detection_dimensions(), (64, 48));
        assert_eq!(face.confidence(), 0.5_f32.to_bits());
        assert_eq!(face.rectangle().height, 4);
        assert_eq!(face.landmarks().mouth_left, (9, 10));
    }
}

#[test]
fn faces_carry_the_dimensions_the_detector_was_given() {
    let image = blank(65536 + 5, 2);
    let faces = detect_faces(&image, Some(vec![record(1)])).unwrap();
    assert_eq!(faces.len(), 1);
    assert_eq!(faces[0].detection_dimensions(), (5, 2));
}

#[test]
fn strict_run_drops_malformed_detections_only() {
    let image = blank(64, 48);
    let mut off_image = record(40);
    off_image.lm[4] = -3;
    let raws = vec![record(30), record(-10), record(20), off_image, record(70000), record(0)];
    let faces = detect_strict_faces(&image, Some(raws)).unwrap();
    let lefts: Vec<u16> = faces.iter().map(|face| face.rectangle().left).collect();
    assert_eq!(lefts, vec![30, 20, 0]);
    for face in &faces {
        assert_eq!(face.detection_dimensions(), (64, 48));
    }
}

#[test]
fn strict_run_may_drop_everything() {
    let image = blank(64, 48);
    let faces = detect_strict_faces(&image, Some(vec![record(-1), record(-2)])).unwrap();
    assert!(faces.is_empty());
}

#[test]
fn decoded_rgb_image_is_reordered_to_bgr() {
    let rgb = RgbImage::from_raw(2, 1, vec![1, 2, 3, 4, 5, 6]).unwrap();
    let image = BgrImage::from_dynamic_image(DynamicImage::ImageRgb8(rgb)).unwrap();
    assert_eq!(image.width(), 2);
    assert_eq!(image.height(), 1);
    assert_eq!(image.data(), &vec![3, 2, 1, 6, 5, 4]);
    assert_eq!(image.inference_call(), InferenceCall { width: 2, height: 1, step: 6 });
}

#[test]
fn decoded_image_of_another_format_gets_three_bytes_a_pixel() {
    let gray = GrayImage::from_raw(1, 2, vec![9, 200]).unwrap();
    let image = BgrImage::from_dynamic_image(DynamicImage::ImageLuma8(gray)).unwrap();
    assert_eq!((image.width(), image.height()), (1, 2));
    assert_eq!(image.data(), &vec![9, 9, 9, 200, 200, 200]);

    let rgba: ImageBuffer<Rgba<u8>, Vec<u8>> =
        ImageBuffer::from_raw(1, 1, vec![10, 20, 30, 40]).unwrap();
    let image = BgrImage::from_dynamic_image(DynamicImage::ImageRgba8(rgba)).unwrap();
    assert_eq!(image.data(), &vec![30, 20, 10]);

    let deep: ImageBuffer<Rgb<u16>, Vec<u16>> =
        ImageBuffer::from_raw(1, 1, vec![0x0100, 0x8000, 0xffff]).unwrap();
    let image = BgrImage::from_dynamic_image(DynamicImage::ImageRgb16(deep)).unwrap();
    assert_eq!(image.data(), &vec![0xff, 0x80, 0x01]);

    let deep_gray: ImageBuffer<Luma<u16>, Vec<u16>> =
        ImageBuffer::from_raw(1, 1, vec![0x4000]).unwrap();
    let image = BgrImage::from_dynamic_image(DynamicImage::ImageLuma16(deep_gray)).unwrap();
    assert_eq!(image.data(), &vec![0x40, 0x40, 0x40]);
}

#[test]
fn decoded_image_without_pixels_converts() {
    let image = BgrImage::from_dynamic_image(DynamicImage::new_rgb8(0, 0)).unwrap();
    assert_eq!((image.width(), image.height()), (0, 0));
    assert!(image.data().is_empty());
}

#[test]
fn loader_failure_becomes_an_image_error() {
    let failure = image::open("no/such/directory/no-such-picture.jpg").unwrap_err();
    let error = YuNetError::from(failure);
    assert!(matches!(error, YuNetError::ImageError(image::ImageError::IoError(_))));
}
