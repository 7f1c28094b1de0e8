use rusty_yunet::{
    detect_faces, BgrImage, BridgeFace, ConversionError, Face, FaceLandmarks, InferenceCall, Rect,
    StrictFace, YuNetError,
};

#[test]
fn error_messages() {
    assert_eq!(YuNetError::InvalidFile.message(), "Invalid input file");
    assert_eq!(YuNetError::FaceDetectionFailed.message(), "Face detection failed");
    let failure = image::open("no/such/directory/no-such-picture.png").unwrap_err();
    assert_eq!(YuNetError::from(failure).message(), "Image error");
}

#[test]
fn image_error_keeps_its_cause() {
    let failure = image::open("no/such/directory/picture.with-unknown-extension").unwrap_err();
    let report = format!("{failure:?}");
    match YuNetError::from(failure) {
        YuNetError::ImageError(cause) => assert_eq!(format!("{cause:?}"), report),
        other => panic!("unexpected error {other:?}"),
    }
}

#[test]
fn conversion_error_compares_equal_to_itself() {
    let error = ConversionError::MalformedDetection;
    let copy = error;
    assert_eq!(error, copy);
    assert_eq!(format!("{error:?}"), "MalformedDetection");
}

#[test]
fn the_crate_root_offers_the_whole_run() {
    let image = BgrImage::new(4, 2, vec![0; 24]).unwrap();
    assert_eq!(image.inference_call(), InferenceCall { width: 4, height: 2, step: 12 });
    let record = BridgeFace {
        score: 1.0_f32.to_bits(),
        x: 1,
        y: 0,
        w: 2,
        h: 2,
        lm: [1, 0, 2, 0, 2, 1, 1, 1, 2, 1],
    };
    let faces: Vec<Face> = detect_faces(&image, Some(vec![record])).unwrap();
    assert_eq!(faces.len(), 1);
    let rectangle: Rect<i32> = faces[0].rectangle();
    assert_eq!((rectangle.left, rectangle.top, rectangle.width, rectangle.height), (1, 0, 2, 2));
    let landmarks: &FaceLandmarks<i32> = faces[0].landmarks();
    assert_eq!(landmarks.nose, (2, 1));
    assert_eq!(f32::from_bits(faces[0].confidence()), 1.0);
    let size = faces[0].size();
    assert_eq!((size.numerator, size.denominator), (2, 4));
    assert_eq!(size.scaled_to(4), Some(2));
    let strict = StrictFace::from_yunet_bridge_face(&record, image.detection_dimensions()).unwrap();
    assert_eq!(strict.rectangle().width, 2);
}
