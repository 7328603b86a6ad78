use facewinunlock::detection::{
    capture_response, overlay, Color, DetectionResult, FaceRow, Point, Rect, Shape,
};
use facewinunlock::error::FaceError;

fn face(offset: i32) -> FaceRow {
    FaceRow {
        bounds: Rect { x: 10 + offset, y: 20, width: 100, height: 120 },
        right_eye: Some(Point { x: 30 + offset, y: 50 }),
        left_eye: Some(Point { x: 80 + offset, y: 51 }),
        nose: Some(Point { x: 55 + offset, y: 80 }),
        mouth_right: Some(Point { x: 35 + offset, y: 110 }),
        mouth_left: Some(Point { x: 75 + offset, y: 111 }),
    }
}

#[test]
fn no_candidate_is_no_face() {
    let detection = DetectionResult { rows: Vec::new() };
    assert_eq!(detection.first_face(), Err(FaceError::NoFaceDetected));
}

#[test]
fn the_top_candidate_is_the_face() {
    let detection = DetectionResult { rows: vec![face(0)] };
    assert_eq!(detection.first_face(), Ok(face(0)));
}

#[test]
fn further_candidates_are_not_looked_at() {
    let detection = DetectionResult { rows: vec![face(7), face(0), face(300)] };
    assert_eq!(detection.first_face(), Ok(face(7)));
}

#[test]
fn the_overlay_is_the_box_and_the_five_points() {
    let yellow = Color { blue: 255, green: 242, red: 0 };
    let green = Color { blue: 0, green: 255, red: 0 };
    assert_eq!(
        overlay(&face(0)),
        vec![
            Shape::Outline {
                rect: Rect { x: 10, y: 20, width: 100, height: 120 },
                color: yellow,
                thickness: 2
            },
            Shape::Dot { center: Point { x: 30, y: 50 }, radius: 4, color: green },
            Shape::Dot { center: Point { x: 80, y: 51 }, radius: 4, color: green },
            Shape::Dot { center: Point { x: 55, y: 80 }, radius: 4, color: green },
            Shape::Dot { center: Point { x: 35, y: 110 }, radius: 4, color: green },
            Shape::Dot { center: Point { x: 75, y: 111 }, radius: 4, color: green },
        ]
    );
}

#[test]
fn only_the_box_must_be_drawn() {
    let shapes = overlay(&face(0));
    assert!(shapes[0].is_required());
    for shape in &shapes[1..] {
        assert!(!shape.is_required());
    }
}

#[test]
fn a_capture_holds_both_images_as_data_urls() {
    let response = capture_response(&b"ABC".to_vec(), &b"AB".to_vec());
    assert_eq!(response.display_base64, "data:image/jpeg;base64,QUJD");
    assert_eq!(response.raw_base64, "data:image/jpeg;base64,QUI=");
    assert!(!response.display_base64.is_empty() && !response.raw_base64.is_empty());
}

#[test]
fn a_point_that_is_missing_is_left_out_of_the_overlay() {
    let yellow = Color { blue: 255, green: 242, red: 0 };
    let green = Color { blue: 0, green: 255, red: 0 };
    let bounds = Rect { x: 10, y: 20, width: 100, height: 120 };
    let outline = Shape::Outline { rect: bounds, color: yellow, thickness: 2 };
    let mut partial = face(0);
    partial.left_eye = None;
    partial.mouth_left = None;
    assert_eq!(
        overlay(&partial),
        vec![
            outline,
            Shape::Dot { center: Point { x: 30, y: 50 }, radius: 4, color: green },
            Shape::Dot { center: Point { x: 55, y: 80 }, radius: 4, color: green },
            Shape::Dot { center: Point { x: 35, y: 110 }, radius: 4, color: green },
        ]
    );
    let bare = FaceRow {
        bounds: Rect { x: 10, y: 20, width: 100, height: 120 },
        right_eye: None,
        left_eye: None,
        nose: None,
        mouth_right: None,
        mouth_left: None,
    };
    assert_eq!(overlay(&bare), vec![outline]);
}
