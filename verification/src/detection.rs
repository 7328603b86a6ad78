//! Detection results and what is drawn over a detected face.
//!
//! The detector itself is a native model run by the embedding program. It
//! hands over its candidates as rows of whole-pixel coordinates; which row
//! is used, when detection counts as failed and what the preview shows are
//! decided here. The box of a candidate is always there; a facial point
//! that could not be read from the detector's output is left out.

use vstd::prelude::*;

use crate::error::FaceError;
use crate::transport::{base64_encoding, data_url_prefix, image_data_url};

verus! {

/// A pixel position.
#[derive(Clone, Copy, Debug, PartialEq, Eq, Structural)]
pub struct Point {
    pub x: i32,
    pub y: i32,
}

/// An axis-aligned box, by its top-left corner and its extent.
#[derive(Clone, Copy, Debug, PartialEq, Eq, Structural)]
pub struct Rect {
    pub x: i32,
    pub y: i32,
    pub width: i32,
    pub height: i32,
}

/// One detected face: its bounding box and up to five facial points.
#[derive(Clone, Copy, Debug, PartialEq, Eq)]
pub struct FaceRow {
    pub bounds: Rect,
    pub right_eye: Option<Point>,
    pub left_eye: Option<Point>,
    pub nose: Option<Point>,
    pub mouth_right: Option<Point>,
    pub mouth_left: Option<Point>,
}

/// The candidates of one detector run, best first.
#[derive(Clone, Debug, PartialEq, Eq)]
pub struct DetectionResult {
    pub rows: Vec<FaceRow>,
}

/// A colour by its channels, in the order in which frames store them.
#[derive(Clone, Copy, Debug, PartialEq, Eq, Structural)]
pub struct Color {
    pub blue: u8,
    pub green: u8,
    pub red: u8,
}

/// One mark on the preview image.
#[derive(Clone, Copy, Debug, PartialEq, Eq, Structural)]
pub enum Shape {
    /// The outline of a box, `thickness` pixels wide.
    Outline { rect: Rect, color: Color, thickness: i32 },
    /// A filled disc.
    Dot { center: Point, radius: i32, color: Color },
}

/// Colour of the box around a face.
pub open spec fn outline_color() -> Color {
    Color { blue: 255, green: 242, red: 0 }
}

/// Colour of the facial points.
pub open spec fn dot_color() -> Color {
    Color { blue: 0, green: 255, red: 0 }
}

/// The mark for one facial point, or none where the point is missing.
pub open spec fn dot(center: Option<Point>) -> Seq<Shape> {
    match center {
        Some(center) => seq![Shape::Dot { center, radius: 4, color: dot_color() }],
        None => Seq::empty(),
    }
}

/// The marks for one face: its box first, then the facial points that are
/// there, in the order in which the detector reports them.
pub open spec fn overlay_shapes(face: FaceRow) -> Seq<Shape> {
    seq![Shape::Outline { rect: face.bounds, color: outline_color(), thickness: 2 }] + dot(
        face.right_eye,
    ) + dot(face.left_eye) + dot(face.nose) + dot(face.mouth_right) + dot(face.mouth_left)
}

impl DetectionResult {
    /// The face that the rest of the pipeline works on: the detector's top
    /// candidate. A result without candidates is `NoFaceDetected`; further
    /// candidates are not looked at.
    pub fn first_face(&self) -> (r: Result<FaceRow, FaceError>)
        ensures
            self.rows@.len() == 0 <==> r is Err,
            r is Err ==> r == Err::<FaceRow, FaceError>(FaceError::NoFaceDetected),
            r is Ok ==> r == Ok::<FaceRow, FaceError>(self.rows@[0]),
    {
        if self.rows.len() > 0 {
            Ok(self.rows[0])
        } else {
            Err(FaceError::NoFaceDetected)
        }
    }
}

impl Shape {
    /// Whether a failure to draw this mark fails the command. The box must
    /// be drawn; a facial point that cannot be drawn is left out.
    pub fn is_required(&self) -> (r: bool)
        ensures
            r == (*self is Outline),
    {
        match self {
            Shape::Outline { .. } => true,
            Shape::Dot { .. } => false,
        }
    }
}

/// Adds the mark for a facial point, if the point is there.
fn push_dot(shapes: &mut Vec<Shape>, center: Option<Point>)
    ensures
        final(shapes)@ == old(shapes)@ + dot(center),
{
    match center {
        Some(center) => {
            shapes.push(
                Shape::Dot { center, radius: 4, color: Color { blue: 0, green: 255, red: 0 } },
            );
            assert(shapes@ =~= old(shapes)@ + dot(Some(center)));
        },
        None => {
            assert(shapes@ =~= old(shapes)@ + dot(None));
        },
    }
}

/// What to draw on the preview for a detected face.
pub fn overlay(face: &FaceRow) -> (r: Vec<Shape>)
    ensures
        r@ == overlay_shapes(*face),
{
    let mut shapes: Vec<Shape> = Vec::new();
    shapes.push(
        Shape::Outline {
            rect: face.bounds,
            color: Color { blue: 255, green: 242, red: 0 },
            thickness: 2,
        },
    );
    assert(shapes@ =~= seq![
        Shape::Outline { rect: face.bounds, color: outline_color(), thickness: 2 },
    ]);
    push_dot(&mut shapes, face.right_eye);
    push_dot(&mut shapes, face.left_eye);
    push_dot(&mut shapes, face.nose);
    push_dot(&mut shapes, face.mouth_right);
    push_dot(&mut shapes, face.mouth_left);
    shapes
}

/// The two images that a detection command returns, in transport form.
#[derive(Clone, Debug, PartialEq, Eq)]
pub struct CaptureResponse {
    /// The downscaled image with the face marked.
    pub display_base64: String,
    /// The downscaled image as it is.
    pub raw_base64: String,
}

/// Packs the marked and the unmarked JPEG image of a successful detection.
pub fn capture_response(display_jpeg: &Vec<u8>, raw_jpeg: &Vec<u8>) -> (r: CaptureResponse)
    requires
        display_jpeg@.len() <= usize::MAX / 4,
        raw_jpeg@.len() <= usize::MAX / 4,
    ensures
        r.display_base64@ == data_url_prefix() + base64_encoding(display_jpeg@),
        r.raw_base64@ == data_url_prefix() + base64_encoding(raw_jpeg@),
{
    CaptureResponse {
        display_base64: image_data_url(display_jpeg),
        raw_base64: image_data_url(raw_jpeg),
    }
}

} // verus!
