//! The camera's life: opened on request, read frame by frame, closed and
//! released on request.
//!
//! Opening constructs a capture on a fixed device, makes sure that the
//! device reports itself as opened, and reads one frame to wake the
//! hardware; that frame is only looked at for an error. The capture itself
//! is native; what its answers mean is decided here.

use vstd::prelude::*;

use crate::error::FaceError;
use crate::imaging::FrameSize;

verus! {

/// The device that the camera slot opens.
pub const CAMERA_DEVICE_INDEX: i32 = 0;

/// Judges a freshly constructed capture: one that does not report itself as
/// opened, because the device is missing or in use, cannot serve as the
/// camera.
pub fn check_opened(reports_opened: bool) -> (r: Result<(), FaceError>)
    ensures
        r == if reports_opened {
            Ok::<(), FaceError>(())
        } else {
            Err::<(), FaceError>(FaceError::Initialization)
        },
{
    if reports_opened {
        Ok(())
    } else {
        Err(FaceError::Initialization)
    }
}

/// Judges a frame read from an opened camera: one without pixels is
/// `EmptyFrame`.
pub fn check_frame(size: FrameSize) -> (r: Result<(), FaceError>)
    ensures
        r == if size.is_empty() {
            Err::<(), FaceError>(FaceError::EmptyFrame)
        } else {
            Ok::<(), FaceError>(())
        },
{
    if size.width == 0 || size.height == 0 {
        Err(FaceError::EmptyFrame)
    } else {
        Ok(())
    }
}

} // verus!
