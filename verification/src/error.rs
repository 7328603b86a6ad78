//! The error taxonomy shared by every component.

use vstd::prelude::*;
use vstd::string::*;

verus! {

/// One of the three independently lockable holders of a native resource.
#[derive(Clone, Copy, Debug, PartialEq, Eq, Structural)]
pub enum SlotKind {
    Detector,
    Recognizer,
    Camera,
}

impl SlotKind {
    /// The word by which messages name the slot.
    pub open spec fn label(self) -> Seq<char> {
        match self {
            SlotKind::Detector => "detector"@,
            SlotKind::Recognizer => "recognizer"@,
            SlotKind::Camera => "camera"@,
        }
    }

    /// Position of the slot in the global acquisition order: a task that
    /// holds a slot may only wait for one of a higher rank.
    pub open spec fn rank(self) -> nat {
        match self {
            SlotKind::Detector => 0,
            SlotKind::Recognizer => 1,
            SlotKind::Camera => 2,
        }
    }

    pub fn name(&self) -> (r: &'static str)
        ensures
            r@ == self.label(),
    {
        match self {
            SlotKind::Detector => "detector",
            SlotKind::Recognizer => "recognizer",
            SlotKind::Camera => "camera",
        }
    }
}

/// Everything that can go wrong in a command. None of these is fatal to the
/// process: each is reported to the caller in a result envelope.
#[derive(Clone, Copy, Debug, PartialEq, Eq, Structural)]
pub enum FaceError {
    /// A required model or the camera has not been set up.
    NotInitialized(SlotKind),
    /// Detection ran and found no face.
    NoFaceDetected,
    /// The detected face could not be aligned and cropped.
    Alignment,
    /// Inference failed while extracting or comparing embeddings.
    FeatureExtraction,
    /// Stored descriptor bytes are truncated, malformed or of the wrong length.
    CorruptDescriptor,
    /// The camera returned a frame without pixels.
    EmptyFrame,
    /// The relay channel did not become available, or could not be opened.
    ChannelUnavailable,
    /// Writing a credential to the relay channel failed.
    RelayWrite,
    /// A file or an image could not be read or decoded.
    Io,
    /// A model or the camera could not be constructed.
    Initialization,
}

impl FaceError {
    /// The human-readable message of the error.
    pub open spec fn text(self) -> Seq<char> {
        match self {
            FaceError::NotInitialized(kind) => kind.label() + " is not initialized"@,
            FaceError::NoFaceDetected => "no face detected"@,
            FaceError::Alignment => "face alignment failed"@,
            FaceError::FeatureExtraction => "feature extraction failed"@,
            FaceError::CorruptDescriptor => "face descriptor is corrupt"@,
            FaceError::EmptyFrame => "camera returned an empty frame"@,
            FaceError::ChannelUnavailable => "relay channel is unavailable"@,
            FaceError::RelayWrite => "writing to the relay channel failed"@,
            FaceError::Io => "image could not be read"@,
            FaceError::Initialization => "resource initialization failed"@,
        }
    }

    pub fn message(&self) -> (r: String)
        ensures
            r@ == self.text(),
    {
        match self {
            FaceError::NotInitialized(kind) => {
                String::from_str(kind.name()).concat(" is not initialized")
            },
            FaceError::NoFaceDetected => String::from_str("no face detected"),
            FaceError::Alignment => String::from_str("face alignment failed"),
            FaceError::FeatureExtraction => String::from_str("feature extraction failed"),
            FaceError::CorruptDescriptor => String::from_str("face descriptor is corrupt"),
            FaceError::EmptyFrame => String::from_str("camera returned an empty frame"),
            FaceError::ChannelUnavailable => String::from_str("relay channel is unavailable"),
            FaceError::RelayWrite => String::from_str("writing to the relay channel failed"),
            FaceError::Io => String::from_str("image could not be read"),
            FaceError::Initialization => String::from_str("resource initialization failed"),
        }
    }
}

} // verus!
