//! The slots that hold the long-lived native resources: the face detector,
//! the face recogniser and the camera.
//!
//! A slot is either absent or holds a handle that is ready for use. The
//! embedding program keeps each slot behind a lock of its own and touches
//! the handle only while it holds that lock; see [`crate::commands`] for the
//! order in which locks are taken.

use vstd::prelude::*;

use crate::error::{FaceError, SlotKind};

verus! {

/// A native handle that is shared between tasks. The wrapped value need not
/// be safe to share by itself: all access goes through the lock of the slot
/// that owns it.
pub struct OpenCVResource<T> {
    pub inner: T,
}

/// One holder of a native resource.
pub struct Slot<T> {
    kind: SlotKind,
    resource: Option<OpenCVResource<T>>,
}

impl<T> Slot<T> {
    /// Which of the three slots this is.
    pub closed spec fn spec_kind(&self) -> SlotKind {
        self.kind
    }

    /// The handle in the slot, if there is one.
    pub closed spec fn content(&self) -> Option<T> {
        match self.resource {
            Some(resource) => Some(resource.inner),
            None => None,
        }
    }

    /// An absent slot of the given kind.
    pub fn new(kind: SlotKind) -> (r: Slot<T>)
        ensures
            r.spec_kind() == kind,
            r.content() is None,
    {
        Slot { kind, resource: None }
    }

    pub fn kind(&self) -> (r: SlotKind)
        ensures
            r == self.spec_kind(),
    {
        self.kind
    }

    pub fn is_present(&self) -> (r: bool)
        ensures
            r == self.content() is Some,
    {
        self.resource.is_some()
    }

    /// Stores a handle, replacing the one that was there.
    pub fn initialize(&mut self, handle: T)
        ensures
            final(self).spec_kind() == old(self).spec_kind(),
            final(self).content() == Some(handle),
    {
        self.resource = Some(OpenCVResource { inner: handle });
    }

    /// Empties the slot and hands back what it held, so that the caller can
    /// let go of it. Closing an absent slot changes nothing.
    pub fn close(&mut self) -> (r: Option<T>)
        ensures
            final(self).spec_kind() == old(self).spec_kind(),
            final(self).content() is None,
            r == old(self).content(),
    {
        match self.resource.take() {
            Some(resource) => Some(resource.inner),
            None => None,
        }
    }

    /// The handle for reading. An absent slot is `NotInitialized`, named by
    /// its kind.
    pub fn handle(&self) -> (r: Result<&T, FaceError>)
        ensures
            match r {
                Ok(handle) => self.content() == Some(*handle),
                Err(e) => self.content() is None && e == FaceError::NotInitialized(
                    self.spec_kind(),
                ),
            },
    {
        match &self.resource {
            Some(resource) => Ok(&resource.inner),
            None => Err(FaceError::NotInitialized(self.kind)),
        }
    }

    /// The handle for use by operations that change it. An absent slot is
    /// `NotInitialized`, named by its kind, and stays absent.
    pub fn handle_mut(&mut self) -> (r: Result<&mut T, FaceError>)
        ensures
            final(self).spec_kind() == old(self).spec_kind(),
            match r {
                Ok(handle) => old(self).content() == Some(*handle) && final(self).content()
                    == Some(*final(handle)),
                Err(e) => old(self).content() is None && final(self).content() is None && e
                    == FaceError::NotInitialized(old(self).spec_kind()),
            },
    {
        match &mut self.resource {
            Some(resource) => Ok(&mut resource.inner),
            None => Err(FaceError::NotInitialized(self.kind)),
        }
    }
}

/// Sets up both models at once. The handles are stored only where both were
/// constructed; where either construction failed, the command fails with
/// `Initialization` and both slots stay as they were, so that the models
/// are never half set up.
pub fn initialize_models<D, R>(
    detector: &mut Slot<D>,
    recognizer: &mut Slot<R>,
    detector_handle: Option<D>,
    recognizer_handle: Option<R>,
) -> (r: Result<(), FaceError>)
    ensures
        final(detector).spec_kind() == old(detector).spec_kind(),
        final(recognizer).spec_kind() == old(recognizer).spec_kind(),
        r is Ok <==> detector_handle is Some && recognizer_handle is Some,
        r is Ok ==> final(detector).content() == detector_handle && final(recognizer).content()
            == recognizer_handle,
        r is Err ==> r == Err::<(), FaceError>(FaceError::Initialization),
        r is Err ==> final(detector).content() == old(detector).content(),
        r is Err ==> final(recognizer).content() == old(recognizer).content(),
{
    match (detector_handle, recognizer_handle) {
        (Some(d), Some(r)) => {
            detector.initialize(d);
            recognizer.initialize(r);
            Ok(())
        },
        _ => Err(FaceError::Initialization),
    }
}

/// The model file, below the application's resources, from which the
/// handle of a slot is constructed. The camera is a device and has none.
pub open spec fn model_path(kind: SlotKind) -> Option<Seq<char>> {
    match kind {
        SlotKind::Detector => Some("resources/face_detection_yunet_2023mar.onnx"@),
        SlotKind::Recognizer => Some("resources/face_recognition_sface_2021dec.onnx"@),
        SlotKind::Camera => None,
    }
}

/// The model file for a slot, as [`model_path`] gives it.
pub fn model_resource(kind: SlotKind) -> (r: Option<&'static str>)
    ensures
        match r {
            Some(path) => model_path(kind) == Some(path@),
            None => model_path(kind) is None,
        },
{
    match kind {
        SlotKind::Detector => Some("resources/face_detection_yunet_2023mar.onnx"),
        SlotKind::Recognizer => Some("resources/face_recognition_sface_2021dec.onnx"),
        SlotKind::Camera => None,
    }
}

} // verus!
