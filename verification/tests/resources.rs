use facewinunlock::camera::{check_frame, check_opened, CAMERA_DEVICE_INDEX};
use facewinunlock::error::{FaceError, SlotKind};
use facewinunlock::imaging::FrameSize;
use facewinunlock::resources::{initialize_models, model_resource, OpenCVResource, Slot};

#[test]
fn a_new_slot_is_absent() {
    for kind in [SlotKind::Detector, SlotKind::Recognizer, SlotKind::Camera] {
        let slot: Slot<String> = Slot::new(kind);
        assert_eq!(slot.kind(), kind);
        assert!(!slot.is_present());
        assert_eq!(slot.handle().err(), Some(FaceError::NotInitialized(kind)));
    }
}

#[test]
fn an_absent_slot_names_itself_in_the_error() {
    let mut camera: Slot<u32> = Slot::new(SlotKind::Camera);
    assert_eq!(camera.handle_mut().err(), Some(FaceError::NotInitialized(SlotKind::Camera)));
    assert!(!camera.is_present());
    let mut detector: Slot<u32> = Slot::new(SlotKind::Detector);
    assert_eq!(detector.handle_mut().err(), Some(FaceError::NotInitialized(SlotKind::Detector)));
    let recognizer: Slot<u32> = Slot::new(SlotKind::Recognizer);
    assert_eq!(recognizer.handle().err(), Some(FaceError::NotInitialized(SlotKind::Recognizer)));
}

#[test]
fn initialize_stores_and_replaces() {
    let mut slot: Slot<String> = Slot::new(SlotKind::Detector);
    slot.initialize("first".to_string());
    assert!(slot.is_present());
    assert_eq!(slot.handle().unwrap(), "first");
    slot.initialize("second".to_string());
    assert_eq!(slot.handle().unwrap(), "second");
    assert_eq!(slot.kind(), SlotKind::Detector);
}

#[test]
fn handle_mut_reaches_the_stored_handle() {
    let mut slot: Slot<Vec<u8>> = Slot::new(SlotKind::Recognizer);
    slot.initialize(vec![1]);
    slot.handle_mut().unwrap().push(2);
    assert_eq!(slot.handle().unwrap(), &vec![1, 2]);
}

#[test]
fn close_empties_the_slot_and_may_be_repeated() {
    let mut slot: Slot<String> = Slot::new(SlotKind::Camera);
    assert_eq!(slot.close(), None);
    slot.initialize("capture".to_string());
    assert_eq!(slot.close(), Some("capture".to_string()));
    assert!(!slot.is_present());
    assert_eq!(slot.handle().err(), Some(FaceError::NotInitialized(SlotKind::Camera)));
    assert_eq!(slot.close(), None);
    assert_eq!(slot.kind(), SlotKind::Camera);
}

#[test]
fn a_resource_wraps_its_handle() {
    let resource = OpenCVResource { inner: 7u8 };
    assert_eq!(resource.inner, 7);
}

#[test]
fn the_models_come_from_the_resources_directory() {
    assert_eq!(
        model_resource(SlotKind::Detector),
        Some("resources/face_detection_yunet_2023mar.onnx")
    );
    assert_eq!(
        model_resource(SlotKind::Recognizer),
        Some("resources/face_recognition_sface_2021dec.onnx")
    );
    assert_eq!(model_resource(SlotKind::Camera), None);
}

#[test]
fn the_camera_is_the_first_device() {
    assert_eq!(CAMERA_DEVICE_INDEX, 0);
}

#[test]
fn a_capture_that_is_not_opened_is_refused() {
    assert_eq!(check_opened(true), Ok(()));
    assert_eq!(check_opened(false), Err(FaceError::Initialization));
}

#[test]
fn a_frame_without_pixels_is_empty() {
    assert_eq!(check_frame(FrameSize { width: 640, height: 480 }), Ok(()));
    assert_eq!(check_frame(FrameSize { width: 1, height: 1 }), Ok(()));
    assert_eq!(check_frame(FrameSize { width: 0, height: 0 }), Err(FaceError::EmptyFrame));
    assert_eq!(check_frame(FrameSize { width: 0, height: 480 }), Err(FaceError::EmptyFrame));
    assert_eq!(check_frame(FrameSize { width: 640, height: 0 }), Err(FaceError::EmptyFrame));
}

#[test]
fn both_models_are_set_up_together() {
    let mut detector: Slot<String> = Slot::new(SlotKind::Detector);
    let mut recognizer: Slot<u32> = Slot::new(SlotKind::Recognizer);
    let done =
        initialize_models(&mut detector, &mut recognizer, Some("yunet".to_string()), Some(7));
    assert_eq!(done, Ok(()));
    assert_eq!(detector.handle().unwrap(), "yunet");
    assert_eq!(recognizer.handle().unwrap(), &7);
    let again =
        initialize_models(&mut detector, &mut recognizer, Some("other".to_string()), Some(8));
    assert_eq!(again, Ok(()));
    assert_eq!(detector.handle().unwrap(), "other");
    assert_eq!(recognizer.handle().unwrap(), &8);
}

#[test]
fn a_model_that_cannot_be_constructed_leaves_both_slots_alone() {
    let mut detector: Slot<String> = Slot::new(SlotKind::Detector);
    let mut recognizer: Slot<u32> = Slot::new(SlotKind::Recognizer);
    assert_eq!(
        initialize_models(&mut detector, &mut recognizer, Some("yunet".to_string()), None),
        Err(FaceError::Initialization)
    );
    assert!(!detector.is_present() && !recognizer.is_present());
    assert_eq!(
        initialize_models(&mut detector, &mut recognizer, None, Some(7)),
        Err(FaceError::Initialization)
    );
    assert!(!detector.is_present() && !recognizer.is_present());
    assert_eq!(
        initialize_models(&mut detector, &mut recognizer, None, None),
        Err(FaceError::Initialization)
    );
    detector.initialize("kept".to_string());
    recognizer.initialize(1);
    assert_eq!(
        initialize_models(&mut detector, &mut recognizer, None, Some(2)),
        Err(FaceError::Initialization)
    );
    assert_eq!(detector.handle().unwrap(), "kept");
    assert_eq!(recognizer.handle().unwrap(), &1);
}
