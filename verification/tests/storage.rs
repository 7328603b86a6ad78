use facewinunlock::descriptor::{decode, encode, FaceDescriptor, FeatureMat};
use facewinunlock::envelope::{CustomResult, Payload};
use facewinunlock::error::FaceError;
use facewinunlock::storage::{
    face_file_name, has_face_file_name, new_face_file_name, store_face, FACES_DIRECTORY,
};

#[test]
fn faces_live_in_their_own_directory() {
    assert_eq!(FACES_DIRECTORY, "faces");
}

#[test]
fn a_file_name_is_the_identifier_and_the_extension() {
    assert_eq!(
        face_file_name("936da01f-9abd-4d9d-80c7-02af85c822a8"),
        "936da01f-9abd-4d9d-80c7-02af85c822a8.face"
    );
    assert_eq!(face_file_name(""), ".face");
}

#[test]
fn a_new_file_name_has_the_form() {
    for _ in 0..50 {
        let name = new_face_file_name();
        assert!(has_face_file_name(&name));
        assert_eq!(name.len(), 41);
        assert!(name.ends_with(".face"));
        assert_eq!(uuid::Uuid::parse_str(&name[..36]).unwrap().get_version_num(), 4);
        assert_eq!(&name[14..15], "4");
        assert!(["8", "9", "a", "b"].contains(&&name[19..20]));
    }
}

#[test]
fn new_file_names_differ() {
    assert_ne!(new_face_file_name(), new_face_file_name());
}

#[test]
fn the_form_of_a_file_name_is_checked() {
    assert!(has_face_file_name("936da01f-9abd-4d9d-80c7-02af85c822a8.face"));
    assert!(has_face_file_name("00000000-0000-0000-0000-000000000000.face"));
    assert!(has_face_file_name("ffffffff-ffff-ffff-ffff-ffffffffffff.face"));
    assert!(!has_face_file_name("936DA01F-9ABD-4D9D-80C7-02AF85C822A8.face"));
    assert!(!has_face_file_name("936da01f-9abd-4d9d-80c7-02af85c822a8.FACE"));
    assert!(!has_face_file_name("936da01f-9abd-4d9d-80c7-02af85c822a8.fac"));
    assert!(!has_face_file_name("936da01f-9abd-4d9d-80c7-02af85c822a8.faces"));
    assert!(!has_face_file_name("936da01f-9abd-4d9d-80c7-02af85c822a8"));
    assert!(!has_face_file_name("936da01f09abd-4d9d-80c7-02af85c822a8.face"));
    assert!(!has_face_file_name("936da01f-9abd-4d9d-80c7-02af85c822ag.face"));
    assert!(!has_face_file_name("936da01f-9abd-4d9d-80c7-02af85c822a-.face"));
    assert!(!has_face_file_name("936da01f-9abd-4d9d-80c7-02af85c822a8/face"));
    assert!(!has_face_file_name("936da01f-9abd-4d9d-80c7-02af85c822\u{e9}8.face"));
    assert!(!has_face_file_name(".face"));
    assert!(!has_face_file_name(""));
}

#[test]
fn enrolling_alice_and_loading_her_back() {
    let extracted = FeatureMat {
        rows: 1,
        cols: 128,
        data: (0..128u32).map(|i| (i as f32 / 128.0).to_bits()).collect(),
    };
    let descriptor = FaceDescriptor::from_mat("alice", &extracted).unwrap();
    let file_name = new_face_file_name();
    let stored = encode(&descriptor);
    let envelope = CustomResult::success(
        None,
        Some(Payload::Enrollment { file_name: file_name.clone() }),
    );
    assert!(envelope.success);
    match envelope.data {
        Some(Payload::Enrollment { file_name }) => assert!(has_face_file_name(&file_name)),
        _ => panic!("no file name in the payload"),
    }
    let loaded = decode(&stored).unwrap();
    assert_eq!(loaded.name(), "alice");
    assert_eq!(loaded.feature().len(), 128);
    assert_eq!(loaded.feature(), &extracted.data);
}

#[test]
fn storing_a_face_gives_a_file_name_and_the_stored_form() {
    let extracted = FeatureMat { rows: 1, cols: 128, data: (1000..1128u32).collect() };
    let stored = store_face("alice", &extracted).unwrap();
    assert!(has_face_file_name(&stored.file_name));
    let descriptor = FaceDescriptor::from_mat("alice", &extracted).unwrap();
    assert_eq!(stored.contents, encode(&descriptor));
    let loaded = decode(&stored.contents).unwrap();
    assert_eq!(loaded.name(), "alice");
    assert_eq!(loaded.feature(), &extracted.data);
}

#[test]
fn a_face_with_a_short_embedding_is_not_stored() {
    let extracted = FeatureMat { rows: 1, cols: 64, data: vec![0u32; 64] };
    assert_eq!(store_face("alice", &extracted), Err(FaceError::CorruptDescriptor));
}
