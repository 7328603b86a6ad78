use facewinunlock::descriptor::{decode, encode, FaceDescriptor, FeatureMat, FEATURE_LEN};
use facewinunlock::error::FaceError;

fn sample_floats() -> Vec<f32> {
    let mut values = Vec::new();
    for i in 0..FEATURE_LEN {
        values.push((i as f32) * 0.125 - 3.5);
    }
    values
}

fn bits_of(values: &[f32]) -> Vec<u32> {
    values.iter().map(|v| v.to_bits()).collect()
}

fn sample(name: &str) -> FaceDescriptor {
    FaceDescriptor::new(name.to_string(), bits_of(&sample_floats())).unwrap()
}

#[test]
fn round_trip_keeps_name_and_feature() {
    let descriptor = sample("alice");
    let bytes = encode(&descriptor);
    let back = decode(&bytes).unwrap();
    assert_eq!(back.name(), "alice");
    assert_eq!(back.feature(), descriptor.feature());
    assert_eq!(back.feature().len(), 128);
}

#[test]
fn round_trip_keeps_every_bit_pattern() {
    let mut bits = vec![0u32; FEATURE_LEN];
    bits[0] = 0x7fc0_0001; // a quiet NaN with a payload
    bits[1] = 0x7f80_0001; // a signalling NaN
    bits[2] = 0x8000_0000; // negative zero
    bits[3] = 0xffff_ffff;
    bits[4] = 0x0000_0001; // the smallest subnormal
    bits[127] = 0x3f80_0000;
    let descriptor = FaceDescriptor::new("ünïcödé 名前".to_string(), bits.clone()).unwrap();
    let back = decode(&encode(&descriptor)).unwrap();
    assert_eq!(back.name(), "ünïcödé 名前");
    assert_eq!(back.feature(), &bits);
}

#[test]
fn round_trip_of_an_empty_name() {
    let descriptor = sample("");
    let back = decode(&encode(&descriptor)).unwrap();
    assert_eq!(back.name(), "");
    assert_eq!(back.feature(), descriptor.feature());
}

#[test]
fn encoding_has_the_stated_layout() {
    let mut bits = vec![0u32; FEATURE_LEN];
    bits[0] = 0x0403_0201;
    bits[127] = 0xa1b2_c3d4;
    let descriptor = FaceDescriptor::new("alice".to_string(), bits).unwrap();
    let bytes = encode(&descriptor);
    assert_eq!(bytes.len(), 8 + 5 + 8 + 4 * 128);
    assert_eq!(&bytes[0..8], &[5, 0, 0, 0, 0, 0, 0, 0]);
    assert_eq!(&bytes[8..13], b"alice");
    assert_eq!(&bytes[13..21], &[128, 0, 0, 0, 0, 0, 0, 0]);
    assert_eq!(&bytes[21..25], &[1, 2, 3, 4]);
    assert_eq!(&bytes[25..29], &[0, 0, 0, 0]);
    assert_eq!(&bytes[529..533], &[0xd4, 0xc3, 0xb2, 0xa1]);
}

#[test]
fn encoding_is_that_of_a_name_and_its_floats() {
    let floats = sample_floats();
    let descriptor = sample("alice");
    let expected = bincode::serialize(&("alice".to_string(), floats)).unwrap();
    assert_eq!(encode(&descriptor), expected);
}

#[test]
fn decoding_reads_what_was_written_as_floats() {
    let floats = sample_floats();
    let stored = bincode::serialize(&("bob".to_string(), floats.clone())).unwrap();
    let descriptor = decode(&stored).unwrap();
    assert_eq!(descriptor.name(), "bob");
    assert_eq!(descriptor.feature(), &bits_of(&floats));
}

#[test]
fn truncated_bytes_are_corrupt() {
    let bytes = encode(&sample("alice"));
    for cut in [0usize, 1, 7, 8, 12, 13, 20, 21, 22, 100, bytes.len() - 1] {
        assert_eq!(decode(&bytes[..cut]).err(), Some(FaceError::CorruptDescriptor));
    }
}

#[test]
fn a_feature_of_another_length_is_corrupt() {
    let short = bincode::serialize(&("alice".to_string(), vec![0u32; 127])).unwrap();
    assert_eq!(decode(&short).err(), Some(FaceError::CorruptDescriptor));
    let long = bincode::serialize(&("alice".to_string(), vec![0u32; 129])).unwrap();
    assert_eq!(decode(&long).err(), Some(FaceError::CorruptDescriptor));
    let none = bincode::serialize(&("alice".to_string(), Vec::<u32>::new())).unwrap();
    assert_eq!(decode(&none).err(), Some(FaceError::CorruptDescriptor));
}

#[test]
fn a_name_that_is_not_utf8_is_corrupt() {
    let mut bytes = encode(&sample("alice"));
    bytes[8] = 0xff;
    assert_eq!(decode(&bytes).err(), Some(FaceError::CorruptDescriptor));
}

#[test]
fn a_length_beyond_the_input_is_corrupt() {
    let mut bytes = encode(&sample("alice"));
    bytes[7] = 0x7f;
    assert_eq!(decode(&bytes).err(), Some(FaceError::CorruptDescriptor));
    let mut bytes = encode(&sample("alice"));
    bytes[20] = 0xff;
    assert_eq!(decode(&bytes).err(), Some(FaceError::CorruptDescriptor));
}

#[test]
fn bytes_after_the_descriptor_are_ignored() {
    let descriptor = sample("alice");
    let mut bytes = encode(&descriptor);
    bytes.extend_from_slice(&[1, 2, 3]);
    let back = decode(&bytes).unwrap();
    assert_eq!(back.name(), "alice");
    assert_eq!(back.feature(), descriptor.feature());
}

#[test]
fn new_refuses_a_feature_of_another_length() {
    assert_eq!(
        FaceDescriptor::new("alice".to_string(), vec![0u32; 127]).err(),
        Some(FaceError::CorruptDescriptor)
    );
    assert_eq!(
        FaceDescriptor::new("alice".to_string(), Vec::new()).err(),
        Some(FaceError::CorruptDescriptor)
    );
    assert!(FaceDescriptor::new("alice".to_string(), vec![0u32; 128]).is_ok());
}

#[test]
fn from_mat_takes_the_values_in_storage_order() {
    let bits = bits_of(&sample_floats());
    let mat = FeatureMat { rows: 1, cols: 128, data: bits.clone() };
    let descriptor = FaceDescriptor::from_mat("alice", &mat).unwrap();
    assert_eq!(descriptor.name(), "alice");
    assert_eq!(descriptor.feature(), &bits);
    let column = FeatureMat { rows: 128, cols: 1, data: bits.clone() };
    assert_eq!(FaceDescriptor::from_mat("alice", &column).unwrap().feature(), &bits);
}

#[test]
fn from_mat_refuses_another_number_of_values() {
    let mat = FeatureMat { rows: 1, cols: 64, data: vec![0u32; 64] };
    assert_eq!(
        FaceDescriptor::from_mat("alice", &mat).err(),
        Some(FaceError::CorruptDescriptor)
    );
}

#[test]
fn to_mat_is_one_row() {
    let descriptor = sample("alice");
    let mat = descriptor.to_mat();
    assert_eq!(mat.rows, 1);
    assert_eq!(mat.cols, 128);
    assert_eq!(&mat.data, descriptor.feature());
}
