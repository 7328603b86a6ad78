use facewinunlock::error::FaceError;
use facewinunlock::imaging::{downscale_target, scaled_size, FrameSize, MAX_DIMENSION};

fn size(width: u32, height: u32) -> FrameSize {
    FrameSize { width, height }
}

#[test]
fn the_bound_is_1270() {
    assert_eq!(MAX_DIMENSION, 1270);
}

#[test]
fn an_image_that_fits_is_unchanged() {
    assert_eq!(scaled_size(size(640, 480), 1270), size(640, 480));
    assert_eq!(scaled_size(size(1270, 1270), 1270), size(1270, 1270));
    assert_eq!(scaled_size(size(1270, 3), 1270), size(1270, 3));
    assert_eq!(scaled_size(size(1, 1), 1270), size(1, 1));
}

#[test]
fn an_empty_image_is_unchanged() {
    assert_eq!(scaled_size(size(0, 0), 1270), size(0, 0));
    assert_eq!(scaled_size(size(0, 0), 0), size(0, 0));
    assert_eq!(scaled_size(size(0, 100), 1270), size(0, 100));
}

#[test]
fn a_larger_image_is_reduced_to_the_bound() {
    assert_eq!(scaled_size(size(2540, 1000), 1270), size(1270, 500));
    assert_eq!(scaled_size(size(1920, 1080), 1270), size(1270, 714));
    assert_eq!(scaled_size(size(1080, 1920), 1270), size(714, 1270));
    assert_eq!(scaled_size(size(1271, 1271), 1270), size(1270, 1270));
    assert_eq!(scaled_size(size(4000, 3000), 1270), size(1270, 952));
}

#[test]
fn a_very_flat_image_loses_its_short_side() {
    assert_eq!(scaled_size(size(5000, 1), 1270), size(1270, 0));
    assert_eq!(scaled_size(size(1, 5000), 1270), size(0, 1270));
}

#[test]
fn the_largest_sizes_do_not_overflow() {
    assert_eq!(scaled_size(size(u32::MAX, u32::MAX), 1270), size(1270, 1270));
    assert_eq!(
        scaled_size(size(u32::MAX, u32::MAX), u32::MAX - 1),
        size(u32::MAX - 1, u32::MAX - 1)
    );
    assert_eq!(scaled_size(size(u32::MAX, 1), 0), size(0, 0));
}

#[test]
fn the_aspect_ratio_is_kept_within_rounding() {
    for (w, h) in [(1920u32, 1080u32), (4000, 3000), (1271, 1), (3001, 2999), (9999, 1234)] {
        let r = scaled_size(size(w, h), 1270);
        let longest = w.max(h) as i64;
        assert_eq!(r.width.max(r.height), 1270);
        let cross = r.width as i64 * h as i64 - r.height as i64 * w as i64;
        assert!(cross.abs() < longest);
    }
}

#[test]
fn the_target_of_a_downscale_is_the_scaled_size() {
    assert_eq!(downscale_target(size(640, 480), 1270), Ok(size(640, 480)));
    assert_eq!(downscale_target(size(1920, 1080), 1270), Ok(size(1270, 714)));
    assert_eq!(downscale_target(size(1270, 1), 1270), Ok(size(1270, 1)));
    assert_eq!(downscale_target(size(2540, 2), 1270), Ok(size(1270, 1)));
    assert_eq!(downscale_target(size(1, 1), 1270), Ok(size(1, 1)));
}

#[test]
fn an_image_that_would_lose_a_side_is_refused() {
    assert_eq!(downscale_target(size(5000, 1), 1270), Err(FaceError::Io));
    assert_eq!(downscale_target(size(1, 5000), 1270), Err(FaceError::Io));
    assert_eq!(downscale_target(size(2540, 1), 1270), Err(FaceError::Io));
    assert_eq!(downscale_target(size(100, 100), 0), Err(FaceError::Io));
}

#[test]
fn an_image_without_pixels_is_refused() {
    assert_eq!(downscale_target(size(0, 0), 1270), Err(FaceError::Io));
    assert_eq!(downscale_target(size(0, 480), 1270), Err(FaceError::Io));
    assert_eq!(downscale_target(size(640, 0), 1270), Err(FaceError::Io));
}
