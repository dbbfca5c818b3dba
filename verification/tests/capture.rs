use cuneus::export::GaussianExporter;
use cuneus::ply::PlyError;
use cuneus::video::{advance_playback, rgb_to_rgba};

#[test]
fn padded_row_is_the_next_multiple_of_the_alignment() {
    assert_eq!(GaussianExporter::padded_bytes_per_row(64), 256);
    assert_eq!(GaussianExporter::padded_bytes_per_row(100), 512);
    assert_eq!(GaussianExporter::padded_bytes_per_row(128), 512);
    assert_eq!(GaussianExporter::padded_bytes_per_row(129), 768);
    assert_eq!(GaussianExporter::padded_bytes_per_row(0), 0);
    for w in [1u32, 63, 64, 65, 1920, 3841] {
        let p = GaussianExporter::padded_bytes_per_row(w);
        assert_eq!(p % 256, 0);
        assert!(p >= 4 * w);
        assert!(p < 4 * w + 256);
    }
}

#[test]
fn strip_row_padding_keeps_pixel_bytes_in_row_order() {
    // Two rows, one pixel wide: each padded row is 256 bytes, of which
    // the leading four are pixel data.
    let mut padded = vec![0u8; 512];
    padded[0] = 1;
    padded[1] = 2;
    padded[2] = 3;
    padded[3] = 4;
    padded[4] = 99; // padding, must be dropped
    padded[256] = 5;
    padded[257] = 6;
    padded[258] = 7;
    padded[259] = 8;
    let out = GaussianExporter::strip_row_padding(&padded, 1, 2);
    assert_eq!(out, vec![1, 2, 3, 4, 5, 6, 7, 8]);
}

#[test]
fn strip_row_padding_is_identity_when_rows_are_aligned() {
    // Width 64 gives rows of exactly 256 bytes: nothing to strip.
    let padded: Vec<u8> = (0..512).map(|i| (i % 251) as u8).collect();
    let out = GaussianExporter::strip_row_padding(&padded, 64, 2);
    assert_eq!(out, padded);
}

#[test]
fn rgb_frames_gain_an_opaque_alpha_channel() {
    let rgb = vec![10u8, 20, 30, 40, 50, 60];
    let rgba = rgb_to_rgba(&rgb);
    assert_eq!(rgba, vec![10, 20, 30, 255, 40, 50, 60, 255]);
    assert!(rgb_to_rgba(&Vec::new()).is_empty());
}

#[test]
fn playback_advances_and_wraps_or_stops() {
    // Plain advance.
    assert_eq!(advance_playback(10, 3, 100, false), (13, true));
    // Looping wraps past the end.
    assert_eq!(advance_playback(98, 5, 100, true), (3, true));
    // Without looping, playback parks on the last frame and stops.
    assert_eq!(advance_playback(98, 5, 100, false), (99, false));
    // Landing exactly on the count counts as past the end.
    assert_eq!(advance_playback(99, 1, 100, true), (0, true));
}

#[test]
fn ply_error_messages_name_the_failure() {
    assert_eq!(PlyError::Io("gone".to_string()).message(), "IO error: gone");
    assert_eq!(
        PlyError::Parse("bad header".to_string()).message(),
        "Parse error: bad header"
    );
    assert_eq!(
        PlyError::MissingProperty("scale_0".to_string()).message(),
        "Missing property: scale_0"
    );
}
