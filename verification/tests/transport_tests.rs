use base64::Engine;
use justsnap::raster::RasterImage;
use justsnap::transport::{capture_payload_base64, rgba_to_rgb};

#[test]
fn alpha_channel_is_dropped_exactly() {
    let img = RasterImage { width: 2, height: 1, pixels: vec![1, 2, 3, 200, 4, 5, 6, 201] };
    let rgb = rgba_to_rgb(&img);
    assert_eq!(rgb, vec![1, 2, 3, 4, 5, 6]);
}

#[test]
fn payload_is_base64_wrapped_jpeg() {
    let img = RasterImage { width: 1, height: 1, pixels: vec![255, 0, 0, 255] };
    let payload = capture_payload_base64(&img, 80).unwrap();
    // Base64 of a JPEG stream starts with the encoded SOI marker; raw
    // pixels handed back unchanged would not.
    assert!(payload.starts_with("/9j/"), "payload was {}", payload);
    let decoded = base64::engine::general_purpose::STANDARD.decode(&payload).unwrap();
    assert_eq!(&decoded[0..2], &[0xff, 0xd8]);
}

#[test]
fn payload_length_is_a_multiple_of_four() {
    let img = RasterImage { width: 3, height: 2, pixels: vec![128; 24] };
    let payload = capture_payload_base64(&img, 50).unwrap();
    assert!(!payload.is_empty());
    assert_eq!(payload.len() % 4, 0);
}
