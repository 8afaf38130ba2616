use justsnap::codec::{
    RasterFormat, decode, decode_png, decode_raw, encode, encode_as_png, encode_raw,
};
use justsnap::errors::CaptureError;
use justsnap::raster::RasterImage;

fn sample_raster() -> RasterImage {
    // 2x2 RGBA with distinct bytes everywhere.
    let pixels: Vec<u8> =
        vec![1, 2, 3, 4, 5, 6, 7, 8, 9, 10, 11, 12, 13, 14, 15, 16];
    RasterImage { width: 2, height: 2, pixels }
}

#[test]
fn raw_round_trip_reproduces_the_exact_buffer() {
    let img = sample_raster();
    let bytes = encode_raw(&img);
    let back = decode_raw(&bytes).unwrap();
    assert_eq!(back.width, img.width);
    assert_eq!(back.height, img.height);
    assert_eq!(back.pixels, img.pixels);
}

#[test]
fn raw_header_is_big_endian_width_then_height() {
    let bytes = encode_raw(&RasterImage { width: 3, height: 1, pixels: vec![9u8; 12] });
    assert_eq!(&bytes[0..8], &[0, 0, 0, 3, 0, 0, 0, 1]);
    assert_eq!(&bytes[8..], &[9u8; 12]);
    let wide = encode_raw(&RasterImage { width: 0x01020304, height: 0, pixels: Vec::new() });
    assert_eq!(&wide[0..8], &[1, 2, 3, 4, 0, 0, 0, 0]);
}

#[test]
fn raw_decode_rejects_short_and_mismatched_blocks() {
    assert_eq!(decode_raw(&vec![1, 2, 3]).unwrap_err(), CaptureError::EncodeFailed);
    // Header claims 1x1 but carries no pixel bytes.
    let bad = vec![0, 0, 0, 1, 0, 0, 0, 1];
    assert_eq!(decode_raw(&bad).unwrap_err(), CaptureError::EncodeFailed);
    // Header claims 1x1 with one byte too many.
    let long = vec![0, 0, 0, 1, 0, 0, 0, 1, 1, 2, 3, 4, 5];
    assert_eq!(decode_raw(&long).unwrap_err(), CaptureError::EncodeFailed);
}

#[test]
fn raw_decode_accepts_an_exact_block() {
    let block = vec![0, 0, 0, 1, 0, 0, 0, 1, 10, 20, 30, 40];
    let img = decode_raw(&block).unwrap();
    assert_eq!((img.width, img.height), (1, 1));
    assert_eq!(img.pixels, vec![10, 20, 30, 40]);
}

#[test]
fn png_round_trip_reproduces_the_pixels() {
    let img = sample_raster();
    let bytes = encode_as_png(&img.pixels, img.width, img.height).unwrap();
    // A PNG stream, not the input handed back.
    assert_eq!(&bytes[0..8], &[137, 80, 78, 71, 13, 10, 26, 10]);
    let back = decode_png(&bytes).unwrap();
    assert_eq!(back.width, img.width);
    assert_eq!(back.height, img.height);
    assert_eq!(back.pixels, img.pixels);
}

#[test]
fn encode_as_png_rejects_a_mismatched_buffer() {
    assert!(encode_as_png(&[0u8; 10], 2, 2).is_err());
    assert!(encode_as_png(&[0u8; 16], 2, 2).is_ok());
}

#[test]
fn decode_png_rejects_garbage() {
    let garbage = vec![1u8, 2, 3, 4, 5, 6, 7, 8, 9];
    assert_eq!(decode_png(&garbage).unwrap_err(), CaptureError::EncodeFailed);
}

#[test]
fn format_dispatch_round_trips_both_codecs() {
    let img = sample_raster();
    let raw = encode(&img, RasterFormat::RawBlock).unwrap();
    let back_raw = decode(&raw, RasterFormat::RawBlock).unwrap();
    assert_eq!(back_raw.pixels, img.pixels);

    let png = encode(&img, RasterFormat::CompressedLossless).unwrap();
    let back_png = decode(&png, RasterFormat::CompressedLossless).unwrap();
    assert_eq!(back_png.pixels, img.pixels);

    // The two formats produce different bytes; the caller records the
    // choice because raw blocks carry no tag.
    assert_ne!(raw, png);
}
