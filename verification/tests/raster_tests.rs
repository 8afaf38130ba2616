use justsnap::errors::CaptureError;
use justsnap::raster::{RasterImage, crop_raster};
use justsnap::region::LocalRegion;

fn uniform_raster(width: u32, height: u32) -> RasterImage {
    // Each pixel's bytes encode its coordinates so copies are checkable.
    let mut pixels = Vec::new();
    for y in 0..height {
        for x in 0..width {
            pixels.push((x % 251) as u8);
            pixels.push((y % 251) as u8);
            pixels.push(((x + y) % 251) as u8);
            pixels.push(255);
        }
    }
    RasterImage { width, height, pixels }
}

#[test]
fn crop_clamps_at_the_right_edge() {
    // A 1000x800 raster cropped at (950, 0) with a 200x100 request
    // yields the 50x100 remainder, never an error.
    let src = uniform_raster(1000, 800);
    let region = LocalRegion { x: 950, y: 0, width: 200, height: 100 };
    let out = crop_raster(&src, &region).unwrap();
    assert_eq!(out.width, 50);
    assert_eq!(out.height, 100);
    assert_eq!(out.pixels.len(), 50 * 100 * 4);
}

#[test]
fn crop_entirely_outside_fails_with_region_out_of_bounds() {
    let src = uniform_raster(1000, 800);
    let region = LocalRegion { x: 2000, y: 0, width: 100, height: 100 };
    assert_eq!(crop_raster(&src, &region).unwrap_err(), CaptureError::RegionOutOfBounds);
    let below = LocalRegion { x: 0, y: 800, width: 100, height: 100 };
    assert_eq!(crop_raster(&src, &below).unwrap_err(), CaptureError::RegionOutOfBounds);
}

#[test]
fn crop_copies_pixels_exactly() {
    let src = uniform_raster(8, 6);
    let region = LocalRegion { x: 2, y: 1, width: 3, height: 4 };
    let out = crop_raster(&src, &region).unwrap();
    assert_eq!(out.width, 3);
    assert_eq!(out.height, 4);
    for row in 0..4u32 {
        for col in 0..3u32 {
            for k in 0..4usize {
                let got = out.pixels[((row * 3 + col) * 4) as usize + k];
                let want = src.pixels[(((row + 1) * 8 + (col + 2)) * 4) as usize + k];
                assert_eq!(got, want);
            }
        }
    }
}

#[test]
fn crop_with_negative_origin_clamps_to_zero() {
    let src = uniform_raster(10, 10);
    let region = LocalRegion { x: -5, y: -7, width: 3, height: 3 };
    let out = crop_raster(&src, &region).unwrap();
    assert_eq!(out.width, 3);
    assert_eq!(out.height, 3);
    // The copy starts at the raster origin.
    assert_eq!(out.pixels[0], src.pixels[0]);
}

#[test]
fn crop_with_non_positive_size_grows_to_one_pixel() {
    let src = uniform_raster(10, 10);
    let region = LocalRegion { x: 4, y: 5, width: 0, height: -3 };
    let out = crop_raster(&src, &region).unwrap();
    assert_eq!(out.width, 1);
    assert_eq!(out.height, 1);
    assert_eq!(out.pixels[0], src.pixels[(5 * 10 + 4) * 4]);
}

#[test]
fn crop_result_is_never_larger_than_the_raster() {
    let src = uniform_raster(16, 12);
    let region = LocalRegion { x: 0, y: 0, width: 1000, height: 1000 };
    let out = crop_raster(&src, &region).unwrap();
    assert_eq!(out.width, 16);
    assert_eq!(out.height, 12);
    assert_eq!(out.pixels, src.pixels);
}

#[test]
fn from_parts_rejects_mismatched_buffers() {
    assert_eq!(
        RasterImage::from_parts(2, 2, vec![0u8; 15]).unwrap_err(),
        CaptureError::CaptureFailed
    );
    let img = RasterImage::from_parts(2, 2, vec![7u8; 16]).unwrap();
    assert_eq!(img.width, 2);
    assert_eq!(img.height, 2);
}
