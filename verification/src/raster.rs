//! Raw RGBA rasters and the shared cropping helper.
//!
//! A raster is a row-major RGBA pixel buffer with no padding: exactly
//! four bytes per pixel.  Cropping clamps the requested rectangle to the
//! raster, copies pixels exactly, and never resamples; a rectangle with
//! no positive-area intersection is rejected.

use vstd::prelude::*;
use crate::errors::CaptureError;
use crate::region::LocalRegion;

verus! {

/// A raw RGBA image: `width * height` pixels, four bytes each,
/// row-major, no padding.
#[derive(PartialEq, Eq, Debug)]
pub struct RasterImage {
    pub width: u32,
    pub height: u32,
    pub pixels: Vec<u8>,
}

impl RasterImage {
    /// The buffer holds exactly four bytes for every pixel.
    pub open spec fn wf(self) -> bool {
        self.pixels@.len() == 4 * self.width * self.height
    }

    /// The byte at channel `k` of the pixel in row `r`, column `c`.
    pub open spec fn spec_byte_at(self, r: int, c: int, k: int) -> u8 {
        self.pixels@[(r * self.width + c) * 4 + k]
    }

    /// Builds a raster from parts, rejecting a buffer whose length is
    /// not exactly four bytes per pixel.
    pub fn from_parts(width: u32, height: u32, pixels: Vec<u8>) -> (r: Result<
        RasterImage,
        CaptureError,
    >)
        ensures
            match r {
                Ok(img) => {
                    &&& img.wf()
                    &&& img.width == width
                    &&& img.height == height
                    &&& img.pixels@ == pixels@
                },
                Err(e) => {
                    &&& e is CaptureFailed
                    &&& pixels@.len() != 4 * width * height
                },
            },
    {
        proof {
            assert((width as int) * (height as int) <= 0xffff_ffff * 0xffff_ffff)
                by (nonlinear_arith)
                requires
                    width <= 0xffff_ffffu32,
                    height <= 0xffff_ffffu32,
            ;
            assert(4 * ((width as int) * (height as int)) == 4 * width * height)
                by (nonlinear_arith);
        }
        let wh: u64 = (width as u64) * (height as u64);
        if pixels.len() as u128 == 4u128 * (wh as u128) {
            Ok(RasterImage { width, height, pixels })
        } else {
            Err(CaptureError::CaptureFailed)
        }
    }
}

impl Clone for RasterImage {
    /// Field-for-field copy of the raster.
    fn clone(&self) -> (r: Self)
        ensures
            r.width == self.width,
            r.height == self.height,
            r.pixels@ == self.pixels@,
    {
        RasterImage { width: self.width, height: self.height, pixels: self.pixels.clone() }
    }
}

/// Left edge of the crop: the requested x, clamped up to zero.
pub open spec fn spec_crop_x0(region: LocalRegion) -> int {
    if region.x < 0 {
        0
    } else {
        region.x as int
    }
}

/// Top edge of the crop: the requested y, clamped up to zero.
pub open spec fn spec_crop_y0(region: LocalRegion) -> int {
    if region.y < 0 {
        0
    } else {
        region.y as int
    }
}

/// Requested width, clamped up to one.
pub open spec fn spec_crop_dw(region: LocalRegion) -> int {
    if region.width < 1 {
        1
    } else {
        region.width as int
    }
}

/// Requested height, clamped up to one.
pub open spec fn spec_crop_dh(region: LocalRegion) -> int {
    if region.height < 1 {
        1
    } else {
        region.height as int
    }
}

/// The clamped rectangle has positive area inside the raster.
pub open spec fn spec_crop_in_bounds(src: RasterImage, region: LocalRegion) -> bool {
    spec_crop_x0(region) < src.width && spec_crop_y0(region) < src.height
}

/// Width of the crop result: what remains of the raster past the left
/// edge, capped by the requested width.
pub open spec fn spec_crop_w(src: RasterImage, region: LocalRegion) -> int {
    let avail = src.width - spec_crop_x0(region);
    if avail < spec_crop_dw(region) {
        avail
    } else {
        spec_crop_dw(region)
    }
}

/// Height of the crop result.
pub open spec fn spec_crop_h(src: RasterImage, region: LocalRegion) -> int {
    let avail = src.height - spec_crop_y0(region);
    if avail < spec_crop_dh(region) {
        avail
    } else {
        spec_crop_dh(region)
    }
}

/// The crop result as one canonical byte sequence: row-major RGBA
/// pixels read from the source at the clamped offset.
pub open spec fn spec_cropped_pixels(src: RasterImage, region: LocalRegion) -> Seq<u8> {
    let w = spec_crop_w(src, region);
    let h = spec_crop_h(src, region);
    Seq::new(
        (4 * w * h) as nat,
        |n: int|
            {
                let p = n / 4;
                let k = n % 4;
                let rr = p / w;
                let cc = p % w;
                src.spec_byte_at(spec_crop_y0(region) + rr, spec_crop_x0(region) + cc, k)
            },
    )
}

/// Crops a raster to a monitor-local rectangle.
///
/// The rectangle is clamped to the raster: negative origins move to
/// zero, sizes below one pixel grow to one, and the result never
/// extends past the raster.  Fails with `RegionOutOfBounds` exactly
/// when the clamped origin falls outside the raster; otherwise the
/// result is at least 1x1 and an exact pixel copy.
pub fn crop_raster(src: &RasterImage, region: &LocalRegion) -> (res: Result<
    RasterImage,
    CaptureError,
>)
    requires
        src.wf(),
    ensures
        match res {
            Ok(out) => {
                &&& spec_crop_in_bounds(*src, *region)
                &&& out.wf()
                &&& out.width == spec_crop_w(*src, *region)
                &&& out.height == spec_crop_h(*src, *region)
                &&& 1 <= out.width <= src.width - spec_crop_x0(*region)
                &&& 1 <= out.height <= src.height - spec_crop_y0(*region)
                &&& out.pixels@ == spec_cropped_pixels(*src, *region)
                &&& forall|r: int, c: int, k: int|
                    0 <= r < out.height && 0 <= c < out.width && 0 <= k < 4
                        ==> #[trigger] out.spec_byte_at(r, c, k) == src.spec_byte_at(
                        spec_crop_y0(*region) + r,
                        spec_crop_x0(*region) + c,
                        k,
                    )
            },
            Err(e) => {
                &&& e is RegionOutOfBounds
                &&& !spec_crop_in_bounds(*src, *region)
            },
        },
{
    let x0_wide: i64 = if region.x < 0 {
        0
    } else {
        region.x
    };
    let y0_wide: i64 = if region.y < 0 {
        0
    } else {
        region.y
    };
    if x0_wide >= src.width as i64 || y0_wide >= src.height as i64 {
        return Err(CaptureError::RegionOutOfBounds);
    }
    let x0: u32 = x0_wide as u32;
    let y0: u32 = y0_wide as u32;
    let dw: u32 = if region.width < 1 {
        1
    } else {
        region.width as u32
    };
    let dh: u32 = if region.height < 1 {
        1
    } else {
        region.height as u32
    };
    let avail_w: u32 = src.width - x0;
    let avail_h: u32 = src.height - y0;
    let w: u32 = if avail_w < dw {
        avail_w
    } else {
        dw
    };
    let h: u32 = if avail_h < dh {
        avail_h
    } else {
        dh
    };
    let sw: usize = src.width as usize;
    let total: usize = src.pixels.len();
    let mut pixels: Vec<u8> = Vec::new();
    let mut r: u32 = 0;
    proof {
        assert((h * w) * 4 <= (src.height * src.width) * 4) by (nonlinear_arith)
            requires
                1 <= w <= src.width,
                1 <= h <= src.height,
        ;
    }
    while r < h
        invariant
            src.wf(),
            sw == src.width,
            total == src.pixels@.len(),
            x0 + w <= src.width,
            y0 + h <= src.height,
            1 <= w,
            1 <= h,
            r <= h,
            pixels@.len() == (r * w) * 4,
            forall|rr: int, cc: int, k: int|
                0 <= rr < r && 0 <= cc < w && 0 <= k < 4 ==> #[trigger] pixels@[(rr * w + cc) * 4
                    + k] == src.spec_byte_at(y0 + rr, x0 + cc, k),
        decreases h - r,
    {
        let mut c: u32 = 0;
        proof {
            assert((r + 1) * w == r * w + w) by (nonlinear_arith);
            assert((r * w + w) * 4 <= (src.height * src.width) * 4) by (nonlinear_arith)
                requires
                    1 <= w <= src.width,
                    r + 1 <= src.height,
            ;
        }
        while c < w
            invariant
                src.wf(),
                sw == src.width,
                total == src.pixels@.len(),
                x0 + w <= src.width,
                y0 + h <= src.height,
                1 <= w,
                1 <= h,
                r < h,
                c <= w,
                pixels@.len() == (r * w + c) * 4,
                forall|rr: int, cc: int, k: int|
                    0 <= rr < r && 0 <= cc < w && 0 <= k < 4 ==> #[trigger] pixels@[(rr * w + cc)
                        * 4 + k] == src.spec_byte_at(y0 + rr, x0 + cc, k),
                forall|cc: int, k: int|
                    0 <= cc < c && 0 <= k < 4 ==> #[trigger] pixels@[(r * w + cc) * 4 + k]
                        == src.spec_byte_at(y0 + r, x0 + cc, k),
            decreases w - c,
        {
            proof {
                assert(((y0 + r) * src.width + (x0 + c)) * 4 + 3 < 4 * src.width * src.height)
                    by (nonlinear_arith)
                    requires
                        y0 + r < src.height,
                        x0 + c < src.width,
                        1 <= src.width,
                ;
                assert(4 * src.width * src.height == src.pixels@.len());
            }
            let ghost prev = pixels@;
            let base: usize = ((y0 + r) as usize * sw + (x0 + c) as usize) * 4;
            pixels.push(src.pixels[base]);
            pixels.push(src.pixels[base + 1]);
            pixels.push(src.pixels[base + 2]);
            pixels.push(src.pixels[base + 3]);
            proof {
                assert forall|rr: int, cc: int, k: int|
                    0 <= rr < r && 0 <= cc < w && 0 <= k < 4 implies #[trigger] pixels@[(rr * w
                    + cc) * 4 + k] == src.spec_byte_at(y0 + rr, x0 + cc, k) by {
                    assert((rr * w + cc) * 4 + k < (r * w + c) * 4) by (nonlinear_arith)
                        requires
                            0 <= rr < r,
                            0 <= cc < w,
                            0 <= k < 4,
                            0 <= c,
                            1 <= w,
                    ;
                    assert(pixels@[(rr * w + cc) * 4 + k] == prev[(rr * w + cc) * 4 + k]);
                }
                assert forall|cc: int, k: int|
                    0 <= cc < c && 0 <= k < 4 implies #[trigger] pixels@[(r * w + cc) * 4 + k]
                    == src.spec_byte_at(y0 + r, x0 + cc, k) by {
                    assert(pixels@[(r * w + cc) * 4 + k] == prev[(r * w + cc) * 4 + k]);
                }
                assert(forall|k: int|
                    0 <= k < 4 ==> #[trigger] pixels@[(r * w + c) * 4 + k] == src.spec_byte_at(
                        y0 + r,
                        x0 + c,
                        k,
                    ));
            }
            c = c + 1;
        }
        r = r + 1;
    }
    proof {
        assert((h * w) * 4 == 4 * w * h) by (nonlinear_arith);
        let wi = w as int;
        let hi = h as int;
        let canon = spec_cropped_pixels(*src, *region);
        assert(w == spec_crop_w(*src, *region));
        assert(h == spec_crop_h(*src, *region));
        assert(pixels@.len() == 4 * (wi * hi)) by (nonlinear_arith)
            requires
                pixels@.len() == (hi * wi) * 4,
        ;
        assert forall|n: int| 0 <= n < pixels@.len() implies pixels@[n] == canon[n] by {
            let p = n / 4;
            let k = n % 4;
            let rr = p / wi;
            let cc = p % wi;
            vstd::arithmetic::div_mod::lemma_fundamental_div_mod(n, 4);
            vstd::arithmetic::div_mod::lemma_mod_bound(n, 4);
            vstd::arithmetic::div_mod::lemma_fundamental_div_mod(p, wi);
            vstd::arithmetic::div_mod::lemma_mod_bound(p, wi);
            assert(0 <= p < wi * hi) by (nonlinear_arith)
                requires
                    0 <= n < pixels@.len(),
                    pixels@.len() == 4 * (wi * hi),
                    n == 4 * p + k,
                    0 <= k < 4,
            ;
            assert(0 <= rr < hi) by (nonlinear_arith)
                requires
                    0 <= p < wi * hi,
                    p == wi * rr + cc,
                    0 <= cc < wi,
                    1 <= wi,
            ;
            assert(pixels@[(rr * wi + cc) * 4 + k] == src.spec_byte_at(y0 + rr, x0 + cc, k));
            assert((rr * wi + cc) * 4 + k == n) by (nonlinear_arith)
                requires
                    n == 4 * p + k,
                    p == wi * rr + cc,
            ;
        }
        assert(pixels@ =~= canon);
    }
    Ok(RasterImage { width: w, height: h, pixels })
}

} // verus!
