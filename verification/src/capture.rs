//! The capture pipeline's verified core: crop a captured monitor
//! raster to a resolved local rectangle and encode the result.
//!
//! Monitor enumeration and the raster grab are platform work performed
//! by the surrounding glue; it hands the raster in as plain values and
//! gets encoded bytes back.  No partial result is ever returned: the
//! pipeline yields a complete, correctly-sized payload or exactly one
//! failure kind.

use vstd::prelude::*;
use crate::codec::{RasterFormat, encode, png_encoding_of, spec_encode_raw_parts};
use crate::errors::CaptureError;
use crate::raster::{
    RasterImage,
    crop_raster,
    spec_crop_h,
    spec_crop_in_bounds,
    spec_crop_w,
    spec_cropped_pixels,
};
use crate::region::LocalRegion;

verus! {

/// Crops a captured raster to a monitor-local rectangle and encodes
/// it in the chosen format.
///
/// Succeeds exactly when the clamped rectangle has a positive-area
/// intersection with the raster, and fails with `RegionOutOfBounds`
/// otherwise — the crop result is always at least one pixel, which
/// every codec accepts.  On success the bytes are the chosen encoding
/// of the canonical crop — an exact pixel copy, never resampled.
pub fn crop_and_encode(src: &RasterImage, region: &LocalRegion, format: RasterFormat) -> (r:
    Result<Vec<u8>, CaptureError>)
    requires
        src.wf(),
    ensures
        r is Ok <==> spec_crop_in_bounds(*src, *region),
        match r {
            Ok(b) => {
                &&& format is RawBlock ==> b@ == spec_encode_raw_parts(
                    spec_crop_w(*src, *region) as u32,
                    spec_crop_h(*src, *region) as u32,
                    spec_cropped_pixels(*src, *region),
                )
                &&& format is CompressedLossless ==> b@ == png_encoding_of(
                    spec_cropped_pixels(*src, *region),
                    spec_crop_w(*src, *region) as u32,
                    spec_crop_h(*src, *region) as u32,
                )
            },
            Err(e) => e is RegionOutOfBounds,
        },
{
    let cropped = match crop_raster(src, region) {
        Ok(img) => img,
        Err(e) => {
            return Err(e);
        },
    };
    encode(&cropped, format)
}

} // verus!
