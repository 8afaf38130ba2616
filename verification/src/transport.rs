//! The latency-sensitive transport payload: a captured frame as
//! base64-wrapped JPEG.
//!
//! JPEG carries no alpha channel, so the RGBA raster is first reduced
//! to RGB by dropping every fourth byte — a verified, exact copy of
//! the colour channels.  The JPEG and base64 steps go through trusted
//! wrappers.

use vstd::prelude::*;
use base64::Engine;
use crate::errors::CaptureError;
use crate::raster::RasterImage;

verus! {

/// The RGB bytes of an RGBA buffer: every fourth byte dropped, order
/// kept.
pub open spec fn spec_rgb_of_rgba(pixels: Seq<u8>) -> Seq<u8> {
    Seq::new(
        (3 * (pixels.len() / 4)) as nat,
        |n: int| pixels[4 * (n / 3) + n % 3],
    )
}

/// Strips the alpha channel from a well-formed raster: three bytes
/// out for every four bytes in, colour values unchanged.
pub fn rgba_to_rgb(img: &RasterImage) -> (out: Vec<u8>)
    requires
        img.wf(),
    ensures
        out@ == spec_rgb_of_rgba(img.pixels@),
        out@.len() == 3 * img.width * img.height,
{
    let total: usize = img.pixels.len();
    let count: usize = total / 4;
    proof {
        let m = (img.width as int) * (img.height as int);
        assert(total == 4 * m) by (nonlinear_arith)
            requires
                total == 4 * img.width * img.height,
                m == (img.width as int) * (img.height as int),
        ;
        vstd::arithmetic::div_mod::lemma_div_multiples_vanish(m, 4);
    }
    let mut out: Vec<u8> = Vec::new();
    let mut p: usize = 0;
    while p < count
        invariant
            total == img.pixels@.len(),
            count == total / 4,
            total == 4 * count,
            p <= count,
            out@.len() == 3 * p,
            forall|pp: int, k: int|
                0 <= pp < p && 0 <= k < 3 ==> #[trigger] out@[pp * 3 + k] == img.pixels@[pp * 4
                    + k],
        decreases count - p,
    {
        proof {
            assert(4 * p + 3 < total) by (nonlinear_arith)
                requires
                    p < count,
                    total == 4 * count,
            ;
        }
        let ghost prev = out@;
        let base: usize = 4 * p;
        out.push(img.pixels[base]);
        out.push(img.pixels[base + 1]);
        out.push(img.pixels[base + 2]);
        proof {
            assert forall|pp: int, k: int| 0 <= pp < p && 0 <= k < 3 implies #[trigger] out@[pp
                * 3 + k] == img.pixels@[pp * 4 + k] by {
                assert(pp * 3 + k < p * 3) by (nonlinear_arith)
                    requires
                        0 <= pp < p,
                        0 <= k < 3,
                ;
                assert(out@[pp * 3 + k] == prev[pp * 3 + k]);
            }
            assert(forall|k: int|
                0 <= k < 3 ==> #[trigger] out@[p * 3 + k] == img.pixels@[p * 4 + k]);
        }
        p = p + 1;
    }
    proof {
        let canon = spec_rgb_of_rgba(img.pixels@);
        assert forall|n: int| 0 <= n < out@.len() implies out@[n] == canon[n] by {
            let pp = n / 3;
            let k = n % 3;
            vstd::arithmetic::div_mod::lemma_fundamental_div_mod(n, 3);
            vstd::arithmetic::div_mod::lemma_mod_bound(n, 3);
            assert(0 <= pp < count) by (nonlinear_arith)
                requires
                    0 <= n < 3 * count,
                    n == 3 * pp + k,
                    0 <= k < 3,
            ;
            assert(out@[pp * 3 + k] == img.pixels@[pp * 4 + k]);
            assert(pp * 3 + k == n);
            assert(pp * 4 + k == 4 * (n / 3) + n % 3);
        }
        assert(out@ =~= canon);
        assert(out@.len() == 3 * ((4 * img.width * img.height) / 4));
        assert(3 * ((4 * (img.width * img.height)) / 4) == 3 * img.width * img.height)
            by (nonlinear_arith);
        assert(4 * img.width * img.height == 4 * ((img.width * img.height) as int))
            by (nonlinear_arith);
    }
    out
}

/// The JPEG stream the `image` crate produces for an RGB buffer at a
/// quality setting; a function of its arguments alone.
pub uninterp spec fn jpeg_encoding_of(
    pixels: Seq<u8>,
    width: u32,
    height: u32,
    quality: u8,
) -> Seq<u8>;

/// Relies on `image::codecs::jpeg::JpegEncoder::encode` over an RGB
/// buffer: the stream depends on the pixels, dimensions and quality
/// alone.  The encoder panics unless the buffer holds exactly three
/// bytes per pixel, so that is required here; it writes to memory
/// and rejects only dimensions outside one through 65535, so any
/// raster inside that range encodes.
#[verifier::external_body]
fn jpeg_encode_rgb(data: &[u8], width: u32, height: u32, quality: u8) -> (r: Result<
    Vec<u8>,
    CaptureError,
>)
    requires
        data@.len() == 3 * width * height,
    ensures
        match r {
            Ok(b) => b@ == jpeg_encoding_of(data@, width, height, quality),
            Err(e) => e is EncodeFailed,
        },
        1 <= width <= 65535 && 1 <= height <= 65535 ==> r is Ok,
{
    let mut buffer = std::io::Cursor::new(Vec::new());
    let mut encoder = image::codecs::jpeg::JpegEncoder::new_with_quality(&mut buffer, quality);
    match encoder.encode(data, width, height, image::ExtendedColorType::Rgb8) {
        Ok(()) => Ok(buffer.into_inner()),
        Err(_) => Err(CaptureError::EncodeFailed),
    }
}

/// The base64 text of a byte sequence under the standard alphabet
/// with padding; a function of the bytes alone.
pub uninterp spec fn base64_of(bytes: Seq<u8>) -> Seq<char>;

/// Relies on base64's `STANDARD` engine: four output characters for
/// every three input bytes, rounded up by padding.  The engine panics
/// when the encoded length overflows `usize`, so the input is bounded
/// here.
#[verifier::external_body]
fn base64_encode(data: &Vec<u8>) -> (r: String)
    requires
        4 * data@.len() <= usize::MAX,
    ensures
        r@ == base64_of(data@),
        r@.len() == 4 * ((data@.len() + 2) / 3),
{
    base64::engine::general_purpose::STANDARD.encode(data)
}

/// Builds the transport payload for a captured frame: the raster's
/// colour channels JPEG-encoded at the given quality, then wrapped in
/// base64.
///
/// Succeeds whenever the frame's dimensions fit JPEG — one through
/// 65535 on each side — and the encoded stream is small enough to
/// wrap; it fails only outside those bounds.
pub fn capture_payload_base64(img: &RasterImage, quality: u8) -> (r: Result<String, CaptureError>)
    requires
        img.wf(),
    ensures
        match r {
            Ok(s) => s@ == base64_of(
                jpeg_encoding_of(spec_rgb_of_rgba(img.pixels@), img.width, img.height, quality),
            ),
            Err(e) => e is EncodeFailed,
        },
        1 <= img.width <= 65535 && 1 <= img.height <= 65535 && 4 * jpeg_encoding_of(
            spec_rgb_of_rgba(img.pixels@),
            img.width,
            img.height,
            quality,
        ).len() <= usize::MAX ==> r is Ok,
{
    let rgb = rgba_to_rgb(img);
    let jpeg = match jpeg_encode_rgb(rgb.as_slice(), img.width, img.height, quality) {
        Ok(b) => b,
        Err(e) => {
            return Err(e);
        },
    };
    if jpeg.len() as u128 * 4 > usize::MAX as u128 {
        return Err(CaptureError::EncodeFailed);
    }
    Ok(base64_encode(&jpeg))
}

} // verus!
