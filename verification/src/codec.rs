//! Raster codecs: a zero-overhead raw block format and PNG.
//!
//! The raw format is a fixed eight-byte header — width then height,
//! each big-endian — followed by the RGBA buffer verbatim.  It carries
//! no self-describing tag; the caller records the format choice.  The
//! PNG path goes through the `image` crate behind trusted wrappers.

use vstd::prelude::*;
use crate::errors::CaptureError;
use crate::raster::RasterImage;

verus! {

/// The four big-endian bytes of a 32-bit value.
pub open spec fn spec_be32(x: u32) -> Seq<u8> {
    seq![
        ((x >> 24) & 0xff) as u8,
        ((x >> 16) & 0xff) as u8,
        ((x >> 8) & 0xff) as u8,
        (x & 0xff) as u8,
    ]
}

/// The 32-bit value carried by four big-endian bytes.
pub open spec fn spec_u32_of_be(b0: u8, b1: u8, b2: u8, b3: u8) -> u32 {
    ((b0 as u32) << 24) | ((b1 as u32) << 16) | ((b2 as u32) << 8) | (b3 as u32)
}

/// The raw-block encoding of a raster given as parts: width, height,
/// then the pixel buffer, unchanged.
pub open spec fn spec_encode_raw_parts(width: u32, height: u32, pixels: Seq<u8>) -> Seq<u8> {
    spec_be32(width) + spec_be32(height) + pixels
}

/// The raw-block encoding of a raster: width, height, then the pixel
/// buffer, unchanged.
pub open spec fn spec_encode_raw(img: RasterImage) -> Seq<u8> {
    spec_encode_raw_parts(img.width, img.height, img.pixels@)
}

/// The raster a raw block carries, if its header and length agree.
pub open spec fn spec_decode_raw(bytes: Seq<u8>) -> Option<(u32, u32, Seq<u8>)> {
    if bytes.len() < 8 {
        None
    } else {
        let w = spec_u32_of_be(bytes[0], bytes[1], bytes[2], bytes[3]);
        let h = spec_u32_of_be(bytes[4], bytes[5], bytes[6], bytes[7]);
        if bytes.len() == 8 + 4 * w * h {
            Some((w, h, bytes.skip(8)))
        } else {
            None
        }
    }
}

/// Encodes a raster as a raw block: eight header bytes, then the exact
/// pixel buffer.  No compression, no quality loss.
pub fn encode_raw(img: &RasterImage) -> (out: Vec<u8>)
    requires
        img.wf(),
    ensures
        out@ == spec_encode_raw(*img),
{
    let mut out: Vec<u8> = Vec::new();
    push_be32(&mut out, img.width);
    push_be32(&mut out, img.height);
    let n = img.pixels.len();
    let mut i: usize = 0;
    while i < n
        invariant
            n == img.pixels@.len(),
            i <= n,
            out@ == spec_be32(img.width) + spec_be32(img.height) + img.pixels@.take(i as int),
        decreases n - i,
    {
        out.push(img.pixels[i]);
        proof {
            assert(img.pixels@.take(i + 1) == img.pixels@.take(i as int).push(
                img.pixels@[i as int],
            ));
        }
        i = i + 1;
    }
    proof {
        assert(img.pixels@.take(n as int) == img.pixels@);
    }
    out
}

/// Appends the four big-endian bytes of `x`.
fn push_be32(out: &mut Vec<u8>, x: u32)
    ensures
        final(out)@ == old(out)@ + spec_be32(x),
{
    out.push(((x >> 24) & 0xff) as u8);
    out.push(((x >> 16) & 0xff) as u8);
    out.push(((x >> 8) & 0xff) as u8);
    out.push((x & 0xff) as u8);
    proof {
        assert(out@ == old(out)@ + spec_be32(x));
    }
}

/// Decodes a raw block back into a raster.
///
/// Succeeds exactly when the block is eight bytes of header whose
/// dimensions account for the remaining length; the pixel buffer comes
/// back byte-for-byte.
pub fn decode_raw(bytes: &Vec<u8>) -> (r: Result<RasterImage, CaptureError>)
    ensures
        match r {
            Ok(img) => {
                &&& spec_decode_raw(bytes@) == Some((img.width, img.height, img.pixels@))
                &&& img.wf()
            },
            Err(e) => {
                &&& e is EncodeFailed
                &&& spec_decode_raw(bytes@) is None
            },
        },
{
    if bytes.len() < 8 {
        return Err(CaptureError::EncodeFailed);
    }
    let w: u32 = ((bytes[0] as u32) << 24) | ((bytes[1] as u32) << 16) | ((bytes[2] as u32) << 8)
        | (bytes[3] as u32);
    let h: u32 = ((bytes[4] as u32) << 24) | ((bytes[5] as u32) << 16) | ((bytes[6] as u32) << 8)
        | (bytes[7] as u32);
    proof {
        assert((w as int) * (h as int) <= 0xffff_ffff * 0xffff_ffff) by (nonlinear_arith)
            requires
                w <= 0xffff_ffffu32,
                h <= 0xffff_ffffu32,
        ;
        assert(4 * ((w as int) * (h as int)) == 4 * w * h) by (nonlinear_arith);
    }
    let wh: u64 = (w as u64) * (h as u64);
    if bytes.len() as u128 != 8u128 + 4u128 * (wh as u128) {
        return Err(CaptureError::EncodeFailed);
    }
    let n = bytes.len();
    let mut pixels: Vec<u8> = Vec::new();
    let mut i: usize = 8;
    while i < n
        invariant
            n == bytes@.len(),
            8 <= i <= n,
            pixels@ == bytes@.subrange(8, i as int),
        decreases n - i,
    {
        pixels.push(bytes[i]);
        proof {
            assert(bytes@.subrange(8, i + 1) == bytes@.subrange(8, i as int).push(
                bytes@[i as int],
            ));
        }
        i = i + 1;
    }
    proof {
        assert(pixels@ == bytes@.skip(8));
    }
    Ok(RasterImage { width: w, height: h, pixels })
}

/// Decoding a raw block encoded from any well-formed raster reproduces
/// that raster exactly: the same dimensions and the same pixel buffer,
/// byte for byte.
pub proof fn lemma_raw_round_trip(img: RasterImage)
    requires
        img.wf(),
    ensures
        spec_decode_raw(spec_encode_raw(img)) == Some((img.width, img.height, img.pixels@)),
{
    let enc = spec_encode_raw(img);
    lemma_be32_round_trip(img.width);
    lemma_be32_round_trip(img.height);
    assert(enc[0] == spec_be32(img.width)[0]);
    assert(enc[1] == spec_be32(img.width)[1]);
    assert(enc[2] == spec_be32(img.width)[2]);
    assert(enc[3] == spec_be32(img.width)[3]);
    assert(enc[4] == spec_be32(img.height)[0]);
    assert(enc[5] == spec_be32(img.height)[1]);
    assert(enc[6] == spec_be32(img.height)[2]);
    assert(enc[7] == spec_be32(img.height)[3]);
    assert(enc.skip(8) =~= img.pixels@);
}

/// Reading back the four big-endian bytes of a value yields the value.
proof fn lemma_be32_round_trip(x: u32)
    ensures
        spec_u32_of_be(
            ((x >> 24) & 0xff) as u8,
            ((x >> 16) & 0xff) as u8,
            ((x >> 8) & 0xff) as u8,
            (x & 0xff) as u8,
        ) == x,
{
    assert(((((x >> 24) & 0xff) as u8 as u32) << 24) | ((((x >> 16) & 0xff) as u8 as u32) << 16)
        | ((((x >> 8) & 0xff) as u8 as u32) << 8) | (((x & 0xff) as u8) as u32) == x)
        by (bit_vector);
}

/// The PNG stream the `image` crate produces for an RGBA buffer under
/// this library's fixed settings; a function of the pixels and
/// dimensions alone.
pub uninterp spec fn png_encoding_of(pixels: Seq<u8>, width: u32, height: u32) -> Seq<u8>;

/// The raster the `image` crate decodes from a PNG stream, converted
/// to RGBA; a function of the bytes alone, `None` where decoding
/// fails.
pub uninterp spec fn png_decoding_of(bytes: Seq<u8>) -> Option<(u32, u32, Seq<u8>)>;

/// The pixel-buffer size up to which the PNG round trip is stated.
/// Decoding runs under the `image` crate's default allocation limit;
/// a 128 MiB buffer stays far enough below it that a stream this
/// library encoded always decodes.
pub const PNG_ROUND_TRIP_BYTES_MAX: u64 = 0x0800_0000;

/// Relies on `image::codecs::png::PngEncoder::write_image` with best
/// compression and the sub filter: the stream depends on the pixel
/// buffer and dimensions alone.  The encoder panics unless the buffer
/// holds exactly four bytes per pixel, so that is required here; it
/// writes to memory and rejects only zero width or height, so
/// encoding any nonzero-sized raster succeeds.  PNG is lossless:
/// decoding the stream gives back the dimensions and buffer exactly,
/// stated here for buffers small enough to clear the decoder's
/// default allocation limit.
#[verifier::external_body]
fn png_encode_rgba(data: &[u8], width: u32, height: u32) -> (r: Result<Vec<u8>, CaptureError>)
    requires
        data@.len() == 4 * width * height,
    ensures
        match r {
            Ok(b) => {
                &&& b@ == png_encoding_of(data@, width, height)
                &&& 4 * width * height <= PNG_ROUND_TRIP_BYTES_MAX ==> png_decoding_of(b@)
                    == Some((width, height, data@))
            },
            Err(e) => e is EncodeFailed,
        },
        width >= 1 && height >= 1 ==> r is Ok,
{
    let mut buffer = std::io::Cursor::new(Vec::new());
    let encoder = image::codecs::png::PngEncoder::new_with_quality(
        &mut buffer,
        image::codecs::png::CompressionType::Best,
        image::codecs::png::FilterType::Sub,
    );
    match image::ImageEncoder::write_image(encoder, data, width, height, image::ExtendedColorType::Rgba8) {
        Ok(()) => Ok(buffer.into_inner()),
        Err(_) => Err(CaptureError::EncodeFailed),
    }
}

/// Relies on `image::load` with the PNG format, then `to_rgba8`:
/// decoding is a function of the bytes alone, and a decoded RGBA
/// buffer holds exactly four bytes per pixel.
#[verifier::external_body]
fn png_decode_rgba(bytes: &[u8]) -> (r: Result<(u32, u32, Vec<u8>), CaptureError>)
    ensures
        match r {
            Ok(t) => {
                &&& png_decoding_of(bytes@) == Some((t.0, t.1, t.2@))
                &&& t.2@.len() == 4 * t.0 * t.1
            },
            Err(e) => {
                &&& e is EncodeFailed
                &&& png_decoding_of(bytes@) is None
            },
        },
{
    match image::load(std::io::Cursor::new(bytes), image::ImageFormat::Png) {
        Ok(img) => {
            let rgba = img.to_rgba8();
            Ok((rgba.width(), rgba.height(), rgba.into_raw()))
        },
        Err(_) => Err(CaptureError::EncodeFailed),
    }
}

/// Encodes a well-formed raster as PNG (lossless, best compression).
///
/// Succeeds for every raster of nonzero size; on success the stream
/// decodes back to the exact dimensions and pixel buffer, stated for
/// buffers within [`PNG_ROUND_TRIP_BYTES_MAX`].
pub fn encode_png(img: &RasterImage) -> (r: Result<Vec<u8>, CaptureError>)
    requires
        img.wf(),
    ensures
        match r {
            Ok(b) => {
                &&& b@ == png_encoding_of(img.pixels@, img.width, img.height)
                &&& 4 * img.width * img.height <= PNG_ROUND_TRIP_BYTES_MAX ==> png_decoding_of(
                    b@,
                ) == Some((img.width, img.height, img.pixels@))
            },
            Err(e) => e is EncodeFailed,
        },
        img.width >= 1 && img.height >= 1 ==> r is Ok,
{
    png_encode_rgba(img.pixels.as_slice(), img.width, img.height)
}

/// Decodes a PNG stream into an RGBA raster.
pub fn decode_png(bytes: &Vec<u8>) -> (r: Result<RasterImage, CaptureError>)
    ensures
        match r {
            Ok(img) => {
                &&& img.wf()
                &&& png_decoding_of(bytes@) == Some((img.width, img.height, img.pixels@))
            },
            Err(e) => {
                &&& e is EncodeFailed
                &&& png_decoding_of(bytes@) is None
            },
        },
{
    match png_decode_rgba(bytes.as_slice()) {
        Ok((width, height, pixels)) => Ok(RasterImage { width, height, pixels }),
        Err(e) => Err(e),
    }
}

/// Encodes raw RGBA pixel data as PNG.
///
/// Rejects a buffer that does not hold exactly four bytes for each of
/// the `width * height` pixels; a matching buffer of nonzero size
/// always encodes, and the stream decodes back to exactly the given
/// dimensions and buffer (stated for buffers within
/// [`PNG_ROUND_TRIP_BYTES_MAX`]).
pub fn encode_as_png(data: &[u8], width: u32, height: u32) -> (r: Result<Vec<u8>, String>)
    ensures
        data@.len() != 4 * width * height ==> r is Err,
        data@.len() == 4 * width * height && width >= 1 && height >= 1 ==> r is Ok,
        match r {
            Ok(b) => {
                &&& data@.len() == 4 * width * height
                &&& b@ == png_encoding_of(data@, width, height)
                &&& 4 * width * height <= PNG_ROUND_TRIP_BYTES_MAX ==> png_decoding_of(b@)
                    == Some((width, height, data@))
            },
            Err(_) => true,
        },
{
    proof {
        assert((width as int) * (height as int) <= 0xffff_ffff * 0xffff_ffff) by (nonlinear_arith)
            requires
                width <= 0xffff_ffffu32,
                height <= 0xffff_ffffu32,
        ;
        assert(4 * ((width as int) * (height as int)) == 4 * width * height) by (nonlinear_arith);
    }
    let wh: u64 = (width as u64) * (height as u64);
    if data.len() as u128 != 4u128 * (wh as u128) {
        return Err(String::from_str("pixel buffer does not match the image dimensions"));
    }
    match png_encode_rgba(data, width, height) {
        Ok(b) => Ok(b),
        Err(_) => Err(String::from_str("failed to encode image as PNG")),
    }
}

/// The interchange formats the codec offers.  The bytes carry no
/// format tag in the raw mode, so the caller records the choice.
#[derive(Clone, Copy, PartialEq, Eq, Structural, Debug)]
pub enum RasterFormat {
    /// Direct pixel-buffer packing behind a fixed-size header; no
    /// compression, minimal CPU.
    RawBlock,
    /// Lossless PNG compression; smaller payload, higher latency.
    CompressedLossless,
}

/// Encodes a raster in the chosen format.  The raw block never
/// fails, and PNG succeeds for every raster of nonzero size.
pub fn encode(img: &RasterImage, format: RasterFormat) -> (r: Result<Vec<u8>, CaptureError>)
    requires
        img.wf(),
    ensures
        match r {
            Ok(b) => {
                &&& format is RawBlock ==> b@ == spec_encode_raw(*img)
                &&& format is CompressedLossless ==> b@ == png_encoding_of(
                    img.pixels@,
                    img.width,
                    img.height,
                )
                &&& format is CompressedLossless && 4 * img.width * img.height
                    <= PNG_ROUND_TRIP_BYTES_MAX ==> png_decoding_of(b@) == Some(
                    (img.width, img.height, img.pixels@),
                )
            },
            Err(e) => e is EncodeFailed && format is CompressedLossless,
        },
        format is RawBlock || (img.width >= 1 && img.height >= 1) ==> r is Ok,
{
    match format {
        RasterFormat::RawBlock => Ok(encode_raw(img)),
        RasterFormat::CompressedLossless => encode_png(img),
    }
}

/// Decodes bytes produced by [`encode`] under the same format choice.
pub fn decode(bytes: &Vec<u8>, format: RasterFormat) -> (r: Result<RasterImage, CaptureError>)
    ensures
        match r {
            Ok(img) => {
                &&& img.wf()
                &&& format is RawBlock ==> spec_decode_raw(bytes@) == Some(
                    (img.width, img.height, img.pixels@),
                )
                &&& format is CompressedLossless ==> png_decoding_of(bytes@) == Some(
                    (img.width, img.height, img.pixels@),
                )
            },
            Err(e) => {
                &&& e is EncodeFailed
                &&& format is RawBlock ==> spec_decode_raw(bytes@) is None
                &&& format is CompressedLossless ==> png_decoding_of(bytes@) is None
            },
        },
{
    match format {
        RasterFormat::RawBlock => decode_raw(bytes),
        RasterFormat::CompressedLossless => decode_png(bytes),
    }
}

} // verus!
