//! Trusted boundary to the external JPEG XL decoding engine (`jxl-oxide`).
//!
//! Every function here wraps an engine call; the contracts state only what
//! the engine's source shows of every outcome, and nothing verified rests
//! on more than that. Results that are deterministic functions of their
//! arguments, but take pages to state, are given uninterpreted names; the
//! contracts apply those names, and the verified code's own `ensures` are
//! proved from them.

use vstd::prelude::*;

use crate::color::PixelFormat;

verus! {

/// The engine's decoder state for one JPEG XL image, opaque to this crate.
#[verifier::external_type_specification]
#[verifier::external_body]
pub struct ExJxlImage(jxl_oxide::JxlImage);

// What `jxl_oxide::JxlImageBuilder::read` decides for a byte stream:
// `None` when the engine accepts and fully parses it, `Some(diagnostic)`
// (the error's display text) when it rejects it. The decision and the
// diagnostic depend on the bytes alone.
pub uninterp spec fn open_error_of(data: Seq<u8>) -> Option<Seq<char>>;

// What `jxl_oxide::JxlImage::width` returns for an image: a pure read of
// its parsed headers, with orientation applied.
pub uninterp spec fn image_width(img: jxl_oxide::JxlImage) -> u32;

// What `jxl_oxide::JxlImage::height` returns for an image.
pub uninterp spec fn image_height(img: jxl_oxide::JxlImage) -> u32;

// What `jxl_oxide::JxlImage::pixel_format` returns for an image, as this
// crate's own marker for the engine's six variants.
pub uninterp spec fn image_pixel_format(img: jxl_oxide::JxlImage) -> PixelFormat;

// What `jxl_oxide::JxlImage::original_icc` returns for an image: the
// embedded ICC profile bytes, or `None` when the image embeds none.
pub uninterp spec fn image_icc(img: jxl_oxide::JxlImage) -> Option<Seq<u8>>;

// What rendering a keyframe of an image to 8-bit samples yields:
// `Err(diagnostic)` when `jxl_oxide::JxlImage::render_frame` fails, else
// the frame's full sample sequence, interleaved by pixel and then by
// channel (color channels, then black and alpha if present), each sample
// converted to `clamp(sample * 255 + 0.5, 0, 255)` truncated, per the
// engine's 8-bit output conversion. Deterministic in the image and index.
pub uninterp spec fn render_outcome_of(img: jxl_oxide::JxlImage, index: usize) -> Result<
    Seq<u8>,
    Seq<char>,
>;

/// Relies on `jxl_oxide::JxlImageBuilder::read`: consumes the byte stream,
/// parses headers and metadata, and returns an initialized decoder, or an
/// error when the stream ends early or the bitstream is malformed. The
/// engine's diagnostic is carried verbatim as its display text.
#[verifier::external_body]
pub(crate) fn engine_open(data: &[u8]) -> (r: Result<jxl_oxide::JxlImage, String>)
    ensures
        r is Ok <==> open_error_of(data@) is None,
        r matches Err(m) ==> open_error_of(data@) matches Some(s) && m@ == s,
{
    jxl_oxide::JxlImage::builder().read(data).map_err(|e| e.to_string())
}

/// Relies on `jxl_oxide::JxlImage::width`: the image width in pixels, with
/// orientation applied.
#[verifier::external_body]
pub(crate) fn engine_width(img: &jxl_oxide::JxlImage) -> (r: u32)
    ensures
        r == image_width(*img),
{
    img.width()
}

/// Relies on `jxl_oxide::JxlImage::height`: the image height in pixels, with
/// orientation applied.
#[verifier::external_body]
pub(crate) fn engine_height(img: &jxl_oxide::JxlImage) -> (r: u32)
    ensures
        r == image_height(*img),
{
    img.height()
}

/// Relies on `jxl_oxide::JxlImage::pixel_format`: the channel layout of
/// rendered images, derived from headers that are fixed for the decoder's
/// lifetime. Each engine variant is translated to this crate's own marker.
#[verifier::external_body]
pub(crate) fn engine_pixel_format(img: &jxl_oxide::JxlImage) -> (r: PixelFormat)
    ensures
        r == image_pixel_format(*img),
{
    match img.pixel_format() {
        jxl_oxide::PixelFormat::Gray => PixelFormat::Gray,
        jxl_oxide::PixelFormat::Graya => PixelFormat::Graya,
        jxl_oxide::PixelFormat::Rgb => PixelFormat::Rgb,
        jxl_oxide::PixelFormat::Rgba => PixelFormat::Rgba,
        jxl_oxide::PixelFormat::Cmyk => PixelFormat::Cmyk,
        jxl_oxide::PixelFormat::Cmyka => PixelFormat::Cmyka,
    }
}

/// Relies on `jxl_oxide::JxlImage::original_icc`: the ICC profile embedded
/// in the image, if any, copied into an owned byte sequence.
#[verifier::external_body]
pub(crate) fn engine_original_icc(img: &jxl_oxide::JxlImage) -> (r: Option<Vec<u8>>)
    ensures
        r is Some <==> image_icc(*img) is Some,
        r matches Some(v) ==> image_icc(*img) matches Some(s) && v@ == s,
{
    img.original_icc().map(|icc| icc.to_vec())
}

/// Relies on `jxl_oxide::JxlImage::render_frame`, `jxl_oxide::Render::stream`
/// and `jxl_oxide::ImageStream::write_to_buffer`, which together compute the
/// named render outcome: `render_frame` returns an error (rather than
/// panicking) when the index is out of range or the frame cannot be decoded,
/// and its display text is carried verbatim; on success the stream writes
/// the outcome's converted samples, in order, into a fresh zeroed buffer of
/// exactly `len` bytes, stopping at whichever of buffer and samples runs out
/// first, and how many bytes it wrote is returned alongside the buffer.
#[verifier::external_body]
pub(crate) fn engine_render_into_bytes(
    img: &jxl_oxide::JxlImage,
    index: usize,
    len: usize,
) -> (r: Result<(Vec<u8>, usize), String>)
    ensures
        r is Ok <==> render_outcome_of(*img, index) is Ok,
        r matches Err(m) ==> render_outcome_of(*img, index) matches Err(s) && m@ == s,
        r matches Ok(p) ==> render_outcome_of(*img, index) matches Ok(bytes) && {
            &&& p.0@.len() == len
            &&& p.1 <= len
            &&& bytes.len() >= len ==> p.1 == len
            &&& bytes.len() < len ==> p.1 == bytes.len()
            &&& forall|i: int| 0 <= i < p.1 ==> p.0@[i] == bytes[i]
            &&& forall|i: int| p.1 <= i < len ==> p.0@[i] == 0
        },
{
    let render = match img.render_frame(index) {
        Ok(render) => render,
        Err(e) => return Err(e.to_string()),
    };
    let mut buf = vec![0u8; len];
    let written = render.stream().write_to_buffer(buf.as_mut_slice());
    Ok((buf, written))
}

} // verus!
