use vstd::prelude::*;
use vstd::string::StringExecFns;

use crate::color::ColorType;
use crate::color::ExtendedColorType;
use crate::color::PixelFormat;
use crate::color::color_type_of;
use crate::color::extended_color_type_of;
use crate::engine::engine_open;
use crate::engine::engine_original_icc;
use crate::engine::engine_pixel_format;
use crate::engine::engine_render_into_bytes;
use crate::engine::engine_width;
use crate::engine::engine_height;
use crate::engine::image_height;
use crate::engine::image_icc;
use crate::engine::image_pixel_format;
use crate::engine::image_width;
use crate::engine::open_error_of;
use crate::engine::render_outcome_of;
use crate::error::DecodingError;
use crate::error::ImageError;
use crate::error::ImageFormat;
use crate::error::ImageFormatHint;
use crate::error::LimitErrorKind;
use crate::error::UnsupportedError;
use crate::error::UnsupportedErrorKind;
use crate::limits::LimitSupport;
use crate::limits::Limits;

verus! {

/// JPEG XL decoder: wraps one engine instance, initialized once from an
/// input byte stream, together with the active resource-limits policy.
///
/// The image's dimensions and pixel format are fixed by the headers the
/// engine parses at open time; they are read out once at construction and
/// drive every color-type and buffer-sizing decision afterwards. A type
/// invariant ties the cached values to the engine instance, so every
/// decoder value reports its own engine's metadata.
pub struct JxlDecoder {
    inner: jxl_oxide::JxlImage,
    width: u32,
    height: u32,
    format: PixelFormat,
    limits: Limits,
}

impl JxlDecoder {
    /// The cached metadata is exactly what the engine reports for the
    /// wrapped instance.
    #[verifier::type_invariant]
    spec fn engine_metadata_cached(self) -> bool {
        &&& self.width == image_width(self.inner)
        &&& self.height == image_height(self.inner)
        &&& self.format == image_pixel_format(self.inner)
    }

    /// The wrapped engine instance.
    pub closed spec fn spec_engine(&self) -> jxl_oxide::JxlImage {
        self.inner
    }

    /// The image width in pixels.
    pub closed spec fn spec_width(&self) -> u32 {
        self.width
    }

    /// The image height in pixels.
    pub closed spec fn spec_height(&self) -> u32 {
        self.height
    }

    /// The engine's pixel format for this image.
    pub closed spec fn spec_pixel_format(&self) -> PixelFormat {
        self.format
    }

    /// The active resource-limits policy.
    pub closed spec fn spec_limits(&self) -> Limits {
        self.limits
    }

    /// Exact size in bytes of the output buffer `read_image` fills:
    /// `width * height * bytes_per_pixel` of the committed color type.
    pub open spec fn spec_output_len(&self) -> int {
        self.spec_width() * self.spec_height() * color_type_of(
            self.spec_pixel_format(),
        ).spec_bytes_per_pixel()
    }

    /// Creates a new decoder that decodes the JPEG XL bitstream held in
    /// `data`: it succeeds exactly when the engine fully parses the stream.
    /// On engine failure the error wraps the engine's diagnostic verbatim
    /// under the unknown format hint, since at this stage "not JPEG XL"
    /// cannot be told apart from "malformed JPEG XL". On success the
    /// decoder caches the engine's metadata and starts with the
    /// unrestricted limits policy.
    pub fn new(data: &[u8]) -> (r: Result<JxlDecoder, ImageError>)
        ensures
            r is Ok <==> open_error_of(data@) is None,
            r matches Ok(d) ==> {
                &&& d.spec_width() == image_width(d.spec_engine())
                &&& d.spec_height() == image_height(d.spec_engine())
                &&& d.spec_pixel_format() == image_pixel_format(d.spec_engine())
                &&& d.spec_limits().max_image_width is None
                &&& d.spec_limits().max_image_height is None
                &&& d.spec_limits().max_alloc is None
            },
            r matches Err(e) ==> e matches ImageError::Decoding(de) && {
                &&& de.format == ImageFormatHint::Unknown
                &&& open_error_of(data@) matches Some(s) && de.message@ == s
            },
    {
        let inner = match engine_open(data) {
            Ok(img) => img,
            Err(msg) => {
                return Err(ImageError::Decoding(DecodingError::new(ImageFormatHint::Unknown, msg)));
            },
        };

        let width = engine_width(&inner);
        let height = engine_height(&inner);
        let format = engine_pixel_format(&inner);
        let limits = Limits::no_limits();

        Ok(JxlDecoder { inner, width, height, format, limits })
    }

    /// The image dimensions, forwarded unmodified from the engine's parsed
    /// headers.
    pub fn dimensions(&self) -> (r: (u32, u32))
        ensures
            r.0 == self.spec_width(),
            r.1 == self.spec_height(),
            r.0 == image_width(self.spec_engine()),
            r.1 == image_height(self.spec_engine()),
    {
        proof {
            use_type_invariant(self);
        }
        (self.width, self.height)
    }

    /// The coarse color type committed to for output buffers: CMYK sources
    /// are reported as RGB8, CMYKA sources as RGBA8, so callers that only
    /// size buffers get a usable answer for every source.
    pub fn color_type(&self) -> (r: ColorType)
        ensures
            r == color_type_of(self.spec_pixel_format()),
            r == color_type_of(image_pixel_format(self.spec_engine())),
    {
        proof {
            use_type_invariant(self);
        }
        self.format.color_type()
    }

    /// The precise color type of the source image; both CMYK variants
    /// report the CMYK marker. This is the authoritative signal for whether
    /// `read_image` can render the image.
    pub fn original_color_type(&self) -> (r: ExtendedColorType)
        ensures
            r == extended_color_type_of(self.spec_pixel_format()),
            r == extended_color_type_of(image_pixel_format(self.spec_engine())),
    {
        proof {
            use_type_invariant(self);
        }
        self.format.extended_color_type()
    }

    /// Exact output buffer size in bytes, or `None` when
    /// `width * height * bytes_per_pixel` does not fit in a `u64`.
    pub fn total_bytes(&self) -> (r: Option<u64>)
        ensures
            r matches Some(t) ==> t == self.spec_output_len(),
            r is None ==> self.spec_output_len() > u64::MAX,
    {
        let w = self.width as u64;
        let h = self.height as u64;
        let bpp = self.color_type().bytes_per_pixel() as u64;
        proof {
            assert((w as int) * (h as int) <= u64::MAX as int) by (nonlinear_arith)
                requires
                    w <= u32::MAX as u64,
                    h <= u32::MAX as u64,
            ;
        }
        let pixels = w.checked_mul(h).unwrap();
        pixels.checked_mul(bpp)
    }

    /// The engine's embedded ICC profile, copied and passed through
    /// unparsed; `None` exactly when the image embeds none. Never fails and
    /// changes nothing.
    pub fn icc_profile(&mut self) -> (r: Result<Option<Vec<u8>>, ImageError>)
        ensures
            r is Ok,
            *final(self) == *old(self),
            r matches Ok(o) ==> {
                &&& (o is Some <==> image_icc(old(self).spec_engine()) is Some)
                &&& (o matches Some(v) ==> image_icc(old(self).spec_engine()) matches Some(s) && v@
                    == s)
            },
    {
        Ok(engine_original_icc(&self.inner))
    }

    /// Installs `limits` as the active policy, after checking that the
    /// policy only restricts categories the adapter supports and that the
    /// already-known image dimensions satisfy the declared ceilings. Only
    /// the stored policy ever changes; on failure even it remains the
    /// previous value.
    pub fn set_limits(&mut self, limits: Limits) -> (r: Result<(), ImageError>)
        ensures
            r is Ok <==> limits.spec_fits_width(old(self).spec_width())
                && limits.spec_fits_height(old(self).spec_height()),
            r is Ok ==> {
                &&& final(self).spec_limits() == limits
                &&& final(self).spec_engine() == old(self).spec_engine()
                &&& final(self).spec_width() == old(self).spec_width()
                &&& final(self).spec_height() == old(self).spec_height()
                &&& final(self).spec_pixel_format() == old(self).spec_pixel_format()
            },
            r is Err ==> *final(self) == *old(self),
            r matches Err(e) ==> e matches ImageError::Limits(le) && le.kind
                == LimitErrorKind::DimensionError,
    {
        match limits.check_support(&LimitSupport::default()) {
            Ok(()) => {},
            Err(e) => {
                return Err(e);
            },
        }

        let (width, height) = self.dimensions();
        match limits.check_dimensions(width, height) {
            Ok(()) => {},
            Err(e) => {
                return Err(e);
            },
        }

        proof {
            use_type_invariant(&*self);
        }
        self.limits = limits;

        Ok(())
    }

    /// Renders the keyframe at `index` into `buf`. True CMYK sources are
    /// refused with an `Unsupported` error before the engine is asked to
    /// render anything; an engine render failure surfaces as a `Decoding`
    /// error wrapping the engine's diagnostic verbatim. The call succeeds
    /// exactly when the source is not CMYK and the engine renders at least
    /// a buffer's worth of samples; `buf` then holds exactly the first
    /// `buf.len()` of the engine's converted samples, in their interleaved
    /// order (color, then black and alpha channels: the committed layout,
    /// so the buffer matches the committed color type even for sources
    /// with further extra channels). On any failure `buf` is untouched.
    fn render_frame(self, index: usize, buf: &mut Vec<u8>) -> (r: Result<(), ImageError>)
        requires
            old(buf)@.len() == self.spec_output_len(),
        ensures
            final(buf)@.len() == old(buf)@.len(),
            r is Err ==> final(buf)@ == old(buf)@,
            r is Ok <==> ({
                &&& extended_color_type_of(self.spec_pixel_format()) != ExtendedColorType::Cmyk8
                &&& render_outcome_of(self.spec_engine(), index) matches Ok(bytes) && bytes.len()
                    >= old(buf)@.len()
            }),
            r is Ok ==> (render_outcome_of(self.spec_engine(), index) matches Ok(bytes)
                && final(buf)@ == bytes.subrange(0, old(buf)@.len() as int)),
            extended_color_type_of(self.spec_pixel_format()) != ExtendedColorType::Cmyk8 ==> (
            render_outcome_of(self.spec_engine(), index) matches Err(s) ==> (r matches Err(
                ImageError::Decoding(de),
            ) && de.message@ == s)),
            extended_color_type_of(self.spec_pixel_format()) == ExtendedColorType::Cmyk8 <==> r
                matches Err(ImageError::Unsupported(_)),
            r matches Err(ImageError::Unsupported(u)) ==> {
                &&& u.format == ImageFormatHint::Exact(ImageFormat::Jxl)
                &&& u.kind == UnsupportedErrorKind::Color(ExtendedColorType::Cmyk8)
            },
            r matches Err(ImageError::Decoding(de)) ==> de.format == ImageFormatHint::Exact(
                ImageFormat::Jxl,
            ),
            !(r matches Err(ImageError::Limits(_))),
    {
        let color_type = self.original_color_type();
        if color_type == ExtendedColorType::Cmyk8 {
            return Err(ImageError::Unsupported(UnsupportedError::from_format_and_kind(
                ImageFormatHint::Exact(ImageFormat::Jxl),
                UnsupportedErrorKind::Color(color_type),
            )));
        }

        let len = buf.len();
        let (bytes, written) = match engine_render_into_bytes(&self.inner, index, len) {
            Ok(rendered) => rendered,
            Err(msg) => {
                return Err(ImageError::Decoding(DecodingError::new(
                    ImageFormatHint::Exact(ImageFormat::Jxl),
                    msg,
                )));
            },
        };

        proof {
            if written == len {
                assert(bytes@ =~= render_outcome_of(self.inner, index)->Ok_0.subrange(
                    0,
                    len as int,
                ));
            }
        }
        commit_rendered(buf, bytes, written)
    }

    /// Reads the still image (keyframe 0) into `buf`, consuming the
    /// decoder: reading an image is a one-shot, terminal operation.
    /// `buf` must hold exactly `width * height * bytes_per_pixel` bytes of
    /// the committed color type; exactly when the source is not CMYK and
    /// the engine renders the frame, every byte of `buf` is the matching
    /// converted sample, in the engine's interleaved order; on any failure
    /// `buf` is left untouched.
    pub fn read_image(self, buf: &mut Vec<u8>) -> (r: Result<(), ImageError>)
        requires
            old(buf)@.len() == self.spec_output_len(),
        ensures
            final(buf)@.len() == old(buf)@.len(),
            r is Err ==> final(buf)@ == old(buf)@,
            r is Ok <==> ({
                &&& extended_color_type_of(self.spec_pixel_format()) != ExtendedColorType::Cmyk8
                &&& render_outcome_of(self.spec_engine(), 0) matches Ok(bytes) && bytes.len()
                    >= old(buf)@.len()
            }),
            r is Ok ==> (render_outcome_of(self.spec_engine(), 0) matches Ok(bytes)
                && final(buf)@ == bytes.subrange(0, old(buf)@.len() as int)),
            extended_color_type_of(self.spec_pixel_format()) != ExtendedColorType::Cmyk8 ==> (
            render_outcome_of(self.spec_engine(), 0) matches Err(s) ==> (r matches Err(
                ImageError::Decoding(de),
            ) && de.message@ == s)),
            extended_color_type_of(self.spec_pixel_format()) == ExtendedColorType::Cmyk8 <==> r
                matches Err(ImageError::Unsupported(_)),
            r matches Err(ImageError::Unsupported(u)) ==> {
                &&& u.format == ImageFormatHint::Exact(ImageFormat::Jxl)
                &&& u.kind == UnsupportedErrorKind::Color(ExtendedColorType::Cmyk8)
            },
            r matches Err(ImageError::Decoding(de)) ==> de.format == ImageFormatHint::Exact(
                ImageFormat::Jxl,
            ),
            !(r matches Err(ImageError::Limits(_))),
    {
        self.render_frame(0, buf)
    }

    /// `read_image` behind a box, for dynamic-dispatch contexts where the
    /// concrete decoder type is not known at compile time.
    pub fn read_image_boxed(self: Box<Self>, buf: &mut Vec<u8>) -> (r: Result<(), ImageError>)
        requires
            old(buf)@.len() == self.spec_output_len(),
        ensures
            final(buf)@.len() == old(buf)@.len(),
            r is Err ==> final(buf)@ == old(buf)@,
            r is Ok <==> ({
                &&& extended_color_type_of(self.spec_pixel_format()) != ExtendedColorType::Cmyk8
                &&& render_outcome_of(self.spec_engine(), 0) matches Ok(bytes) && bytes.len()
                    >= old(buf)@.len()
            }),
            r is Ok ==> (render_outcome_of(self.spec_engine(), 0) matches Ok(bytes)
                && final(buf)@ == bytes.subrange(0, old(buf)@.len() as int)),
            extended_color_type_of(self.spec_pixel_format()) != ExtendedColorType::Cmyk8 ==> (
            render_outcome_of(self.spec_engine(), 0) matches Err(s) ==> (r matches Err(
                ImageError::Decoding(de),
            ) && de.message@ == s)),
            extended_color_type_of(self.spec_pixel_format()) == ExtendedColorType::Cmyk8 <==> r
                matches Err(ImageError::Unsupported(_)),
            r matches Err(ImageError::Unsupported(u)) ==> {
                &&& u.format == ImageFormatHint::Exact(ImageFormat::Jxl)
                &&& u.kind == UnsupportedErrorKind::Color(ExtendedColorType::Cmyk8)
            },
            r matches Err(ImageError::Decoding(de)) ==> de.format == ImageFormatHint::Exact(
                ImageFormat::Jxl,
            ),
            !(r matches Err(ImageError::Limits(_))),
    {
        (*self).read_image(buf)
    }
}

/// Commits the engine's converted samples to the caller's buffer. Whatever
/// the engine handed back: exactly when it filled a whole buffer's worth of
/// samples, the buffer is replaced wholesale by them; otherwise the buffer
/// is left untouched and the short render is reported as a decoding error.
fn commit_rendered(buf: &mut Vec<u8>, bytes: Vec<u8>, written: usize) -> (r: Result<
    (),
    ImageError,
>)
    requires
        bytes@.len() == old(buf)@.len(),
    ensures
        final(buf)@.len() == old(buf)@.len(),
        r is Ok <==> written == old(buf)@.len(),
        r is Ok ==> final(buf)@ == bytes@,
        r is Err ==> final(buf)@ == old(buf)@,
        r matches Err(e) ==> e matches ImageError::Decoding(de) && de.format
            == ImageFormatHint::Exact(ImageFormat::Jxl),
{
    if written == buf.len() {
        *buf = bytes;
        Ok(())
    } else {
        Err(ImageError::Decoding(DecodingError::new(
            ImageFormatHint::Exact(ImageFormat::Jxl),
            String::from_str("engine rendered fewer samples than the output buffer holds"),
        )))
    }
}

/// For every source outside the CMYK family, `color_type` and
/// `original_color_type` report layouts that agree on the channel count;
/// for a CMYK source, `color_type` commits to an RGB-shaped layout for
/// buffer sizing while `original_color_type` reports the CMYK marker that
/// makes `read_image` refuse the render.
pub proof fn lemma_reported_color_types_agree(d: &JxlDecoder)
    ensures
        !d.spec_pixel_format().is_cmyk() ==> color_type_of(
            d.spec_pixel_format(),
        ).spec_bytes_per_pixel() == extended_color_type_of(
            d.spec_pixel_format(),
        ).spec_channel_count(),
        d.spec_pixel_format().is_cmyk() ==> extended_color_type_of(d.spec_pixel_format())
            == ExtendedColorType::Cmyk8,
{
}

} // verus!
