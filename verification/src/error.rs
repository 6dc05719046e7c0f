use vstd::prelude::*;

use crate::color::ExtendedColorType;

verus! {

/// Image format the adapter decodes; kept as an enumeration so error values
/// can carry an exact format tag once the bitstream has been recognized.
#[derive(Clone, Copy, Debug, PartialEq, Eq, Structural)]
pub enum ImageFormat {
    /// JPEG XL.
    Jxl,
}

/// Hint describing which format an error refers to. At open time the adapter
/// cannot yet tell whether a failure means "not JPEG XL" or "malformed JPEG
/// XL", so open failures carry the unknown hint.
#[derive(Clone, Copy, Debug, PartialEq, Eq, Structural)]
pub enum ImageFormatHint {
    /// The format could not be determined.
    Unknown,
    /// The named format.
    Exact(ImageFormat),
}

/// Category of an unsupported-format condition.
#[derive(Clone, Copy, Debug, PartialEq, Eq, Structural)]
pub enum UnsupportedErrorKind {
    /// The source color model cannot be rendered by this adapter.
    Color(ExtendedColorType),
}

/// The external engine failed to parse headers or render a frame; the
/// engine's own diagnostic is carried verbatim.
#[derive(Debug)]
pub struct DecodingError {
    /// Format the failure refers to.
    pub format: ImageFormatHint,
    /// Diagnostic reported by the decoding engine.
    pub message: String,
}

/// The source image uses a feature this adapter refuses to render.
#[derive(Clone, Copy, Debug, PartialEq, Eq, Structural)]
pub struct UnsupportedError {
    /// Format the condition refers to.
    pub format: ImageFormatHint,
    /// The specific unsupported feature.
    pub kind: UnsupportedErrorKind,
}

/// Reason a limits policy was rejected.
#[derive(Clone, Copy, Debug, PartialEq, Eq, Structural)]
pub enum LimitErrorKind {
    /// The image dimensions exceed a declared dimension ceiling.
    DimensionError,
}

/// A requested resource-limits policy is infeasible for this image.
#[derive(Clone, Copy, Debug, PartialEq, Eq, Structural)]
pub struct LimitError {
    /// The specific infeasibility.
    pub kind: LimitErrorKind,
}

/// Terminal failure of a decoding operation; no error is recovered locally.
#[derive(Debug)]
pub enum ImageError {
    /// The external engine failed to parse or render.
    Decoding(DecodingError),
    /// The source image cannot be rendered faithfully.
    Unsupported(UnsupportedError),
    /// A requested limits policy is infeasible.
    Limits(LimitError),
}

impl DecodingError {
    /// Packages an engine diagnostic under a format hint.
    pub fn new(format: ImageFormatHint, message: String) -> (r: DecodingError)
        ensures
            r.format == format,
            r.message == message,
    {
        DecodingError { format, message }
    }
}

impl UnsupportedError {
    /// Packages an unsupported-feature condition under a format hint.
    pub fn from_format_and_kind(format: ImageFormatHint, kind: UnsupportedErrorKind) -> (r:
        UnsupportedError)
        ensures
            r.format == format,
            r.kind == kind,
    {
        UnsupportedError { format, kind }
    }
}

impl ImageError {
    /// Short description of the error category, usable in host diagnostics.
    pub fn description(&self) -> (r: &'static str)
        ensures
            self matches ImageError::Decoding(_) ==> r@ == "decoding failed"@,
            self matches ImageError::Unsupported(_) ==> r@ == "unsupported image feature"@,
            self matches ImageError::Limits(_) ==> r@ == "limits are exceeded"@,
    {
        match self {
            ImageError::Decoding(_) => "decoding failed",
            ImageError::Unsupported(_) => "unsupported image feature",
            ImageError::Limits(_) => "limits are exceeded",
        }
    }
}

} // verus!
