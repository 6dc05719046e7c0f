//! Adapter exposing a JPEG XL bitstream decoder through a fixed,
//! integer-sample image-decoding interface.
//!
//! The bitstream itself is decoded by the `jxl-oxide` engine; this crate
//! reconciles the engine's pixel formats with the host color-type taxonomy,
//! enforces resource limits before a decode is committed to, and refuses
//! formats it cannot render faithfully instead of producing corrupted output.

mod color;
mod decoder;
pub mod engine;
mod error;
mod limits;

pub use decoder::JxlDecoder;
pub use decoder::lemma_reported_color_types_agree;

pub use color::ColorType;
pub use color::ExtendedColorType;
pub use color::PixelFormat;
pub use color::color_type_of;
pub use color::extended_color_type_of;
pub use color::lemma_color_type_channel_agreement;
pub use color::lemma_cmyk_reported_as_rgb;
pub use error::DecodingError;
pub use error::ImageError;
pub use error::ImageFormat;
pub use error::ImageFormatHint;
pub use error::LimitError;
pub use error::LimitErrorKind;
pub use error::UnsupportedError;
pub use error::UnsupportedErrorKind;
pub use limits::LimitSupport;
pub use limits::Limits;
