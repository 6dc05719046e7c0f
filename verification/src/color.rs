use vstd::prelude::*;

verus! {

/// Channel layout of a rendered image as classified by the decoding engine.
#[derive(Clone, Copy, Debug, PartialEq, Eq, Structural)]
pub enum PixelFormat {
    /// Grayscale, one channel.
    Gray,
    /// Grayscale with alpha, two channels.
    Graya,
    /// RGB, three channels.
    Rgb,
    /// RGB with alpha, four channels.
    Rgba,
    /// CMYK, four channels.
    Cmyk,
    /// CMYK with alpha, five channels.
    Cmyka,
}

/// Integer sample layout the adapter commits to producing in the output
/// buffer; CMYK sources are folded into the RGB variants for sizing.
#[derive(Clone, Copy, Debug, PartialEq, Eq, Structural)]
pub enum ColorType {
    /// 8-bit luminance.
    L8,
    /// 8-bit luminance with alpha.
    La8,
    /// 8-bit RGB.
    Rgb8,
    /// 8-bit RGB with alpha.
    Rgba8,
}

/// Precise color model of the source image, including a marker for CMYK
/// sources that the adapter refuses to render.
#[derive(Clone, Copy, Debug, PartialEq, Eq, Structural)]
pub enum ExtendedColorType {
    /// 8-bit luminance.
    L8,
    /// 8-bit luminance with alpha.
    La8,
    /// 8-bit RGB.
    Rgb8,
    /// 8-bit RGB with alpha.
    Rgba8,
    /// 8-bit CMYK, with or without alpha.
    Cmyk8,
}

impl ColorType {
    /// Bytes each pixel occupies in an output buffer of this layout.
    pub open spec fn spec_bytes_per_pixel(self) -> u32 {
        match self {
            ColorType::L8 => 1,
            ColorType::La8 => 2,
            ColorType::Rgb8 => 3,
            ColorType::Rgba8 => 4,
        }
    }

    /// Bytes each pixel occupies in an output buffer of this layout.
    pub fn bytes_per_pixel(self) -> (r: u32)
        ensures
            r == self.spec_bytes_per_pixel(),
    {
        match self {
            ColorType::L8 => 1,
            ColorType::La8 => 2,
            ColorType::Rgb8 => 3,
            ColorType::Rgba8 => 4,
        }
    }
}

impl ExtendedColorType {
    /// Number of channels of the source color model.
    pub open spec fn spec_channel_count(self) -> u32 {
        match self {
            ExtendedColorType::L8 => 1,
            ExtendedColorType::La8 => 2,
            ExtendedColorType::Rgb8 => 3,
            ExtendedColorType::Rgba8 => 4,
            ExtendedColorType::Cmyk8 => 4,
        }
    }

    /// Number of channels of the source color model.
    pub fn channel_count(self) -> (r: u32)
        ensures
            r == self.spec_channel_count(),
    {
        match self {
            ExtendedColorType::L8 => 1,
            ExtendedColorType::La8 => 2,
            ExtendedColorType::Rgb8 => 3,
            ExtendedColorType::Rgba8 => 4,
            ExtendedColorType::Cmyk8 => 4,
        }
    }
}

/// Coarse mapping used for buffer sizing: CMYK sources are declared RGB so
/// that callers still obtain a usable sample layout.
pub open spec fn color_type_of(pf: PixelFormat) -> ColorType {
    match pf {
        PixelFormat::Gray => ColorType::L8,
        PixelFormat::Graya => ColorType::La8,
        PixelFormat::Rgb => ColorType::Rgb8,
        PixelFormat::Rgba => ColorType::Rgba8,
        PixelFormat::Cmyk => ColorType::Rgb8,
        PixelFormat::Cmyka => ColorType::Rgba8,
    }
}

/// Precise mapping used for support gating: both CMYK variants surface the
/// single CMYK marker.
pub open spec fn extended_color_type_of(pf: PixelFormat) -> ExtendedColorType {
    match pf {
        PixelFormat::Gray => ExtendedColorType::L8,
        PixelFormat::Graya => ExtendedColorType::La8,
        PixelFormat::Rgb => ExtendedColorType::Rgb8,
        PixelFormat::Rgba => ExtendedColorType::Rgba8,
        PixelFormat::Cmyk => ExtendedColorType::Cmyk8,
        PixelFormat::Cmyka => ExtendedColorType::Cmyk8,
    }
}

impl PixelFormat {
    /// Whether the source color model is CMYK, with or without alpha.
    pub open spec fn is_cmyk(self) -> bool {
        self == PixelFormat::Cmyk || self == PixelFormat::Cmyka
    }

    /// Coarse color type committed to for output buffers of this format.
    pub fn color_type(self) -> (r: ColorType)
        ensures
            r == color_type_of(self),
    {
        match self {
            PixelFormat::Gray => ColorType::L8,
            PixelFormat::Graya => ColorType::La8,
            PixelFormat::Rgb => ColorType::Rgb8,
            PixelFormat::Rgba => ColorType::Rgba8,
            PixelFormat::Cmyk => ColorType::Rgb8,
            PixelFormat::Cmyka => ColorType::Rgba8,
        }
    }

    /// Precise color type of the source image in this format.
    pub fn extended_color_type(self) -> (r: ExtendedColorType)
        ensures
            r == extended_color_type_of(self),
    {
        match self {
            PixelFormat::Gray => ExtendedColorType::L8,
            PixelFormat::Graya => ExtendedColorType::La8,
            PixelFormat::Rgb => ExtendedColorType::Rgb8,
            PixelFormat::Rgba => ExtendedColorType::Rgba8,
            PixelFormat::Cmyk => ExtendedColorType::Cmyk8,
            PixelFormat::Cmyka => ExtendedColorType::Cmyk8,
        }
    }
}

/// For every pixel format outside the CMYK family, the coarse and the precise
/// mapping name the same layout, so they agree on the channel count:
/// L8 pairs with L8, La8 with La8, Rgb8 with Rgb8, and Rgba8 with Rgba8.
pub proof fn lemma_color_type_channel_agreement(pf: PixelFormat)
    requires
        !pf.is_cmyk(),
    ensures
        color_type_of(pf).spec_bytes_per_pixel() == extended_color_type_of(pf).spec_channel_count(),
        color_type_of(pf) == ColorType::L8 <==> extended_color_type_of(pf) == ExtendedColorType::L8,
        color_type_of(pf) == ColorType::La8 <==> extended_color_type_of(pf)
            == ExtendedColorType::La8,
        color_type_of(pf) == ColorType::Rgb8 <==> extended_color_type_of(pf)
            == ExtendedColorType::Rgb8,
        color_type_of(pf) == ColorType::Rgba8 <==> extended_color_type_of(pf)
            == ExtendedColorType::Rgba8,
{
}

/// For the CMYK family, the coarse mapping reports RGB8 (for CMYK) or RGBA8
/// (for CMYKA) while the precise mapping reports the CMYK marker for both.
pub proof fn lemma_cmyk_reported_as_rgb(pf: PixelFormat)
    requires
        pf.is_cmyk(),
    ensures
        extended_color_type_of(pf) == ExtendedColorType::Cmyk8,
        pf == PixelFormat::Cmyk ==> color_type_of(pf) == ColorType::Rgb8,
        pf == PixelFormat::Cmyka ==> color_type_of(pf) == ColorType::Rgba8,
{
}

} // verus!
