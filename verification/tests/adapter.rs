use jxl_adapter::ColorType;
use jxl_adapter::DecodingError;
use jxl_adapter::ExtendedColorType;
use jxl_adapter::ImageError;
use jxl_adapter::ImageFormat;
use jxl_adapter::ImageFormatHint;
use jxl_adapter::JxlDecoder;
use jxl_adapter::LimitErrorKind;
use jxl_adapter::LimitSupport;
use jxl_adapter::Limits;
use jxl_adapter::PixelFormat;
use jxl_adapter::UnsupportedError;
use jxl_adapter::UnsupportedErrorKind;

#[test]
fn color_type_matches_extended_for_non_cmyk() {
    let pairs = [
        (PixelFormat::Gray, ColorType::L8, ExtendedColorType::L8),
        (PixelFormat::Graya, ColorType::La8, ExtendedColorType::La8),
        (PixelFormat::Rgb, ColorType::Rgb8, ExtendedColorType::Rgb8),
        (PixelFormat::Rgba, ColorType::Rgba8, ExtendedColorType::Rgba8),
    ];
    for (pf, coarse, precise) in pairs {
        assert_eq!(pf.color_type(), coarse);
        assert_eq!(pf.extended_color_type(), precise);
        assert_eq!(
            pf.color_type().bytes_per_pixel(),
            pf.extended_color_type().channel_count()
        );
    }
}

#[test]
fn cmyk_is_sized_as_rgb_but_reported_as_cmyk() {
    assert_eq!(PixelFormat::Cmyk.color_type(), ColorType::Rgb8);
    assert_eq!(PixelFormat::Cmyka.color_type(), ColorType::Rgba8);
    assert_eq!(
        PixelFormat::Cmyk.extended_color_type(),
        ExtendedColorType::Cmyk8
    );
    assert_eq!(
        PixelFormat::Cmyka.extended_color_type(),
        ExtendedColorType::Cmyk8
    );
}

#[test]
fn bytes_per_pixel_values() {
    assert_eq!(ColorType::L8.bytes_per_pixel(), 1);
    assert_eq!(ColorType::La8.bytes_per_pixel(), 2);
    assert_eq!(ColorType::Rgb8.bytes_per_pixel(), 3);
    assert_eq!(ColorType::Rgba8.bytes_per_pixel(), 4);
}

#[test]
fn channel_count_values() {
    assert_eq!(ExtendedColorType::L8.channel_count(), 1);
    assert_eq!(ExtendedColorType::La8.channel_count(), 2);
    assert_eq!(ExtendedColorType::Rgb8.channel_count(), 3);
    assert_eq!(ExtendedColorType::Rgba8.channel_count(), 4);
    assert_eq!(ExtendedColorType::Cmyk8.channel_count(), 4);
}

#[test]
fn no_limits_is_unrestricted() {
    let limits = Limits::no_limits();
    assert!(limits.max_image_width.is_none());
    assert!(limits.max_image_height.is_none());
    assert!(limits.max_alloc.is_none());
    assert!(limits.check_dimensions(u32::MAX, u32::MAX).is_ok());
}

#[test]
fn check_support_accepts_baseline() {
    let limits = Limits {
        max_image_width: Some(1),
        max_image_height: Some(1),
        max_alloc: Some(1),
    };
    assert!(limits.check_support(&LimitSupport::default()).is_ok());
}

#[test]
fn check_dimensions_within_ceilings() {
    let limits = Limits {
        max_image_width: Some(100),
        max_image_height: Some(50),
        max_alloc: None,
    };
    assert!(limits.check_dimensions(100, 50).is_ok());
    assert!(limits.check_dimensions(1, 1).is_ok());
}

#[test]
fn check_dimensions_rejects_excess_width() {
    let limits = Limits {
        max_image_width: Some(100),
        max_image_height: None,
        max_alloc: None,
    };
    match limits.check_dimensions(101, 1) {
        Err(ImageError::Limits(le)) => assert_eq!(le.kind, LimitErrorKind::DimensionError),
        _ => panic!("expected a dimension limit error"),
    }
}

#[test]
fn check_dimensions_rejects_excess_height() {
    let limits = Limits {
        max_image_width: None,
        max_image_height: Some(64),
        max_alloc: None,
    };
    match limits.check_dimensions(1, 65) {
        Err(ImageError::Limits(le)) => assert_eq!(le.kind, LimitErrorKind::DimensionError),
        _ => panic!("expected a dimension limit error"),
    }
}

#[test]
fn open_garbage_is_a_decoding_error_with_unknown_hint() {
    let data = [0x00u8, 0x01, 0x02, 0x03, 0x04, 0x05, 0x06, 0x07];
    match JxlDecoder::new(&data) {
        Err(ImageError::Decoding(de)) => {
            assert_eq!(de.format, ImageFormatHint::Unknown);
        }
        Err(_) => panic!("expected a decoding error"),
        Ok(_) => panic!("garbage must not open"),
    }
}

#[test]
fn open_empty_stream_fails() {
    match JxlDecoder::new(&[]) {
        Err(ImageError::Decoding(de)) => {
            assert_eq!(de.format, ImageFormatHint::Unknown);
            assert!(!de.message.is_empty());
        }
        Err(_) => panic!("expected a decoding error"),
        Ok(_) => panic!("an empty stream must not open"),
    }
}

#[test]
fn open_other_image_format_fails() {
    // A JPEG start-of-image marker followed by filler: recognizably not a
    // JPEG XL bitstream, so the engine must refuse it at open time.
    let data = [0xFFu8, 0xD8, 0xFF, 0xE0, 0x00, 0x10, 0x4A, 0x46, 0x49, 0x46];
    match JxlDecoder::new(&data) {
        Err(ImageError::Decoding(de)) => assert_eq!(de.format, ImageFormatHint::Unknown),
        Err(_) => panic!("expected a decoding error"),
        Ok(_) => panic!("a JPEG stream must not open"),
    }
}

#[test]
fn open_truncated_signature_fails() {
    // The codestream signature alone, with the headers cut off.
    let data = [0xFFu8, 0x0A];
    assert!(JxlDecoder::new(&data).is_err());
}

#[test]
fn decoding_error_keeps_hint_and_message() {
    let e = DecodingError::new(
        ImageFormatHint::Exact(ImageFormat::Jxl),
        String::from("boom"),
    );
    assert_eq!(e.format, ImageFormatHint::Exact(ImageFormat::Jxl));
    assert_eq!(e.message, "boom");
}

#[test]
fn unsupported_error_keeps_format_and_kind() {
    let e = UnsupportedError::from_format_and_kind(
        ImageFormatHint::Exact(ImageFormat::Jxl),
        UnsupportedErrorKind::Color(ExtendedColorType::Cmyk8),
    );
    assert_eq!(e.format, ImageFormatHint::Exact(ImageFormat::Jxl));
    assert_eq!(
        e.kind,
        UnsupportedErrorKind::Color(ExtendedColorType::Cmyk8)
    );
}

#[test]
fn error_descriptions() {
    let decoding = ImageError::Decoding(DecodingError::new(
        ImageFormatHint::Unknown,
        String::from("x"),
    ));
    assert_eq!(decoding.description(), "decoding failed");
    let unsupported = ImageError::Unsupported(UnsupportedError::from_format_and_kind(
        ImageFormatHint::Exact(ImageFormat::Jxl),
        UnsupportedErrorKind::Color(ExtendedColorType::Cmyk8),
    ));
    assert_eq!(unsupported.description(), "unsupported image feature");
}

/// A hand-assembled JPEG XL codestream holding the headers of a 2x2
/// grayscale, 8-bit, non-XYB image (and no frame data).
fn gray_2x2_header_stream() -> Vec<u8> {
    vec![0xFF, 0x0A, 0x08, 0x10, 0x10, 0x14, 0x37, 0x02]
}

#[test]
fn open_gray_2x2_reports_metadata() {
    let data = gray_2x2_header_stream();
    let decoder = match JxlDecoder::new(&data) {
        Ok(d) => d,
        Err(ImageError::Decoding(de)) => panic!("engine refused the stream: {}", de.message),
        Err(_) => panic!("unexpected error kind"),
    };
    assert_eq!(decoder.dimensions(), (2, 2));
    assert_eq!(decoder.color_type(), ColorType::L8);
    assert_eq!(decoder.original_color_type(), ExtendedColorType::L8);
    assert_eq!(decoder.total_bytes(), Some(4));
}

#[test]
fn set_limits_below_dimensions_fails_and_keeps_policy() {
    let data = gray_2x2_header_stream();
    let mut decoder = JxlDecoder::new(&data).expect("the stream must open");
    let tight = Limits {
        max_image_width: Some(1),
        max_image_height: Some(1),
        max_alloc: None,
    };
    match decoder.set_limits(tight) {
        Err(ImageError::Limits(le)) => assert_eq!(le.kind, LimitErrorKind::DimensionError),
        _ => panic!("a ceiling below the image dimensions must be rejected"),
    }
    let exact = Limits {
        max_image_width: Some(2),
        max_image_height: Some(2),
        max_alloc: None,
    };
    assert!(decoder.set_limits(exact).is_ok());
}

#[test]
fn icc_profile_of_plain_stream_is_none() {
    let data = gray_2x2_header_stream();
    let mut decoder = JxlDecoder::new(&data).expect("the stream must open");
    match decoder.icc_profile() {
        Ok(icc) => assert!(icc.is_none()),
        Err(_) => panic!("icc_profile never fails"),
    }
}

#[test]
fn read_image_without_frame_data_fails_and_leaves_buffer_untouched() {
    let data = gray_2x2_header_stream();
    let decoder = JxlDecoder::new(&data).expect("the stream must open");
    let mut buf = vec![7u8, 7, 7, 7];
    match decoder.read_image(&mut buf) {
        Err(ImageError::Decoding(de)) => {
            assert_eq!(de.format, ImageFormatHint::Exact(ImageFormat::Jxl));
        }
        Err(_) => panic!("expected a decoding error"),
        Ok(()) => panic!("there is no frame to render"),
    }
    assert_eq!(buf, vec![7u8, 7, 7, 7]);
}

/// A complete hand-assembled JPEG XL codestream: a 2x2 opaque grayscale,
/// 8-bit image whose single modular frame decodes every sample to zero
/// (one leaf in the meta-adaptive tree, zero predictor, single-symbol
/// prefix codes throughout).
fn gray_2x2_black_image() -> Vec<u8> {
    vec![
        0xFF, 0x0A, 0x08, 0x10, 0x10, 0x14, 0x37, 0x02, 0x08, 0x02, 0x09, 0x0C, 0x00, 0x4B, 0x20,
        0x18,
    ]
}

#[test]
fn decode_gray_2x2_end_to_end() {
    let data = gray_2x2_black_image();
    let decoder = match JxlDecoder::new(&data) {
        Ok(d) => d,
        Err(ImageError::Decoding(de)) => panic!("engine refused the stream: {}", de.message),
        Err(_) => panic!("unexpected error kind"),
    };
    assert_eq!(decoder.dimensions(), (2, 2));
    assert_eq!(decoder.color_type(), ColorType::L8);
    assert_eq!(decoder.original_color_type(), ExtendedColorType::L8);
    assert_eq!(decoder.total_bytes(), Some(4));

    let mut buf = vec![0xAAu8; 4];
    match decoder.read_image(&mut buf) {
        Ok(()) => {}
        Err(ImageError::Decoding(de)) => panic!("render failed: {}", de.message),
        Err(_) => panic!("unexpected error kind"),
    }
    // Every decoded sample is 0.0, and the conversion rule
    // clamp(round(sample * 255 + 0.5), 0, 255) maps it to luminance 0.
    assert_eq!(buf, vec![0u8, 0, 0, 0]);
}

/// Like `gray_2x2_black_image`, but with the restoration filters switched
/// off and a two-symbol prefix code, so the four samples decode to the
/// distinct luminance values 10, 200, 200, 10 in row-major order.
fn gray_2x2_patterned_image() -> Vec<u8> {
    vec![
        0xFF, 0x0A, 0x08, 0x10, 0x10, 0x14, 0x37, 0x02, 0x08, 0x02, 0x01, 0x00, 0x20, 0x00, 0x4B,
        0xE0, 0x47, 0xC8, 0xA2, 0x00, 0x79, 0x0C,
    ]
}

#[test]
fn decode_gray_2x2_pattern_yields_interleaved_samples() {
    let data = gray_2x2_patterned_image();
    let decoder = match JxlDecoder::new(&data) {
        Ok(d) => d,
        Err(ImageError::Decoding(de)) => panic!("engine refused the stream: {}", de.message),
        Err(_) => panic!("unexpected error kind"),
    };
    assert_eq!(decoder.dimensions(), (2, 2));
    assert_eq!(decoder.color_type(), ColorType::L8);

    let mut buf = vec![0u8; 4];
    match decoder.read_image(&mut buf) {
        Ok(()) => {}
        Err(ImageError::Decoding(de)) => panic!("render failed: {}", de.message),
        Err(_) => panic!("unexpected error kind"),
    }
    // Integer samples pass through the engine's 8-bit conversion unchanged.
    assert_eq!(buf, vec![10u8, 200, 200, 10]);
}

/// A hand-assembled JPEG XL codestream holding the headers of a 2x2 CMYK
/// image: a black extra channel, and an embedded (header-only) ICC profile
/// whose color space field reads CMYK.
fn cmyk_2x2_header_stream() -> Vec<u8> {
    vec![
        0xFF, 0x0A, 0x08, 0x10, 0x30, 0x0A, 0x80, 0x50, 0x39, 0xF9, 0xEF, 0x0F, 0x00, 0x00, 0x1C,
        0x00, 0x10, 0x00, 0x08, 0x00, 0x00, 0x00, 0x00, 0x00, 0x00, 0x00, 0x00, 0x00, 0x00, 0x00,
        0x00, 0x00, 0x00, 0x00, 0x00, 0xF0, 0x08, 0x86, 0x4E, 0x0D, 0x00, 0x00, 0x00, 0x00, 0x00,
        0x00, 0x00, 0x00, 0x00, 0x00, 0x00, 0x00, 0x00, 0x00, 0x00, 0x00, 0x00, 0x00, 0x00, 0x00,
        0x00, 0x00, 0x00, 0x00, 0x00, 0x00, 0x00, 0x00, 0x00, 0x00, 0x00, 0x00, 0x00, 0x00, 0x00,
        0x00, 0x00, 0x00, 0x00, 0x00, 0x00, 0x00, 0x00, 0x00, 0x00, 0x00, 0x00, 0x00, 0x00, 0x00,
        0x00, 0x00, 0x00, 0x00, 0x00, 0x00, 0x00, 0x00, 0x00, 0x00, 0x00, 0x00, 0x00, 0x00, 0x00,
        0x00, 0x00, 0x00, 0x00, 0x00, 0x00, 0x00, 0x00, 0x00, 0x00, 0x00, 0x00, 0x00, 0x00, 0x00,
        0x00, 0x00, 0x00, 0x00, 0x00, 0x00, 0x00, 0x00, 0x00, 0x00, 0x00, 0x00, 0x00, 0x00, 0x00,
        0x00, 0x00, 0x00, 0x00, 0x00, 0x00, 0x00, 0x00, 0x00, 0x00, 0x00, 0x00, 0x00,
    ]
}

#[test]
fn cmyk_source_is_sized_as_rgb_and_refused_by_read_image() {
    let data = cmyk_2x2_header_stream();
    let decoder = match JxlDecoder::new(&data) {
        Ok(d) => d,
        Err(ImageError::Decoding(de)) => panic!("engine refused the stream: {}", de.message),
        Err(_) => panic!("unexpected error kind"),
    };
    assert_eq!(decoder.dimensions(), (2, 2));
    // Sizing still succeeds: the coarse color type folds CMYK into RGB8.
    assert_eq!(decoder.color_type(), ColorType::Rgb8);
    assert_eq!(decoder.original_color_type(), ExtendedColorType::Cmyk8);
    assert_eq!(decoder.total_bytes(), Some(12));

    let mut buf = vec![0x55u8; 12];
    match decoder.read_image(&mut buf) {
        Err(ImageError::Unsupported(u)) => {
            assert_eq!(u.format, ImageFormatHint::Exact(ImageFormat::Jxl));
            assert_eq!(
                u.kind,
                UnsupportedErrorKind::Color(ExtendedColorType::Cmyk8)
            );
        }
        Err(_) => panic!("expected an unsupported-color error"),
        Ok(()) => panic!("true CMYK must be refused"),
    }
    assert_eq!(buf, vec![0x55u8; 12]);
}

#[test]
fn decoding_the_same_bitstream_twice_is_deterministic() {
    let data = gray_2x2_patterned_image();
    let mut first = vec![0u8; 4];
    let mut second = vec![0xFFu8; 4];
    JxlDecoder::new(&data)
        .expect("the stream must open")
        .read_image(&mut first)
        .expect("the image must decode");
    JxlDecoder::new(&data)
        .expect("the stream must open")
        .read_image(&mut second)
        .expect("the image must decode");
    assert_eq!(first, second);
    assert_eq!(first, vec![10u8, 200, 200, 10]);
}

#[test]
fn icc_profile_of_cmyk_stream_is_passed_through() {
    let data = cmyk_2x2_header_stream();
    let mut decoder = JxlDecoder::new(&data).expect("the stream must open");
    let icc = decoder
        .icc_profile()
        .expect("icc_profile never fails")
        .expect("the stream embeds a profile");
    assert_eq!(icc.len(), 128);
    assert_eq!(&icc[16..20], b"CMYK");
}

#[test]
fn read_image_boxed_decodes_like_read_image() {
    let data = gray_2x2_patterned_image();
    let decoder = Box::new(JxlDecoder::new(&data).expect("the stream must open"));
    let mut buf = vec![0u8; 4];
    decoder
        .read_image_boxed(&mut buf)
        .expect("the image must decode");
    assert_eq!(buf, vec![10u8, 200, 200, 10]);
}
