use avif_decode::AlphaImage;
use avif_decode::ChromaSampling;
use avif_decode::ColorMatrix;
use avif_decode::BitDepth;
use avif_decode::Error;
use avif_decode::Frame;
use avif_decode::Image;
use avif_decode::Range;
use avif_decode::color_convert;
use avif_decode::to_alpha;
use avif_decode::to_gray;
use avif_decode::to_image;

fn yuv8_frame(
    y: Vec<u8>,
    u: Vec<u8>,
    v: Vec<u8>,
    sampling: ChromaSampling,
    width: usize,
    height: usize,
    range: Range,
    matrix: Option<ColorMatrix>,
) -> Frame {
    Frame::Yuv8 { y, u, v, sampling, width, height, range, matrix }
}

#[test]
fn bt709_full_range_maps_luma_extremes_to_white_and_black() {
    let frame = yuv8_frame(
        vec![255, 0],
        vec![128, 128],
        vec![128, 128],
        ChromaSampling::Cs444,
        1,
        2,
        Range::Full,
        Some(ColorMatrix::BT709),
    );
    match color_convert(&frame).unwrap() {
        Image::Rgb8 { buf, width, height } => {
            assert_eq!((width, height), (1, 2));
            assert_eq!(buf, vec![255, 255, 255, 0, 0, 0]);
        },
        _ => panic!("expected an 8-bit RGB image"),
    }
}

#[test]
fn missing_matrix_defaults_to_bt709_for_color() {
    let with_default = yuv8_frame(
        vec![255],
        vec![128],
        vec![128],
        ChromaSampling::Cs444,
        1,
        1,
        Range::Full,
        None,
    );
    match color_convert(&with_default).unwrap() {
        Image::Rgb8 { buf, .. } => assert_eq!(buf, vec![255, 255, 255]),
        _ => panic!("expected an 8-bit RGB image"),
    }
}

#[test]
fn identity_sixteen_bit_full_range_passes_components_through() {
    let frame = Frame::Yuv16 {
        y: vec![100],
        u: vec![200],
        v: vec![300],
        sampling: ChromaSampling::Cs444,
        depth: BitDepth::Depth16,
        width: 1,
        height: 1,
        range: Range::Full,
        matrix: Some(ColorMatrix::Identity),
    };
    match color_convert(&frame).unwrap() {
        Image::Rgb16 { buf, .. } => {
            // the identity layout is GBR: R from V, G from Y, B from U
            assert_eq!(buf, vec![300, 100, 200]);
        },
        _ => panic!("expected a 16-bit RGB image"),
    }
}

#[test]
fn unsupported_matrix_coefficients_are_reported() {
    let frame = yuv8_frame(
        vec![1],
        vec![2],
        vec![3],
        ChromaSampling::Cs444,
        1,
        1,
        Range::Full,
        Some(ColorMatrix::BT2020CL),
    );
    assert_eq!(color_convert(&frame).unwrap_err(), Error::UnsupportedColorMetadata);
}

#[test]
fn monochrome_tagged_planes_are_an_invalid_chroma_format() {
    let frame = yuv8_frame(
        vec![1, 2],
        vec![],
        vec![],
        ChromaSampling::Monochrome,
        2,
        1,
        Range::Full,
        None,
    );
    assert_eq!(color_convert(&frame).unwrap_err(), Error::InvalidChromaFormat);
}

#[test]
fn sixteen_bit_identity_refuses_eight_bit_depth() {
    let frame = Frame::Mono16 {
        y: vec![1],
        depth: BitDepth::Depth8,
        width: 1,
        height: 1,
        range: Range::Full,
        matrix: None,
    };
    assert_eq!(color_convert(&frame).unwrap_err(), Error::UnsupportedColorMetadata);
}

#[test]
fn mono_frames_take_the_gray_path() {
    let frame = Frame::Mono8 {
        y: vec![0, 128, 255],
        width: 3,
        height: 1,
        range: Range::Full,
        matrix: None,
    };
    match color_convert(&frame).unwrap() {
        Image::Gray8 { buf, .. } => assert_eq!(buf, vec![0, 128, 255]),
        _ => panic!("expected an 8-bit gray image"),
    }
}

#[test]
fn alpha_extraction_rescales_limited_range_luma() {
    let frame = Frame::Mono8 {
        y: vec![16, 235, 128],
        width: 3,
        height: 1,
        range: Range::Limited,
        matrix: None,
    };
    match to_alpha(&frame).unwrap() {
        AlphaImage::Gray8 { buf, .. } => {
            // (v - 16) * 256 / 219, saturating: the studio range spread
            // over the full byte
            assert_eq!(buf, vec![0, 255, 130]);
        },
        _ => panic!("expected an 8-bit alpha image"),
    }
}

#[test]
fn alpha_extraction_ignores_chroma_planes() {
    let frame = yuv8_frame(
        vec![50, 60],
        vec![0, 255],
        vec![255, 0],
        ChromaSampling::Cs444,
        2,
        1,
        Range::Full,
        None,
    );
    match to_alpha(&frame).unwrap() {
        AlphaImage::Gray8 { buf, .. } => assert_eq!(buf, vec![50, 60]),
        _ => panic!("expected an 8-bit alpha image"),
    }
}

#[test]
fn gray_path_with_explicit_unsupported_matrix_fails() {
    let frame = Frame::Mono8 {
        y: vec![1],
        width: 1,
        height: 1,
        range: Range::Full,
        matrix: None,
    };
    assert_eq!(
        to_gray(Range::Full, ColorMatrix::ICtCp, &frame).unwrap_err(),
        Error::UnsupportedColorMetadata
    );
}

#[test]
fn end_to_end_full_range_white_frame_without_alpha() {
    let frame = yuv8_frame(
        vec![255, 255, 255, 255],
        vec![128],
        vec![128],
        ChromaSampling::Cs420,
        2,
        2,
        Range::Full,
        Some(ColorMatrix::BT709),
    );
    match to_image(frame, None, false).unwrap() {
        Image::Rgb8 { buf, width, height } => {
            assert_eq!((width, height), (2, 2));
            assert_eq!(buf, vec![255; 12]);
        },
        _ => panic!("expected an 8-bit RGB image"),
    }
}

#[test]
fn end_to_end_premultiplied_white_frame_with_half_alpha() {
    let color = yuv8_frame(
        vec![255, 255, 255, 255],
        vec![128],
        vec![128],
        ChromaSampling::Cs420,
        2,
        2,
        Range::Full,
        Some(ColorMatrix::BT709),
    );
    let alpha_frame = Frame::Mono8 {
        y: vec![128, 128, 128, 128],
        width: 2,
        height: 2,
        range: Range::Full,
        matrix: None,
    };
    let alpha = to_alpha(&alpha_frame).unwrap();
    match to_image(color, Some(alpha), true).unwrap() {
        Image::Rgba8 { buf, width, height } => {
            assert_eq!((width, height), (2, 2));
            // round(255 * 255 / 128) saturates to 255; alpha stays 128
            assert_eq!(buf, vec![255, 255, 255, 128, 255, 255, 255, 128, 255, 255, 255, 128, 255, 255, 255, 128]);
        },
        _ => panic!("expected an 8-bit RGBA image"),
    }
}

#[test]
fn to_image_reports_mismatched_alpha_dimensions() {
    let color = yuv8_frame(
        vec![255],
        vec![128],
        vec![128],
        ChromaSampling::Cs444,
        1,
        1,
        Range::Full,
        None,
    );
    let alpha = AlphaImage::Gray8 { buf: vec![1, 2], width: 2, height: 1 };
    assert_eq!(to_image(color, Some(alpha), false).unwrap_err(), Error::DimensionMismatch);
}

#[test]
fn bt709_sixteen_bit_full_range_maps_luma_extremes() {
    let frame = Frame::Yuv16 {
        y: vec![65535, 0],
        u: vec![32768, 32768],
        v: vec![32768, 32768],
        sampling: ChromaSampling::Cs444,
        depth: BitDepth::Depth16,
        width: 1,
        height: 2,
        range: Range::Full,
        matrix: Some(ColorMatrix::BT709),
    };
    match color_convert(&frame).unwrap() {
        Image::Rgb16 { buf, .. } => {
            assert_eq!(buf, vec![65535, 65535, 65535, 0, 0, 0]);
        },
        _ => panic!("expected a 16-bit RGB image"),
    }
}

#[test]
fn ten_bit_limited_range_alpha_is_scaled_to_the_full_sixteen_bits() {
    let frame = Frame::Mono16 {
        y: vec![64, 940, 500],
        depth: BitDepth::Depth10,
        width: 3,
        height: 1,
        range: Range::Limited,
        matrix: None,
    };
    match to_alpha(&frame).unwrap() {
        AlphaImage::Gray16 { buf, .. } => {
            // (v - 64) * 65536 / 876, saturating: the 10-bit studio range
            // spread over the full 16 bits
            assert_eq!(buf, vec![0, 65535, 32618]);
        },
        _ => panic!("expected a 16-bit alpha image"),
    }
}
