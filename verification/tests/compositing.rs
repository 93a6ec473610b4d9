use avif_decode::AlphaImage;
use avif_decode::Error;
use avif_decode::Image;
use avif_decode::composite;
use avif_decode::unpremultiply;
use avif_decode::widen;

#[test]
fn widen_replicates_the_byte() {
    assert_eq!(widen(0xAB), 0xABAB);
    assert_eq!(widen(0), 0);
    assert_eq!(widen(255), 65535);
    assert_eq!(widen(1), 257);
    for v in 0..=255u16 {
        assert_eq!(widen(v as u8), (v << 8) | v);
    }
}

#[test]
fn rgb8_with_gray8_keeps_every_channel_exactly() {
    let color = Image::Rgb8 { buf: vec![1, 2, 3, 4, 5, 6], width: 2, height: 1 };
    let alpha = AlphaImage::Gray8 { buf: vec![10, 20], width: 2, height: 1 };
    match composite(color, alpha).unwrap() {
        Image::Rgba8 { buf, width, height } => {
            assert_eq!((width, height), (2, 1));
            assert_eq!(buf, vec![1, 2, 3, 10, 4, 5, 6, 20]);
        },
        _ => panic!("expected an 8-bit RGBA image"),
    }
}

#[test]
fn rgb8_with_gray16_widens_the_color_channels() {
    let color = Image::Rgb8 { buf: vec![0xAB, 0, 255], width: 1, height: 1 };
    let alpha = AlphaImage::Gray16 { buf: vec![1234], width: 1, height: 1 };
    match composite(color, alpha).unwrap() {
        Image::Rgba16 { buf, .. } => {
            assert_eq!(buf, vec![0xABAB, 0, 65535, 1234]);
        },
        _ => panic!("expected a 16-bit RGBA image"),
    }
}

#[test]
fn rgb16_with_gray8_widens_the_alpha() {
    let color = Image::Rgb16 { buf: vec![100, 200, 300], width: 1, height: 1 };
    let alpha = AlphaImage::Gray8 { buf: vec![0xCD], width: 1, height: 1 };
    match composite(color, alpha).unwrap() {
        Image::Rgba16 { buf, .. } => {
            assert_eq!(buf, vec![100, 200, 300, 0xCDCD]);
        },
        _ => panic!("expected a 16-bit RGBA image"),
    }
}

#[test]
fn rgb16_with_gray16_copies_both() {
    let color = Image::Rgb16 { buf: vec![100, 200, 300, 400, 500, 600], width: 1, height: 2 };
    let alpha = AlphaImage::Gray16 { buf: vec![7, 8], width: 1, height: 2 };
    match composite(color, alpha).unwrap() {
        Image::Rgba16 { buf, .. } => {
            assert_eq!(buf, vec![100, 200, 300, 7, 400, 500, 600, 8]);
        },
        _ => panic!("expected a 16-bit RGBA image"),
    }
}

#[test]
fn rgba8_with_gray8_overwrites_the_alpha() {
    let color = Image::Rgba8 { buf: vec![1, 2, 3, 99], width: 1, height: 1 };
    let alpha = AlphaImage::Gray8 { buf: vec![50], width: 1, height: 1 };
    match composite(color, alpha).unwrap() {
        Image::Rgba8 { buf, .. } => {
            assert_eq!(buf, vec![1, 2, 3, 50]);
        },
        _ => panic!("expected an 8-bit RGBA image"),
    }
}

#[test]
fn gray_color_is_replicated_into_rgb() {
    let color = Image::Gray8 { buf: vec![7, 8], width: 2, height: 1 };
    let alpha = AlphaImage::Gray8 { buf: vec![1, 2], width: 2, height: 1 };
    match composite(color, alpha).unwrap() {
        Image::Rgba8 { buf, .. } => {
            assert_eq!(buf, vec![7, 7, 7, 1, 8, 8, 8, 2]);
        },
        _ => panic!("expected an 8-bit RGBA image"),
    }
}

#[test]
fn gray8_with_gray16_widens_the_replicated_gray() {
    let color = Image::Gray8 { buf: vec![0xAB], width: 1, height: 1 };
    let alpha = AlphaImage::Gray16 { buf: vec![9], width: 1, height: 1 };
    match composite(color, alpha).unwrap() {
        Image::Rgba16 { buf, .. } => {
            assert_eq!(buf, vec![0xABAB, 0xABAB, 0xABAB, 9]);
        },
        _ => panic!("expected a 16-bit RGBA image"),
    }
}

#[test]
fn gray16_with_gray8_widens_the_alpha() {
    let color = Image::Gray16 { buf: vec![1000], width: 1, height: 1 };
    let alpha = AlphaImage::Gray8 { buf: vec![0x12], width: 1, height: 1 };
    match composite(color, alpha).unwrap() {
        Image::Rgba16 { buf, .. } => {
            assert_eq!(buf, vec![1000, 1000, 1000, 0x1212]);
        },
        _ => panic!("expected a 16-bit RGBA image"),
    }
}

#[test]
fn gray16_with_gray16_copies_both() {
    let color = Image::Gray16 { buf: vec![1000], width: 1, height: 1 };
    let alpha = AlphaImage::Gray16 { buf: vec![2000], width: 1, height: 1 };
    match composite(color, alpha).unwrap() {
        Image::Rgba16 { buf, .. } => {
            assert_eq!(buf, vec![1000, 1000, 1000, 2000]);
        },
        _ => panic!("expected a 16-bit RGBA image"),
    }
}

#[test]
fn mismatched_dimensions_are_rejected() {
    let color = Image::Rgb8 { buf: vec![1, 2, 3], width: 1, height: 1 };
    let alpha = AlphaImage::Gray8 { buf: vec![1, 2], width: 2, height: 1 };
    assert_eq!(composite(color, alpha).unwrap_err(), Error::DimensionMismatch);
}

#[test]
fn alpha_carrying_color_with_deeper_alpha_is_rejected() {
    let color = Image::Rgba8 { buf: vec![1, 2, 3, 4], width: 1, height: 1 };
    let alpha = AlphaImage::Gray16 { buf: vec![1], width: 1, height: 1 };
    assert_eq!(composite(color, alpha).unwrap_err(), Error::InvalidAlphaCombination);

    let color = Image::Rgba16 { buf: vec![1, 2, 3, 4], width: 1, height: 1 };
    let alpha = AlphaImage::Gray8 { buf: vec![1], width: 1, height: 1 };
    assert_eq!(composite(color, alpha).unwrap_err(), Error::InvalidAlphaCombination);
}

#[test]
fn unpremultiply_skips_pixels_with_zero_alpha() {
    let img = Image::Rgba8 { buf: vec![10, 20, 30, 0], width: 1, height: 1 };
    match unpremultiply(img) {
        Image::Rgba8 { buf, .. } => assert_eq!(buf, vec![10, 20, 30, 0]),
        _ => panic!("expected an 8-bit RGBA image"),
    }
}

#[test]
fn unpremultiply_divides_the_alpha_back_out() {
    // premultiplied value of channel 100 at alpha 200: round(100*200/255) == 78
    let img = Image::Rgba8 { buf: vec![78, 78, 78, 200], width: 1, height: 1 };
    match unpremultiply(img) {
        Image::Rgba8 { buf, .. } => {
            // round(78*255/200) == 99, within one unit of the original 100
            assert_eq!(buf, vec![99, 99, 99, 200]);
        },
        _ => panic!("expected an 8-bit RGBA image"),
    }
}

#[test]
fn unpremultiply_saturates_instead_of_overflowing() {
    let img = Image::Rgba8 { buf: vec![255, 255, 255, 128], width: 1, height: 1 };
    match unpremultiply(img) {
        Image::Rgba8 { buf, .. } => assert_eq!(buf, vec![255, 255, 255, 128]),
        _ => panic!("expected an 8-bit RGBA image"),
    }
}

#[test]
fn unpremultiply_sixteen_bit() {
    // premultiplied value of channel 40000 at alpha 60000: round(40000*60000/65535) == 36621
    let img = Image::Rgba16 { buf: vec![36621, 0, 65535, 60000], width: 1, height: 1 };
    match unpremultiply(img) {
        Image::Rgba16 { buf, .. } => {
            // round(36621*65535/60000) == 40000 (within rounding), alpha kept
            assert_eq!(buf[3], 60000);
            assert!(buf[0] >= 39999 && buf[0] <= 40001);
            assert_eq!(buf[1], 0);
            assert_eq!(buf[2], 65535);
        },
        _ => panic!("expected a 16-bit RGBA image"),
    }
}

#[test]
fn unpremultiply_leaves_alphaless_images_alone() {
    let img = Image::Rgb8 { buf: vec![1, 2, 3], width: 1, height: 1 };
    match unpremultiply(img) {
        Image::Rgb8 { buf, .. } => assert_eq!(buf, vec![1, 2, 3]),
        _ => panic!("expected an 8-bit RGB image"),
    }
}
