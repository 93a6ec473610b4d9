use vstd::prelude::*;
use vstd::arithmetic::div_mod::lemma_fundamental_div_mod_converse;
use crate::compose::composite;
use crate::compose::composited;
use crate::compose::legal_combination;
use crate::compose::unpremultiplied;
use crate::compose::unpremultiply;
use crate::convert::convert_yuv8;
use crate::convert::convert_yuv16;
use crate::convert::rgb8_of;
use crate::convert::rgb16_of;
use crate::convert::supported8;
use crate::convert::supported16;
use crate::types::AlphaImage;
use crate::types::ChromaSampling;
use crate::types::ColorMatrix;
use crate::types::BitDepth;
use crate::types::Error;
use crate::types::Frame;
use crate::types::Image;
use crate::types::Range;
use crate::types::chroma_index;
use crate::upsample::upsample;

verus! {

/// The matrix coefficients a color frame is converted with when its
/// metadata names none: BT.709.
pub open spec fn color_default(m: Option<ColorMatrix>) -> ColorMatrix {
    match m {
        Some(mc) => mc,
        None => ColorMatrix::BT709,
    }
}

/// The matrix coefficients a gray or alpha frame is converted with
/// when its metadata names none: the identity pass-through.
pub open spec fn gray_default(m: Option<ColorMatrix>) -> ColorMatrix {
    match m {
        Some(mc) => mc,
        None => ColorMatrix::Identity,
    }
}

/// Component `k` of an RGB triple.
pub open spec fn component3<T>(t: (T, T, T), k: int) -> T {
    if k == 0 {
        t.0
    } else if k == 1 {
        t.1
    } else {
        t.2
    }
}

proof fn lemma_triple(i: int, k: int)
    requires
        0 <= k < 3,
        0 <= i,
    ensures
        (3 * i + k) / 3 == i,
        (3 * i + k) % 3 == k,
{
    lemma_fundamental_div_mod_converse(3 * i + k, 3, i, k);
}

/// Flattens one triple per pixel into an interleaved buffer.
fn flatten3<T: Copy>(t: &Vec<(T, T, T)>) -> (r: Vec<T>)
    ensures
        r@.len() == 3 * t@.len(),
        forall|j: int| 0 <= j < r@.len() ==> #[trigger] r@[j] == component3(t@[j / 3], j % 3),
{
    let mut out: Vec<T> = Vec::new();
    let mut i: usize = 0;
    while i < t.len()
        invariant
            i <= t@.len(),
            out@.len() == 3 * i,
            forall|j: int| 0 <= j < out@.len() ==> #[trigger] out@[j] == component3(t@[j / 3], j % 3),
        decreases t@.len() - i,
    {
        let p: (T, T, T) = t[i];
        out.push(p.0);
        out.push(p.1);
        out.push(p.2);
        proof {
            lemma_triple(i as int, 0);
            lemma_triple(i as int, 1);
            lemma_triple(i as int, 2);
        }
        i = i + 1;
    }
    out
}

/// Pairs every luma sample with the 8-bit neutral chroma value.
fn neutral8(y: &Vec<u8>) -> (r: Vec<(u8, u8, u8)>)
    ensures
        r@.len() == y@.len(),
        forall|i: int| 0 <= i < y@.len() ==> #[trigger] r@[i] == (y@[i], 128u8, 128u8),
{
    let mut out: Vec<(u8, u8, u8)> = Vec::new();
    let mut i: usize = 0;
    while i < y.len()
        invariant
            i <= y@.len(),
            out@.len() == i,
            forall|k: int| 0 <= k < i ==> #[trigger] out@[k] == (y@[k], 128u8, 128u8),
        decreases y@.len() - i,
    {
        let t: (u8, u8, u8) = (y[i], 128, 128);
        out.push(t);
        i = i + 1;
    }
    out
}

/// Pairs every luma sample with the bit-replicated neutral chroma
/// value.
fn neutral16(y: &Vec<u16>) -> (r: Vec<(u16, u16, u16)>)
    ensures
        r@.len() == y@.len(),
        forall|i: int| 0 <= i < y@.len() ==> #[trigger] r@[i] == (y@[i], 0x8080u16, 0x8080u16),
{
    let mut out: Vec<(u16, u16, u16)> = Vec::new();
    let mut i: usize = 0;
    while i < y.len()
        invariant
            i <= y@.len(),
            out@.len() == i,
            forall|k: int| 0 <= k < i ==> #[trigger] out@[k] == (y@[k], 0x8080u16, 0x8080u16),
        decreases y@.len() - i,
    {
        let t: (u16, u16, u16) = (y[i], 0x8080, 0x8080);
        out.push(t);
        i = i + 1;
    }
    out
}

/// The green channel of every triple.
fn greens<T: Copy>(t: &Vec<(T, T, T)>) -> (r: Vec<T>)
    ensures
        r@.len() == t@.len(),
        forall|i: int| 0 <= i < t@.len() ==> #[trigger] r@[i] == t@[i].1,
{
    let mut out: Vec<T> = Vec::new();
    let mut i: usize = 0;
    while i < t.len()
        invariant
            i <= t@.len(),
            out@.len() == i,
            forall|k: int| 0 <= k < i ==> #[trigger] out@[k] == t@[k].1,
        decreases t@.len() - i,
    {
        let p: (T, T, T) = t[i];
        out.push(p.1);
        i = i + 1;
    }
    out
}

/// The gray sample an 8-bit luma sample becomes: the green channel of
/// the color conversion at neutral chroma.
pub open spec fn gray8_value(range: Range, mc: ColorMatrix, y: u8) -> u8 {
    rgb8_of(range, mc, y, 128u8, 128u8).1
}

/// The gray sample a 16-bit luma sample of the given depth becomes.
pub open spec fn gray16_value(range: Range, mc: ColorMatrix, depth: BitDepth, y: u16) -> u16 {
    rgb16_of(range, mc, depth, y, 0x8080u16, 0x8080u16).1
}

/// Whether the gray path can convert this frame's luma plane with the
/// given matrix coefficients.
pub open spec fn gray_ok(mc: ColorMatrix, frame: &Frame) -> bool {
    match frame {
        Frame::Yuv8 { .. } => supported8(mc),
        Frame::Mono8 { .. } => supported8(mc),
        Frame::Yuv16 { depth, .. } => supported16(mc, *depth),
        Frame::Mono16 { depth, .. } => supported16(mc, *depth),
    }
}

/// What the gray path yields: one gray sample per luma sample, each
/// the converted luma at neutral chroma. Chroma planes, if the frame
/// carries any, are ignored.
pub open spec fn gray_post(range: Range, mc: ColorMatrix, frame: &Frame, out: &AlphaImage) -> bool {
    match (frame, out) {
        (
            Frame::Yuv8 { y, width, height, .. },
            AlphaImage::Gray8 { buf: o, width: ow, height: oh },
        ) => {
            &&& *ow == *width
            &&& *oh == *height
            &&& o@.len() == y@.len()
            &&& forall|i: int| 0 <= i < y@.len() ==> #[trigger] o@[i] == gray8_value(range, mc, y@[i])
        },
        (
            Frame::Mono8 { y, width, height, .. },
            AlphaImage::Gray8 { buf: o, width: ow, height: oh },
        ) => {
            &&& *ow == *width
            &&& *oh == *height
            &&& o@.len() == y@.len()
            &&& forall|i: int| 0 <= i < y@.len() ==> #[trigger] o@[i] == gray8_value(range, mc, y@[i])
        },
        (
            Frame::Yuv16 { y, depth, width, height, .. },
            AlphaImage::Gray16 { buf: o, width: ow, height: oh },
        ) => {
            &&& *ow == *width
            &&& *oh == *height
            &&& o@.len() == y@.len()
            &&& forall|i: int|
                0 <= i < y@.len() ==> #[trigger] o@[i] == gray16_value(range, mc, *depth, y@[i])
        },
        (
            Frame::Mono16 { y, depth, width, height, .. },
            AlphaImage::Gray16 { buf: o, width: ow, height: oh },
        ) => {
            &&& *ow == *width
            &&& *oh == *height
            &&& o@.len() == y@.len()
            &&& forall|i: int|
                0 <= i < y@.len() ==> #[trigger] o@[i] == gray16_value(range, mc, *depth, y@[i])
        },
        _ => false,
    }
}

fn gray8_path(range: Range, mc: ColorMatrix, y: &Vec<u8>, width: usize, height: usize) -> (r:
    Result<(Vec<u8>, usize, usize), Error>)
    ensures
        r is Ok <==> supported8(mc),
        r is Err ==> r->Err_0 == Error::UnsupportedColorMetadata,
        r is Ok ==> {
            &&& r->Ok_0.0@.len() == y@.len()
            &&& r->Ok_0.1 == width
            &&& r->Ok_0.2 == height
            &&& forall|i: int|
                0 <= i < y@.len() ==> #[trigger] r->Ok_0.0@[i] == gray8_value(range, mc, y@[i])
        },
{
    let t = neutral8(y);
    let rgb = match convert_yuv8(range, mc, &t) {
        Ok(v) => v,
        Err(e) => return Err(e),
    };
    let g = greens(&rgb);
    Ok((g, width, height))
}

fn gray16_path(
    range: Range,
    mc: ColorMatrix,
    depth: BitDepth,
    y: &Vec<u16>,
    width: usize,
    height: usize,
) -> (r: Result<(Vec<u16>, usize, usize), Error>)
    ensures
        r is Ok <==> supported16(mc, depth),
        r is Err ==> r->Err_0 == Error::UnsupportedColorMetadata,
        r is Ok ==> {
            &&& r->Ok_0.0@.len() == y@.len()
            &&& r->Ok_0.1 == width
            &&& r->Ok_0.2 == height
            &&& forall|i: int|
                0 <= i < y@.len() ==> #[trigger] r->Ok_0.0@[i] == gray16_value(
                    range,
                    mc,
                    depth,
                    y@[i],
                )
        },
{
    let t = neutral16(y);
    let rgb = match convert_yuv16(range, mc, depth, &t) {
        Ok(v) => v,
        Err(e) => return Err(e),
    };
    let g = greens(&rgb);
    Ok((g, width, height))
}

/// Derives a single-channel gray image from a frame's luma plane:
/// every luma sample is treated as a YUV triple with neutral chroma,
/// converted with the given range and matrix, and the green channel
/// kept. Chroma planes, if present, are discarded.
pub fn to_gray(range: Range, mc: ColorMatrix, frame: &Frame) -> (r: Result<AlphaImage, Error>)
    requires
        frame.wf(),
    ensures
        r is Ok <==> gray_ok(mc, frame),
        r is Err ==> r->Err_0 == Error::UnsupportedColorMetadata,
        r is Ok ==> gray_post(range, mc, frame, &r->Ok_0) && r->Ok_0.wf(),
{
    match frame {
        Frame::Yuv8 { y, width, height, .. } => {
            let (g, w, h) = match gray8_path(range, mc, y, *width, *height) {
                Ok(t) => t,
                Err(e) => return Err(e),
            };
            Ok(AlphaImage::Gray8 { buf: g, width: w, height: h })
        },
        Frame::Mono8 { y, width, height, .. } => {
            let (g, w, h) = match gray8_path(range, mc, y, *width, *height) {
                Ok(t) => t,
                Err(e) => return Err(e),
            };
            Ok(AlphaImage::Gray8 { buf: g, width: w, height: h })
        },
        Frame::Yuv16 { y, depth, width, height, .. } => {
            let (g, w, h) = match gray16_path(range, mc, *depth, y, *width, *height) {
                Ok(t) => t,
                Err(e) => return Err(e),
            };
            Ok(AlphaImage::Gray16 { buf: g, width: w, height: h })
        },
        Frame::Mono16 { y, depth, width, height, .. } => {
            let (g, w, h) = match gray16_path(range, mc, *depth, y, *width, *height) {
                Ok(t) => t,
                Err(e) => return Err(e),
            };
            Ok(AlphaImage::Gray16 { buf: g, width: w, height: h })
        },
    }
}

/// Derives the alpha image of an auxiliary frame: the gray path at the
/// frame's own range, defaulting to identity coefficients when the
/// frame names none.
pub fn to_alpha(frame: &Frame) -> (r: Result<AlphaImage, Error>)
    requires
        frame.wf(),
    ensures
        r is Ok <==> gray_ok(gray_default(frame.spec_matrix()), frame),
        r is Err ==> r->Err_0 == Error::UnsupportedColorMetadata,
        r is Ok ==> gray_post(frame.spec_range(), gray_default(frame.spec_matrix()), frame, &r->Ok_0)
            && r->Ok_0.wf(),
{
    let mc = match frame.matrix() {
        Some(m) => m,
        None => ColorMatrix::Identity,
    };
    to_gray(frame.range(), mc, frame)
}

/// Whether the color path can convert this frame: chroma upsampling is
/// defined for its sampling, and the converter accepts its metadata
/// (the color default applying to YUV shapes, the gray default to
/// monochrome shapes).
pub open spec fn cc_ok(frame: &Frame) -> bool {
    match frame {
        Frame::Yuv8 { sampling, matrix, .. } => *sampling != ChromaSampling::Monochrome
            && supported8(color_default(*matrix)),
        Frame::Yuv16 { sampling, depth, matrix, .. } => *sampling != ChromaSampling::Monochrome
            && supported16(color_default(*matrix), *depth),
        Frame::Mono8 { matrix, .. } => supported8(gray_default(*matrix)),
        Frame::Mono16 { depth, matrix, .. } => supported16(gray_default(*matrix), *depth),
    }
}

/// Which error the color path reports when it cannot convert a frame:
/// a monochrome-tagged YUV plane set is an invalid chroma format, all
/// else is unsupported color metadata.
pub open spec fn cc_err(frame: &Frame) -> Error {
    match frame {
        Frame::Yuv8 { sampling, .. } => if *sampling == ChromaSampling::Monochrome {
            Error::InvalidChromaFormat
        } else {
            Error::UnsupportedColorMetadata
        },
        Frame::Yuv16 { sampling, .. } => if *sampling == ChromaSampling::Monochrome {
            Error::InvalidChromaFormat
        } else {
            Error::UnsupportedColorMetadata
        },
        Frame::Mono8 { .. } => Error::UnsupportedColorMetadata,
        Frame::Mono16 { .. } => Error::UnsupportedColorMetadata,
    }
}

/// What the color path yields: per pixel, the converted upsampled YUV
/// triple, interleaved row-major; monochrome shapes take the gray path
/// at neutral chroma.
pub open spec fn cc_post(frame: &Frame, out: &Image) -> bool {
    match (frame, out) {
        (
            Frame::Yuv8 { y, u, v, sampling, width, height, range, matrix },
            Image::Rgb8 { buf: o, width: ow, height: oh },
        ) => {
            &&& *ow == *width
            &&& *oh == *height
            &&& o@.len() == 3 * y@.len()
            &&& forall|j: int|
                0 <= j < o@.len() ==> #[trigger] o@[j] == component3(
                    rgb8_of(
                        *range,
                        color_default(*matrix),
                        y@[j / 3],
                        u@[chroma_index(*sampling, *width as int, j / 3)],
                        v@[chroma_index(*sampling, *width as int, j / 3)],
                    ),
                    j % 3,
                )
        },
        (
            Frame::Yuv16 { y, u, v, sampling, depth, width, height, range, matrix },
            Image::Rgb16 { buf: o, width: ow, height: oh },
        ) => {
            &&& *ow == *width
            &&& *oh == *height
            &&& o@.len() == 3 * y@.len()
            &&& forall|j: int|
                0 <= j < o@.len() ==> #[trigger] o@[j] == component3(
                    rgb16_of(
                        *range,
                        color_default(*matrix),
                        *depth,
                        y@[j / 3],
                        u@[chroma_index(*sampling, *width as int, j / 3)],
                        v@[chroma_index(*sampling, *width as int, j / 3)],
                    ),
                    j % 3,
                )
        },
        (
            Frame::Mono8 { y, width, height, range, matrix },
            Image::Gray8 { buf: o, width: ow, height: oh },
        ) => {
            &&& *ow == *width
            &&& *oh == *height
            &&& o@.len() == y@.len()
            &&& forall|i: int|
                0 <= i < y@.len() ==> #[trigger] o@[i] == gray8_value(
                    *range,
                    gray_default(*matrix),
                    y@[i],
                )
        },
        (
            Frame::Mono16 { y, depth, width, height, range, matrix },
            Image::Gray16 { buf: o, width: ow, height: oh },
        ) => {
            &&& *ow == *width
            &&& *oh == *height
            &&& o@.len() == y@.len()
            &&& forall|i: int|
                0 <= i < y@.len() ==> #[trigger] o@[i] == gray16_value(
                    *range,
                    gray_default(*matrix),
                    *depth,
                    y@[i],
                )
        },
        _ => false,
    }
}

/// Converts one decoded frame to a color or gray image: chroma
/// upsampling, then matrix-aware YUV-to-RGB conversion, at the frame's
/// own bit depth.
pub fn color_convert(frame: &Frame) -> (r: Result<Image, Error>)
    requires
        frame.wf(),
    ensures
        r is Ok <==> cc_ok(frame),
        r is Err ==> r->Err_0 == cc_err(frame),
        r is Ok ==> cc_post(frame, &r->Ok_0) && r->Ok_0.wf(),
        r is Ok ==> r->Ok_0.spec_width() == frame.spec_width() && r->Ok_0.spec_height()
            == frame.spec_height(),
        r is Ok ==> !(r->Ok_0 is Rgba8) && !(r->Ok_0 is Rgba16),
{
    match frame {
        Frame::Yuv8 { y, u, v, sampling, width, height, range, matrix } => {
            let mc = match matrix {
                Some(m) => *m,
                None => ColorMatrix::BT709,
            };
            let triples = match upsample(y, u, v, *width, *height, *sampling) {
                Ok(t) => t,
                Err(e) => return Err(e),
            };
            let rgb = match convert_yuv8(*range, mc, &triples) {
                Ok(t) => t,
                Err(e) => return Err(e),
            };
            let o = flatten3(&rgb);
            Ok(Image::Rgb8 { buf: o, width: *width, height: *height })
        },
        Frame::Yuv16 { y, u, v, sampling, depth, width, height, range, matrix } => {
            let mc = match matrix {
                Some(m) => *m,
                None => ColorMatrix::BT709,
            };
            let triples = match upsample(y, u, v, *width, *height, *sampling) {
                Ok(t) => t,
                Err(e) => return Err(e),
            };
            let rgb = match convert_yuv16(*range, mc, *depth, &triples) {
                Ok(t) => t,
                Err(e) => return Err(e),
            };
            let o = flatten3(&rgb);
            Ok(Image::Rgb16 { buf: o, width: *width, height: *height })
        },
        Frame::Mono8 { y, width, height, range, matrix } => {
            let mc = match matrix {
                Some(m) => *m,
                None => ColorMatrix::Identity,
            };
            let (g, w, h) = match gray8_path(*range, mc, y, *width, *height) {
                Ok(t) => t,
                Err(e) => return Err(e),
            };
            Ok(Image::Gray8 { buf: g, width: w, height: h })
        },
        Frame::Mono16 { y, depth, width, height, range, matrix } => {
            let mc = match matrix {
                Some(m) => *m,
                None => ColorMatrix::Identity,
            };
            let (g, w, h) = match gray16_path(*range, mc, *depth, y, *width, *height) {
                Ok(t) => t,
                Err(e) => return Err(e),
            };
            Ok(Image::Gray16 { buf: g, width: w, height: h })
        },
    }
}

/// When the whole pipeline succeeds: the color conversion is defined
/// for the frame, and the alpha image, if one is given, covers the
/// same pixel grid.
pub open spec fn to_image_ok(color: &Frame, alpha: &Option<AlphaImage>) -> bool {
    &&& cc_ok(color)
    &&& match alpha {
        Some(a) => color.spec_width() == a.spec_width() && color.spec_height()
            == a.spec_height(),
        None => true,
    }
}

/// Runs the pixel pipeline on one decoded color frame and an optional
/// already-extracted alpha image: color conversion, then compositing,
/// then, when the source signaled premultiplied alpha, its reversal.
/// With no alpha image the converted color image passes through
/// unchanged.
pub fn to_image(color: Frame, alpha: Option<AlphaImage>, premultiplied: bool) -> (r: Result<
    Image,
    Error,
>)
    requires
        color.wf(),
        alpha is Some ==> alpha->0.wf(),
    ensures
        r is Ok <==> to_image_ok(&color, &alpha),
        !cc_ok(&color) ==> r is Err && r->Err_0 == cc_err(&color),
        cc_ok(&color) && !to_image_ok(&color, &alpha) ==> r is Err && r->Err_0
            == Error::DimensionMismatch,
        r is Ok ==> r->Ok_0.wf(),
        r is Ok && alpha is None ==> cc_post(&color, &r->Ok_0),
        r is Ok && alpha is Some ==> exists|mid: Image, comp: Image|
            {
                &&& #[trigger] cc_post(&color, &mid)
                &&& #[trigger] composited(&mid, &alpha->0, &comp)
                &&& if premultiplied {
                    unpremultiplied(&comp, &r->Ok_0)
                } else {
                    r->Ok_0 == comp
                }
            },
{
    let img = match color_convert(&color) {
        Ok(i) => i,
        Err(e) => return Err(e),
    };
    match alpha {
        None => Ok(img),
        Some(a) => {
            let ghost gimg = img;
            proof {
                assert(legal_combination(&img, &a));
            }
            let comp = match composite(img, a) {
                Ok(c) => c,
                Err(e) => return Err(e),
            };
            let ghost gcomp = comp;
            if premultiplied {
                let out = unpremultiply(comp);
                proof {
                    assert(cc_post(&color, &gimg));
                    assert(composited(&gimg, &alpha->0, &gcomp));
                    assert(unpremultiplied(&gcomp, &out));
                }
                Ok(out)
            } else {
                proof {
                    assert(cc_post(&color, &gimg));
                    assert(composited(&gimg, &alpha->0, &gcomp));
                }
                Ok(comp)
            }
        },
    }
}

} // verus!
