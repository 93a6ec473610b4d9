use vstd::prelude::*;
use crate::types::BitDepth;
use crate::types::Error;
use crate::types::ColorMatrix;
use crate::types::Range;

verus! {

/// The matrix coefficients for which the converter owns a YCbCr
/// conversion matrix.
pub open spec fn has_conversion_matrix(mc: ColorMatrix) -> bool {
    ||| mc == ColorMatrix::BT709
    ||| mc == ColorMatrix::FCC
    ||| mc == ColorMatrix::BT470BG
    ||| mc == ColorMatrix::BT601
    ||| mc == ColorMatrix::SMPTE240
    ||| mc == ColorMatrix::YCgCo
    ||| mc == ColorMatrix::BT2020NCL
}

/// The metadata combinations the 8-bit converter can evaluate: a known
/// matrix, or the identity pass-through, at either range.
pub open spec fn supported8(mc: ColorMatrix) -> bool {
    has_conversion_matrix(mc) || mc == ColorMatrix::Identity
}

/// The metadata combinations the 16-bit converter can evaluate. The
/// identity pass-through refuses 8-bit samples: those belong to the
/// 8-bit converter.
pub open spec fn supported16(mc: ColorMatrix, depth: BitDepth) -> bool {
    has_conversion_matrix(mc) || (mc == ColorMatrix::Identity && depth != BitDepth::Depth8)
}

/// The RGB triple the 8-bit converter yields for one YUV sample:
/// denormalized by `range`, transformed by the matrix `mc`, quantized
/// back to 8 bits with clamping. A function of its arguments alone.
pub uninterp spec fn rgb8_of(range: Range, mc: ColorMatrix, y: u8, u: u8, v: u8) -> (
    u8,
    u8,
    u8,
);

/// The RGB triple the 16-bit converter yields for one YUV sample of
/// the given depth, scaled to the full 16-bit range. A function of its
/// arguments alone.
pub uninterp spec fn rgb16_of(
    range: Range,
    mc: ColorMatrix,
    depth: BitDepth,
    y: u16,
    u: u16,
    v: u16,
) -> (u16, u16, u16);

/// Renames a matrix-coefficients tag into the converter crate's
/// enum, one variant for one.
#[verifier::external_body]
fn mc_to_yuv(mc: ColorMatrix) -> yuv::color::MatrixCoefficients {
    match mc {
        ColorMatrix::Identity => yuv::color::MatrixCoefficients::Identity,
        ColorMatrix::BT709 => yuv::color::MatrixCoefficients::BT709,
        ColorMatrix::FCC => yuv::color::MatrixCoefficients::FCC,
        ColorMatrix::BT470BG => yuv::color::MatrixCoefficients::BT470BG,
        ColorMatrix::BT601 => yuv::color::MatrixCoefficients::BT601,
        ColorMatrix::SMPTE240 => yuv::color::MatrixCoefficients::SMPTE240,
        ColorMatrix::YCgCo => yuv::color::MatrixCoefficients::YCgCo,
        ColorMatrix::BT2020NCL => yuv::color::MatrixCoefficients::BT2020NCL,
        ColorMatrix::BT2020CL => yuv::color::MatrixCoefficients::BT2020CL,
        ColorMatrix::SMPTE2085 => yuv::color::MatrixCoefficients::SMPTE2085,
        ColorMatrix::ChromatNCL => yuv::color::MatrixCoefficients::ChromatNCL,
        ColorMatrix::ChromatCL => yuv::color::MatrixCoefficients::ChromatCL,
        ColorMatrix::ICtCp => yuv::color::MatrixCoefficients::ICtCp,
    }
}

/// Relies on yuv::convert::RGBConvert::<u8>: `new` succeeds exactly
/// for a known matrix or the identity, and `to_rgb` is a pure
/// function of the converter's configuration and the sample.
#[verifier::external_body]
pub(crate) fn convert_yuv8(
    range: Range,
    mc: ColorMatrix,
    px: &Vec<(u8, u8, u8)>,
) -> (r: Result<Vec<(u8, u8, u8)>, Error>)
    ensures
        r is Ok <==> supported8(mc),
        r is Err ==> r->Err_0 == Error::UnsupportedColorMetadata,
        r is Ok ==> r->Ok_0@.len() == px@.len(),
        r is Ok ==> forall|i: int|
            0 <= i < px@.len() ==> #[trigger] r->Ok_0@[i] == rgb8_of(
                range,
                mc,
                px@[i].0,
                px@[i].1,
                px@[i].2,
            ),
{
    let rr = match range {
        Range::Limited => yuv::color::Range::Limited,
        Range::Full => yuv::color::Range::Full,
    };
    let conv = match yuv::convert::RGBConvert::<u8>::new(rr, mc_to_yuv(mc)) {
        Ok(c) => c,
        Err(_) => return Err(Error::UnsupportedColorMetadata),
    };
    Ok(px.iter().map(|p| {
        let c = conv.to_rgb(yuv::YUV { y: p.0, u: p.1, v: p.2 });
        (c.r, c.g, c.b)
    }).collect())
}

/// Renames a bit-depth tag into the converter crate's enum, one
/// variant for one.
#[verifier::external_body]
fn depth_to_yuv(depth: BitDepth) -> yuv::color::Depth {
    match depth {
        BitDepth::Depth8 => yuv::color::Depth::Depth8,
        BitDepth::Depth10 => yuv::color::Depth::Depth10,
        BitDepth::Depth12 => yuv::color::Depth::Depth12,
        BitDepth::Depth16 => yuv::color::Depth::Depth16,
    }
}

/// Relies on yuv::convert::RGBConvert::<u16>: `new` succeeds exactly
/// for a known matrix, or the identity at a depth above 8 bits, and
/// `to_rgb` is a pure function of the converter's configuration and
/// the sample.
#[verifier::external_body]
pub(crate) fn convert_yuv16(
    range: Range,
    mc: ColorMatrix,
    depth: BitDepth,
    px: &Vec<(u16, u16, u16)>,
) -> (r: Result<Vec<(u16, u16, u16)>, Error>)
    ensures
        r is Ok <==> supported16(mc, depth),
        r is Err ==> r->Err_0 == Error::UnsupportedColorMetadata,
        r is Ok ==> r->Ok_0@.len() == px@.len(),
        r is Ok ==> forall|i: int|
            0 <= i < px@.len() ==> #[trigger] r->Ok_0@[i] == rgb16_of(
                range,
                mc,
                depth,
                px@[i].0,
                px@[i].1,
                px@[i].2,
            ),
{
    let rr = match range {
        Range::Limited => yuv::color::Range::Limited,
        Range::Full => yuv::color::Range::Full,
    };
    let conv = match yuv::convert::RGBConvert::<u16>::new(rr, mc_to_yuv(mc), depth_to_yuv(depth)) {
        Ok(c) => c,
        Err(_) => return Err(Error::UnsupportedColorMetadata),
    };
    Ok(px.iter().map(|p| {
        let c = conv.to_rgb(yuv::YUV { y: p.0, u: p.1, v: p.2 });
        (c.r, c.g, c.b)
    }).collect())
}

} // verus!
