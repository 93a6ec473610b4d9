use vstd::prelude::*;

verus! {

/// Whether sample codes occupy the full numeric range or the reduced
/// "studio" range with reserved headroom and footroom.
#[derive(Clone, Copy, Debug, PartialEq, Eq, Structural)]
pub enum Range {
    Limited,
    Full,
}

/// The matrix relating the YUV and RGB color spaces, as defined by the
/// "Matrix coefficients" section of ISO/IEC 23091-4 / ITU-T H.273.
/// `Identity` passes components through without a color transform.
#[derive(Clone, Copy, Debug, PartialEq, Eq, Structural)]
pub enum ColorMatrix {
    Identity,
    BT709,
    FCC,
    BT470BG,
    BT601,
    SMPTE240,
    YCgCo,
    BT2020NCL,
    BT2020CL,
    SMPTE2085,
    ChromatNCL,
    ChromatCL,
    ICtCp,
}

/// Bit depth of the decoded samples. Samples deeper than 8 bits are
/// stored widened to 16 bits.
#[derive(Clone, Copy, Debug, PartialEq, Eq, Structural)]
pub enum BitDepth {
    Depth8,
    Depth10,
    Depth12,
    Depth16,
}

/// Spatial resolution of the chroma planes relative to the luma plane.
#[derive(Clone, Copy, Debug, PartialEq, Eq, Structural)]
pub enum ChromaSampling {
    /// One chroma sample per 2x2 block of luma samples.
    Cs420,
    /// One chroma sample per pair of horizontally adjacent luma samples.
    Cs422,
    /// Chroma and luma are 1:1.
    Cs444,
    /// Luma only, no chroma planes.
    Monochrome,
}

/// Failures of the pixel pipeline. Each aborts the whole conversion of
/// the frame it concerns; no partial image is ever produced.
#[derive(Clone, Copy, Debug, PartialEq, Eq, Structural)]
pub enum Error {
    /// Chroma upsampling was requested for a monochrome plane set.
    InvalidChromaFormat,
    /// The converter cannot evaluate this matrix/range/depth combination.
    UnsupportedColorMetadata,
    /// Color and alpha images differ in width or height.
    DimensionMismatch,
    /// A color image that already carries alpha was combined with an
    /// alpha plane of a different channel depth.
    InvalidAlphaCombination,
}

/// Number of chroma samples per chroma-plane row.
pub open spec fn chroma_cols(s: ChromaSampling, w: nat) -> nat {
    match s {
        ChromaSampling::Cs444 => w,
        ChromaSampling::Cs422 => (w + 1) / 2,
        ChromaSampling::Cs420 => (w + 1) / 2,
        ChromaSampling::Monochrome => 0,
    }
}

/// Number of rows of the chroma planes.
pub open spec fn chroma_rows(s: ChromaSampling, h: nat) -> nat {
    match s {
        ChromaSampling::Cs444 => h,
        ChromaSampling::Cs422 => h,
        ChromaSampling::Cs420 => (h + 1) / 2,
        ChromaSampling::Monochrome => 0,
    }
}

/// Total number of samples of each chroma plane.
pub open spec fn chroma_len(s: ChromaSampling, w: nat, h: nat) -> nat {
    chroma_cols(s, w) * chroma_rows(s, h)
}

/// Index into a chroma plane of the sample that covers luma pixel `i`
/// (row-major) of a `w`-wide plane: the nearest chroma sample, with no
/// interpolation.
pub open spec fn chroma_index(s: ChromaSampling, w: int, i: int) -> int {
    let row = i / w;
    let col = i % w;
    match s {
        ChromaSampling::Cs444 => i,
        ChromaSampling::Cs422 => row * ((w + 1) / 2) + col / 2,
        ChromaSampling::Cs420 => (row / 2) * ((w + 1) / 2) + col / 2,
        ChromaSampling::Monochrome => 0,
    }
}

/// One decoded frame, fully materialized: its planes row-major, one
/// sample per entry, together with the color metadata the decoder
/// reported. Absent matrix coefficients mean the stage default applies.
#[derive(Debug)]
pub enum Frame {
    Yuv8 {
        y: Vec<u8>,
        u: Vec<u8>,
        v: Vec<u8>,
        sampling: ChromaSampling,
        width: usize,
        height: usize,
        range: Range,
        matrix: Option<ColorMatrix>,
    },
    Yuv16 {
        y: Vec<u16>,
        u: Vec<u16>,
        v: Vec<u16>,
        sampling: ChromaSampling,
        depth: BitDepth,
        width: usize,
        height: usize,
        range: Range,
        matrix: Option<ColorMatrix>,
    },
    Mono8 {
        y: Vec<u8>,
        width: usize,
        height: usize,
        range: Range,
        matrix: Option<ColorMatrix>,
    },
    Mono16 {
        y: Vec<u16>,
        depth: BitDepth,
        width: usize,
        height: usize,
        range: Range,
        matrix: Option<ColorMatrix>,
    },
}

impl Frame {
    /// Planes are exactly the size the dimensions and the chroma
    /// sampling demand.
    pub open spec fn wf(&self) -> bool {
        match self {
            Frame::Yuv8 { y, u, v, sampling, width, height, .. } => {
                &&& y@.len() == (*width as nat) * (*height as nat)
                &&& u@.len() == chroma_len(*sampling, *width as nat, *height as nat)
                &&& v@.len() == chroma_len(*sampling, *width as nat, *height as nat)
            },
            Frame::Yuv16 { y, u, v, sampling, width, height, .. } => {
                &&& y@.len() == (*width as nat) * (*height as nat)
                &&& u@.len() == chroma_len(*sampling, *width as nat, *height as nat)
                &&& v@.len() == chroma_len(*sampling, *width as nat, *height as nat)
            },
            Frame::Mono8 { y, width, height, .. } => y@.len() == (*width as nat) * (*height as nat),
            Frame::Mono16 { y, width, height, .. } => y@.len() == (*width as nat) * (*height as nat),
        }
    }

    pub open spec fn spec_width(&self) -> nat {
        match self {
            Frame::Yuv8 { width, .. } => *width as nat,
            Frame::Yuv16 { width, .. } => *width as nat,
            Frame::Mono8 { width, .. } => *width as nat,
            Frame::Mono16 { width, .. } => *width as nat,
        }
    }

    pub open spec fn spec_height(&self) -> nat {
        match self {
            Frame::Yuv8 { height, .. } => *height as nat,
            Frame::Yuv16 { height, .. } => *height as nat,
            Frame::Mono8 { height, .. } => *height as nat,
            Frame::Mono16 { height, .. } => *height as nat,
        }
    }

    pub open spec fn spec_range(&self) -> Range {
        match self {
            Frame::Yuv8 { range, .. } => *range,
            Frame::Yuv16 { range, .. } => *range,
            Frame::Mono8 { range, .. } => *range,
            Frame::Mono16 { range, .. } => *range,
        }
    }

    pub open spec fn spec_matrix(&self) -> Option<ColorMatrix> {
        match self {
            Frame::Yuv8 { matrix, .. } => *matrix,
            Frame::Yuv16 { matrix, .. } => *matrix,
            Frame::Mono8 { matrix, .. } => *matrix,
            Frame::Mono16 { matrix, .. } => *matrix,
        }
    }

    pub fn range(&self) -> (r: Range)
        ensures
            r == self.spec_range(),
    {
        match self {
            Frame::Yuv8 { range, .. } => *range,
            Frame::Yuv16 { range, .. } => *range,
            Frame::Mono8 { range, .. } => *range,
            Frame::Mono16 { range, .. } => *range,
        }
    }

    pub fn matrix(&self) -> (r: Option<ColorMatrix>)
        ensures
            r == self.spec_matrix(),
    {
        match self {
            Frame::Yuv8 { matrix, .. } => *matrix,
            Frame::Yuv16 { matrix, .. } => *matrix,
            Frame::Mono8 { matrix, .. } => *matrix,
            Frame::Mono16 { matrix, .. } => *matrix,
        }
    }
}

/// A finished image: a flat, interleaved, row-major sample buffer plus
/// its dimensions. 16-bit variants always use the full 16-bit range.
#[derive(Debug)]
pub enum Image {
    Rgb8 { buf: Vec<u8>, width: usize, height: usize },
    Rgb16 { buf: Vec<u16>, width: usize, height: usize },
    Rgba8 { buf: Vec<u8>, width: usize, height: usize },
    Rgba16 { buf: Vec<u16>, width: usize, height: usize },
    Gray8 { buf: Vec<u8>, width: usize, height: usize },
    Gray16 { buf: Vec<u16>, width: usize, height: usize },
}

impl Image {
    /// Buffer length equals width x height x channel count.
    pub open spec fn wf(&self) -> bool {
        match self {
            Image::Rgb8 { buf, width, height } => buf@.len() == 3 * ((*width as nat) * (*height as nat)),
            Image::Rgb16 { buf, width, height } => buf@.len() == 3 * ((*width as nat) * (*height as nat)),
            Image::Rgba8 { buf, width, height } => buf@.len() == 4 * ((*width as nat) * (*height as nat)),
            Image::Rgba16 { buf, width, height } => buf@.len() == 4 * ((*width as nat) * (*height as nat)),
            Image::Gray8 { buf, width, height } => buf@.len() == (*width as nat) * (*height as nat),
            Image::Gray16 { buf, width, height } => buf@.len() == (*width as nat) * (*height as nat),
        }
    }

    pub open spec fn spec_width(&self) -> nat {
        match self {
            Image::Rgb8 { width, .. } => *width as nat,
            Image::Rgb16 { width, .. } => *width as nat,
            Image::Rgba8 { width, .. } => *width as nat,
            Image::Rgba16 { width, .. } => *width as nat,
            Image::Gray8 { width, .. } => *width as nat,
            Image::Gray16 { width, .. } => *width as nat,
        }
    }

    pub open spec fn spec_height(&self) -> nat {
        match self {
            Image::Rgb8 { height, .. } => *height as nat,
            Image::Rgb16 { height, .. } => *height as nat,
            Image::Rgba8 { height, .. } => *height as nat,
            Image::Rgba16 { height, .. } => *height as nat,
            Image::Gray8 { height, .. } => *height as nat,
            Image::Gray16 { height, .. } => *height as nat,
        }
    }

    pub fn width(&self) -> (r: usize)
        ensures
            r == self.spec_width(),
    {
        match self {
            Image::Rgb8 { width, .. } => *width,
            Image::Rgb16 { width, .. } => *width,
            Image::Rgba8 { width, .. } => *width,
            Image::Rgba16 { width, .. } => *width,
            Image::Gray8 { width, .. } => *width,
            Image::Gray16 { width, .. } => *width,
        }
    }

    pub fn height(&self) -> (r: usize)
        ensures
            r == self.spec_height(),
    {
        match self {
            Image::Rgb8 { height, .. } => *height,
            Image::Rgb16 { height, .. } => *height,
            Image::Rgba8 { height, .. } => *height,
            Image::Rgba16 { height, .. } => *height,
            Image::Gray8 { height, .. } => *height,
            Image::Gray16 { height, .. } => *height,
        }
    }
}

/// A single-channel alpha image, the intermediate between alpha
/// extraction and compositing. Never returned to a caller of the
/// pipeline as a finished image.
#[derive(Debug)]
pub enum AlphaImage {
    Gray8 { buf: Vec<u8>, width: usize, height: usize },
    Gray16 { buf: Vec<u16>, width: usize, height: usize },
}

impl AlphaImage {
    /// One sample per pixel.
    pub open spec fn wf(&self) -> bool {
        match self {
            AlphaImage::Gray8 { buf, width, height } => buf@.len() == (*width as nat) * (*height as nat),
            AlphaImage::Gray16 { buf, width, height } => buf@.len() == (*width as nat) * (*height as nat),
        }
    }

    pub open spec fn spec_width(&self) -> nat {
        match self {
            AlphaImage::Gray8 { width, .. } => *width as nat,
            AlphaImage::Gray16 { width, .. } => *width as nat,
        }
    }

    pub open spec fn spec_height(&self) -> nat {
        match self {
            AlphaImage::Gray8 { height, .. } => *height as nat,
            AlphaImage::Gray16 { height, .. } => *height as nat,
        }
    }

    pub fn width(&self) -> (r: usize)
        ensures
            r == self.spec_width(),
    {
        match self {
            AlphaImage::Gray8 { width, .. } => *width,
            AlphaImage::Gray16 { width, .. } => *width,
        }
    }

    pub fn height(&self) -> (r: usize)
        ensures
            r == self.spec_height(),
    {
        match self {
            AlphaImage::Gray8 { height, .. } => *height,
            AlphaImage::Gray16 { height, .. } => *height,
        }
    }
}

} // verus!
