//! The pixel pipeline of an AVIF decoder: planar, chroma-subsampled,
//! variable-bit-depth YUV frames, as an AV1 frame decoder hands them
//! over, become flat interleaved RGB/RGBA/Gray buffers. Chroma
//! upsampling, range- and matrix-aware YUV-to-RGB conversion, alpha
//! extraction, compositing with bit-depth reconciliation, and reversal
//! of premultiplied alpha; every stage carries a verified contract.

pub mod compose;
pub mod convert;
pub mod foreign;
pub mod pipeline;
pub mod types;
pub mod upsample;

pub use compose::composite;
pub use compose::unpremultiply;
pub use compose::widen;
pub use pipeline::color_convert;
pub use pipeline::to_alpha;
pub use pipeline::to_gray;
pub use pipeline::to_image;
pub use types::AlphaImage;
pub use types::ChromaSampling;
pub use types::ColorMatrix;
pub use types::BitDepth;
pub use types::Error;
pub use types::Frame;
pub use types::Image;
pub use types::Range;
pub use upsample::upsample;
