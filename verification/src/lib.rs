//! Mask-driven selection among lossy recompressions of one image.
//!
//! A source picture is recompressed as JPEG at a ladder of ascending quality
//! values. A mask of the same size then decides, pixel by pixel, which rung of
//! the ladder the output takes its colour from: the darker the mask, the lower
//! the rung.

pub mod codec;
pub mod compositor;
pub mod error;
pub mod ladder;
pub mod pipeline;
pub mod quality;
pub mod raster;
