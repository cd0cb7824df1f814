//! What can go wrong while a ladder is built or a picture is composited.

use vstd::prelude::*;

verus! {

/// The JPEG encoder reports trouble from its sink as an I/O error. The value
/// is opaque here: it is carried to the caller, never inspected.
#[verifier::external_type_specification]
#[verifier::external_body]
pub struct ExIoError(std::io::Error);

/// The image crate's decoding error. Opaque here, carried to the caller.
#[verifier::external_type_specification]
#[verifier::external_body]
pub struct ExImageError(image::ImageError);

/// Why one rung of the ladder could not be produced.
#[derive(Debug)]
pub enum CodecCause {
    /// The source picture is empty, or wider or taller than the codec
    /// carries; the codec was not called.
    OutOfRange { width: u32, height: u32 },
    /// The encoder refused the source picture.
    Encode(std::io::Error),
    /// The decoder could not read back what the encoder wrote.
    Decode(image::ImageError),
    /// The picture that came back has another size than the one sent in.
    Resized { width: u32, height: u32 },
}

/// Every failure ends the run: nothing is retried and no partial result is
/// handed out.
#[derive(Debug)]
pub enum Error {
    /// The requested number of layers is 0 or above `MAX_LAYERS`.
    InvalidLayerCount { count: usize },
    /// Two pictures that must share one size do not.
    DimensionMismatch { expected: (u32, u32), found: (u32, u32) },
    /// The codec failed on the layer of the given quality.
    CodecFailure { quality: u8, cause: CodecCause },
}

} // verus!
