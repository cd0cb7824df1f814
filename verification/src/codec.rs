//! The JPEG codec and the brightness of a pixel, as the `image` crate
//! computes them. What that crate returns is named here, not spelled out:
//! the rest of the library is proved for whatever those names stand for.

use vstd::prelude::*;
use crate::raster::{ColorModel, Image, ImageView, Pixel};

verus! {

/// The bytes that the `image` crate's JPEG encoder writes for a picture
/// with the given samples, size, samples per pixel and quality, or `None`
/// where it reports an error.
pub uninterp spec fn jpeg_encoding(
    data: Seq<u8>,
    width: nat,
    height: nat,
    channels: nat,
    quality: u8,
) -> Option<Seq<u8>>;

/// The picture that the `image` crate reads from a JPEG stream, wherever it
/// reads one: width, height, samples per pixel, and the samples of its
/// buffer.
pub uninterp spec fn jpeg_decoding(bytes: Seq<u8>) -> (nat, nat, nat, Seq<u8>);

/// The brightness that the `image` crate derives from a pixel's red, green,
/// blue and opacity samples.
pub uninterp spec fn rgba_luma(r: u8, g: u8, b: u8, a: u8) -> u8;

/// What encoding a picture at a quality gives.
pub open spec fn encoded(src: ImageView, quality: u8) -> Option<Seq<u8>> {
    jpeg_encoding(src.data, src.width, src.height, src.color.channel_count(), quality)
}

/// What decoding a byte stream gives wherever it gives a picture: the
/// picture in the colour model of the stream, its samples being as many from
/// the front of the decoder's buffer as fill the rectangle.
pub open spec fn decoded(bytes: Seq<u8>) -> ImageView {
    let (width, height, channels, samples) = jpeg_decoding(bytes);
    ImageView {
        width,
        height,
        color: ColorModel::of_channels(channels),
        data: samples.take((width * height * channels) as int),
    }
}

/// The largest width and the largest height that go through the codec.
pub const MAX_DIMENSION: u32 = 65528;

/// Whether a picture of this size goes through the codec: it has a pixel,
/// and neither side is above `MAX_DIMENSION`.
pub open spec fn codec_fits(width: nat, height: nat) -> bool {
    1 <= width <= MAX_DIMENSION as nat && 1 <= height <= MAX_DIMENSION as nat
}

/// Whether the bytes are what encoding gives for some picture that goes
/// through the codec.
pub open spec fn is_encoding(bytes: Seq<u8>) -> bool {
    exists|src: ImageView, quality: u8|
        src.wf() && codec_fits(src.width, src.height) && #[trigger] encoded(src, quality) == Some(
            bytes,
        )
}

/// The brightness of a pixel.
pub open spec fn luma(p: Pixel) -> u8 {
    rgba_luma(p.r, p.g, p.b, p.a)
}

/// Calls `image::jpeg::JPEGEncoder::new_with_quality` on an empty buffer and
/// then `encode` with the samples, the size and the colour type that belongs
/// to the colour model, at eight bits per channel.
///
/// Trusted: the call returns the same for the same arguments, which is what
/// `jpeg_encoding` names. The encoder reads the samples by position and
/// takes the last one for any position past the end, so it needs at least
/// one sample whenever the picture has a pixel; the demand on the length
/// grants that. It writes width and height in sixteen bits each: of a larger
/// picture it writes a stream of another size, and nothing here says
/// otherwise.
#[verifier::external_body]
fn jpeg_encode(data: &Vec<u8>, width: u32, height: u32, color: ColorModel, quality: u8) -> (r:
    Result<Vec<u8>, std::io::Error>)
    requires
        data@.len() == width * height * color.channel_count(),
    ensures
        match r {
            Ok(bytes) => jpeg_encoding(
                data@,
                width as nat,
                height as nat,
                color.channel_count(),
                quality,
            ) == Some(bytes@),
            Err(_) => jpeg_encoding(
                data@,
                width as nat,
                height as nat,
                color.channel_count(),
                quality,
            ) is None,
        },
{
    let kind = match color {
        ColorModel::Gray => image::ColorType::Gray(8),
        ColorModel::GrayAlpha => image::ColorType::GrayA(8),
        ColorModel::Rgb => image::ColorType::RGB(8),
        ColorModel::Rgba => image::ColorType::RGBA(8),
    };
    let mut buf: Vec<u8> = Vec::new();
    image::jpeg::JPEGEncoder::new_with_quality(&mut buf, quality).encode(data, width, height, kind)?;
    Ok(buf)
}

/// Calls `image::load` on the bytes with `ImageFormat::JPEG` and hands the
/// picture out as it is: its size, the colour model of its variant and the
/// buffer of that variant.
///
/// Trusted: on a stream that the encoder above wrote for a picture within
/// `MAX_DIMENSION` the call returns; where it returns a picture, it is the
/// same picture for the same bytes, which is what `jpeg_decoding` names, and
/// the buffer holds at least the samples of `width * height` pixels. Nothing
/// is said of a failure: the decoder starts a thread, so one call may fail
/// on bytes that the next one reads. Nothing is said of other bytes either:
/// the decoder is known to panic on some.
#[verifier::external_body]
fn jpeg_decode(bytes: &Vec<u8>) -> (r: Result<(u32, u32, ColorModel, Vec<u8>), image::ImageError>)
    requires
        is_encoding(bytes@),
    ensures
        r matches Ok(t) ==> jpeg_decoding(bytes@) == (
            t.0 as nat,
            t.1 as nat,
            t.2.channel_count(),
            t.3@,
        ) && t.3@.len() >= t.0 * t.1 * t.2.channel_count(),
{
    let picture = image::load(std::io::Cursor::new(&bytes[..]), image::ImageFormat::JPEG)?;
    let (width, height) = image::GenericImage::dimensions(&picture);
    Ok(match picture {
        image::DynamicImage::ImageLuma8(b) => (width, height, ColorModel::Gray, b.into_raw()),
        image::DynamicImage::ImageLumaA8(b) => (width, height, ColorModel::GrayAlpha, b.into_raw()),
        image::DynamicImage::ImageRgb8(b) => (width, height, ColorModel::Rgb, b.into_raw()),
        image::DynamicImage::ImageRgba8(b) => (width, height, ColorModel::Rgba, b.into_raw()),
    })
}

/// Calls `image::Pixel::to_luma` on an `image::Rgba` of the four samples and
/// takes the one channel of the result.
///
/// Trusted: the call returns the same for the same samples, which is what
/// `rgba_luma` names.
#[verifier::external_body]
fn rgba_to_luma(p: Pixel) -> (l: u8)
    ensures
        l == rgba_luma(p.r, p.g, p.b, p.a),
{
    image::Pixel::to_luma(&image::Rgba { data: [p.r, p.g, p.b, p.a] }).data[0]
}

/// Compresses a picture as JPEG at the given quality. The encoder takes a
/// quality below 1 as 1 and one above 100 as 100.
pub fn encode_layer(input: &Image, quality: u8) -> (r: Result<Vec<u8>, std::io::Error>)
    ensures
        match r {
            Ok(bytes) => encoded(input@, quality) == Some(bytes@),
            Err(_) => encoded(input@, quality) is None,
        },
{
    let (width, height) = input.dimensions();
    jpeg_encode(input.as_raw(), width, height, input.color(), quality)
}

/// Whether a picture of this size goes through the codec.
pub fn within_codec_range(width: u32, height: u32) -> (b: bool)
    ensures
        b == codec_fits(width as nat, height as nat),
{
    1 <= width && width <= MAX_DIMENSION && 1 <= height && height <= MAX_DIMENSION
}

/// Reads back a JPEG stream that `encode_layer` wrote for a picture within
/// the codec's range. The picture comes in the colour model of the stream:
/// gray for a source of brightness, colour for a source of colour, in both
/// cases without opacity.
pub fn decode_layer(buf: Vec<u8>) -> (r: Result<Image, image::ImageError>)
    requires
        is_encoding(buf@),
    ensures
        r matches Ok(img) ==> img@ == decoded(buf@) && img@.wf(),
{
    match jpeg_decode(&buf) {
        Ok((width, height, color, samples)) => {
            let n = color.channels();
            assert(width * height * n <= samples@.len());
            assert(0 <= width * height <= width * height * n) by (nonlinear_arith)
                requires
                    1 <= n,
                    0 <= width,
                    0 <= height,
            ;
            assert(samples@.len() == samples.len());
            let needed: usize = width as usize * height as usize * n;
            let mut data = samples;
            data.truncate(needed);
            Ok(Image::assemble(width, height, color, data))
        },
        Err(e) => Err(e),
    }
}

/// The brightness of a pixel, from 0 for black to 255 for white.
pub fn luminance(p: Pixel) -> (l: u8)
    ensures
        l == luma(p),
{
    rgba_to_luma(p)
}

} // verus!
