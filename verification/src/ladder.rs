//! The quality ladder: one source picture recompressed at ascending
//! qualities, each layer made from the source itself.

use vstd::prelude::*;
use crate::codec::{
    codec_fits,
    decode_layer,
    decoded,
    encode_layer,
    encoded,
    is_encoding,
    within_codec_range,
};
use crate::error::{CodecCause, Error};
use crate::quality::{
    check_layer_count,
    lemma_qualities_ascend,
    quality_at,
    quality_seq,
    quality_value,
    valid_layer_count,
};
use crate::raster::{Image, ImageView};

verus! {

/// The layer that the round trip of a source at `quality` gives, wherever
/// it gives one: the source must go through the codec, the encoder must
/// give bytes, and what is read back from them must have the source's size.
pub open spec fn layer_of(src: ImageView, quality: u8) -> Option<ImageView> {
    if !codec_fits(src.width, src.height) {
        None
    } else {
        match encoded(src, quality) {
            None => None,
            Some(bytes) => if decoded(bytes).dimensions() == src.dimensions() {
                Some(decoded(bytes))
            } else {
                None
            },
        }
    }
}

/// Whether `e` is an error that making the layer at `quality` may end in.
/// It names the quality, and its cause says how far the round trip came:
/// not to the codec, not past the encoder, not past the decoder, or to a
/// picture of another size.
pub open spec fn explains(e: Error, src: ImageView, quality: u8) -> bool {
    &&& e matches Error::CodecFailure { quality: q, cause }
    &&& q == quality
    &&& match cause {
        CodecCause::OutOfRange { width, height } => {
            &&& !codec_fits(src.width, src.height)
            &&& width == src.width
            &&& height == src.height
        },
        CodecCause::Encode(_) => {
            &&& codec_fits(src.width, src.height)
            &&& encoded(src, quality) is None
        },
        CodecCause::Decode(_) => {
            &&& codec_fits(src.width, src.height)
            &&& encoded(src, quality) is Some
        },
        CodecCause::Resized { width, height } => {
            &&& codec_fits(src.width, src.height)
            &&& encoded(src, quality) matches Some(bytes)
            &&& decoded(bytes).dimensions() == (width as nat, height as nat)
            &&& decoded(bytes).dimensions() != src.dimensions()
        },
    }
}

/// The layer `i` of a ladder of `count` layers, wherever there is one.
pub open spec fn layer_at(src: ImageView, count: int, i: int) -> Option<ImageView> {
    layer_of(src, quality_at(count, i) as u8)
}

/// Whether the round trips of the first `n` layers of a ladder of `count`
/// layers have each given a layer.
pub open spec fn builds(src: ImageView, count: int, n: int) -> bool {
    forall|i: int| 0 <= i < n ==> #[trigger] layer_at(src, count, i) is Some
}

/// The ladder of `count` layers over a source, where all of them are there.
pub open spec fn ladder_of(src: ImageView, count: int) -> Seq<ImageView> {
    Seq::new(count as nat, |i: int| layer_at(src, count, i)->Some_0)
}

/// What holds of the layers of every ladder: there are between 1 and
/// `MAX_LAYERS` of them, and all have one size.
pub open spec fn ladder_wf(layers: Seq<ImageView>) -> bool {
    &&& valid_layer_count(layers.len() as int)
    &&& forall|i: int|
        0 <= i < layers.len() ==> (#[trigger] layers[i]).wf() && layers[i].dimensions()
            == layers[0].dimensions()
}

/// The contents of a run of pictures.
pub open spec fn views_of(layers: Seq<Image>) -> Seq<ImageView> {
    Seq::new(layers.len(), |i: int| layers[i]@)
}

/// Whether the first `n` pictures all have the size of the first one.
pub open spec fn same_size(views: Seq<ImageView>, n: int) -> bool {
    forall|i: int| 0 <= i < n ==> (#[trigger] views[i]).dimensions() == views[0].dimensions()
}

/// Whether picture `k` is the first whose size differs from the first one's.
pub open spec fn misfit_at(views: Seq<ImageView>, k: int) -> bool {
    &&& 0 < k < views.len()
    &&& same_size(views, k)
    &&& views[k].dimensions() != views[0].dimensions()
}

/// In a ladder that builds, layer `i` is the round trip of the source at the
/// `i`-th quality and has the size of the source, and a layer further up
/// comes from a quality that is not lower.
pub proof fn lemma_ladder_order(src: ImageView, count: int, i: int, j: int)
    requires
        valid_layer_count(count),
        builds(src, count, count),
        0 <= i <= j < count,
    ensures
        ladder_of(src, count).len() == count,
        layer_of(src, quality_seq(count)[i]) == Some(ladder_of(src, count)[i]),
        ladder_of(src, count)[i].dimensions() == src.dimensions(),
        quality_seq(count)[i] <= quality_seq(count)[j],
{
    lemma_qualities_ascend(count, i, j);
    assert(layer_at(src, count, i) is Some);
}

/// Decides what becomes of one layer once the decoder has answered. A
/// picture of the expected size is the layer. A picture of another size
/// and a failure of the decoder both fail the layer, each with its cause.
pub fn accept_layer(
    width: u32,
    height: u32,
    quality: u8,
    answer: Result<Image, image::ImageError>,
) -> (r: Result<Image, Error>)
    ensures
        match answer {
            Ok(back) => if back@.width == width && back@.height == height {
                r == Ok::<Image, Error>(back)
            } else {
                r == Err::<Image, Error>(
                    Error::CodecFailure {
                        quality,
                        cause: CodecCause::Resized {
                            width: back@.width as u32,
                            height: back@.height as u32,
                        },
                    },
                )
            },
            Err(e) => r == Err::<Image, Error>(
                Error::CodecFailure { quality, cause: CodecCause::Decode(e) },
            ),
        },
{
    match answer {
        Ok(back) => {
            let (w, h) = back.dimensions();
            if w == width && h == height {
                Ok(back)
            } else {
                Err(
                    Error::CodecFailure {
                        quality,
                        cause: CodecCause::Resized { width: w, height: h },
                    },
                )
            }
        },
        Err(e) => Err(Error::CodecFailure { quality, cause: CodecCause::Decode(e) }),
    }
}

/// Makes one layer: the source compressed at `quality` and read back. A
/// source that is empty or above `MAX_DIMENSION` on a side is refused before
/// the codec is called. Where a layer comes back it is the one that the
/// round trip gives; where an error comes back it names the quality and says
/// how far the round trip came.
pub fn generate_layer(input: &Image, quality: u8) -> (r: Result<Image, Error>)
    ensures
        match r {
            Ok(layer) => layer_of(input@, quality) == Some(layer@) && layer@.wf(),
            Err(e) => explains(e, input@, quality),
        },
{
    let (width, height) = input.dimensions();
    if !within_codec_range(width, height) {
        return Err(
            Error::CodecFailure { quality, cause: CodecCause::OutOfRange { width, height } },
        );
    }
    let buf = match encode_layer(input, quality) {
        Ok(buf) => buf,
        Err(e) => {
            return Err(Error::CodecFailure { quality, cause: CodecCause::Encode(e) });
        },
    };
    assert(is_encoding(buf@)) by {
        assert(encoded(input@, quality) == Some(buf@));
    }
    accept_layer(width, height, quality, decode_layer(buf))
}

/// An ordered run of layers, lowest quality first. It is never empty, holds
/// at most `MAX_LAYERS` layers, and all of them have one size.
#[derive(Debug)]
pub struct QualityLadder {
    layers: Vec<Image>,
}

impl View for QualityLadder {
    type V = Seq<ImageView>;

    closed spec fn view(&self) -> Seq<ImageView> {
        Seq::new(self.layers@.len(), |i: int| self.layers@[i]@)
    }
}

impl QualityLadder {
    #[verifier::type_invariant]
    spec fn well_formed(self) -> bool {
        ladder_wf(self@)
    }

    /// Makes a ladder of pictures that are at hand. Their number must be
    /// valid and their sizes equal; the first picture that differs in size
    /// from the one at the bottom is reported.
    pub fn from_layers(layers: Vec<Image>) -> (r: Result<QualityLadder, Error>)
        ensures
            !valid_layer_count(layers@.len() as int) ==> r == Err::<QualityLadder, Error>(
                Error::InvalidLayerCount { count: layers@.len() as usize },
            ),
            valid_layer_count(layers@.len() as int) ==> match r {
                Ok(ladder) => ladder@ == views_of(layers@) && ladder_wf(ladder@),
                Err(e) => exists|k: int|
                    #[trigger] misfit_at(views_of(layers@), k) && e == (Error::DimensionMismatch {
                        expected: (layers@[0]@.width as u32, layers@[0]@.height as u32),
                        found: (layers@[k]@.width as u32, layers@[k]@.height as u32),
                    }),
            },
    {
        let count = layers.len();
        match check_layer_count(count) {
            Err(e) => {
                return Err(e);
            },
            Ok(_) => {},
        }
        let expected = layers[0].dimensions();
        let mut i: usize = 1;
        while i < count
            invariant
                count == layers@.len(),
                valid_layer_count(count as int),
                1 <= i <= count,
                expected.0 == layers@[0]@.width,
                expected.1 == layers@[0]@.height,
                forall|j: int|
                    0 <= j < i ==> (#[trigger] layers@[j])@.wf() && layers@[j]@.dimensions()
                        == layers@[0]@.dimensions(),
            decreases count - i,
        {
            let found = layers[i].dimensions();
            if found.0 != expected.0 || found.1 != expected.1 {
                assert(misfit_at(views_of(layers@), i as int));
                return Err(Error::DimensionMismatch { expected, found });
            }
            i += 1;
        }
        let ladder = QualityLadder { layers };
        assert(ladder@ =~= views_of(layers@));
        Ok(ladder)
    }

    /// The number of layers.
    pub fn len(&self) -> (n: usize)
        ensures
            n == self@.len(),
            ladder_wf(self@),
    {
        proof {
            use_type_invariant(self);
        }
        self.layers.len()
    }

    /// The size that all layers share.
    pub fn dimensions(&self) -> (d: (u32, u32))
        ensures
            d.0 == self@[0].width,
            d.1 == self@[0].height,
            ladder_wf(self@),
    {
        proof {
            use_type_invariant(self);
        }
        self.layers[0].dimensions()
    }

    /// Layer `i`, counted from the lowest quality.
    pub fn layer(&self, i: usize) -> (l: &Image)
        requires
            i < self@.len(),
        ensures
            l@ == self@[i as int],
            ladder_wf(self@),
    {
        proof {
            use_type_invariant(self);
        }
        &self.layers[i]
    }

    /// Gives up the ladder for its layers.
    pub fn into_layers(self) -> (layers: Vec<Image>)
        ensures
            self@ == views_of(layers@),
            ladder_wf(self@),
    {
        proof {
            use_type_invariant(&self);
        }
        self.layers
    }
}

/// Builds the ladder of `count` layers over a source: layer `i` is the
/// source compressed at quality `i * (100 / count)` and read back. Each
/// layer is made from the source, never from another layer. The first layer
/// on which the codec fails ends the run with its error.
pub fn generate_layers(input: &Image, count: usize) -> (r: Result<QualityLadder, Error>)
    ensures
        !valid_layer_count(count as int) ==> r == Err::<QualityLadder, Error>(
            Error::InvalidLayerCount { count },
        ),
        valid_layer_count(count as int) ==> match r {
            Ok(ladder) => builds(input@, count as int, count as int) && ladder@ == ladder_of(
                input@,
                count as int,
            ),
            Err(e) => exists|k: int|
                0 <= k < count && #[trigger] builds(input@, count as int, k) && explains(
                    e,
                    input@,
                    quality_at(count as int, k) as u8,
                ),
        },
        r matches Ok(ladder) ==> ladder@.len() == count && ladder_wf(ladder@) && forall|i: int|
            0 <= i < count ==> (#[trigger] ladder@[i]).dimensions() == input@.dimensions(),
{
    match check_layer_count(count) {
        Err(e) => {
            return Err(e);
        },
        Ok(_) => {},
    }
    let mut layers: Vec<Image> = Vec::new();
    let mut i: usize = 0;
    while i < count
        invariant
            valid_layer_count(count as int),
            i <= count,
            layers@.len() == i,
            builds(input@, count as int, i as int),
            forall|j: int|
                0 <= j < i ==> layer_at(input@, count as int, j) == Some((#[trigger] layers@[j])@)
                    && layers@[j]@.wf(),
        decreases count - i,
    {
        let quality = quality_value(count, i);
        match generate_layer(input, quality) {
            Ok(layer) => {
                layers.push(layer);
            },
            Err(e) => {
                assert(builds(input@, count as int, i as int));
                return Err(e);
            },
        }
        i += 1;
    }
    let ladder = QualityLadder { layers };
    assert(ladder@ =~= ladder_of(input@, count as int));
    Ok(ladder)
}

} // verus!
