//! The whole run: validate, build the ladder, composite.

use vstd::prelude::*;
use crate::compositor::{check_dimensions, composite, composited, fits};
use crate::error::Error;
use crate::ladder::{builds, explains, generate_layers, ladder_of};
use crate::quality::{check_layer_count, quality_at, valid_layer_count};
use crate::raster::{Image, ImageView};

verus! {

/// What `degrade` returns for a source, a mask and a layer count. The layer
/// count is looked at first, then the two sizes; only then is the codec
/// called, and the first layer on which it fails ends the run.
pub open spec fn degrade_result(
    source: ImageView,
    mask: ImageView,
    count: usize,
    r: Result<Image, Error>,
) -> bool {
    if !valid_layer_count(count as int) {
        r == Err::<Image, Error>(Error::InvalidLayerCount { count })
    } else if source.dimensions() != mask.dimensions() {
        r == Err::<Image, Error>(
            Error::DimensionMismatch {
                expected: (source.width as u32, source.height as u32),
                found: (mask.width as u32, mask.height as u32),
            },
        )
    } else {
        match r {
            Ok(out) => builds(source, count as int, count as int) && out@ == composited(
                mask,
                ladder_of(source, count as int),
            ),
            Err(e) => exists|k: int|
                0 <= k < count && #[trigger] builds(source, count as int, k) && explains(
                    e,
                    source,
                    quality_at(count as int, k) as u8,
                ),
        }
    }
}

/// Degrades a picture under a mask: where the mask is dark the output shows
/// the source as compressed at the lowest quality of a ladder of `count`
/// layers, where it is bright as compressed at the highest.
pub fn degrade(source: &Image, mask: &Image, count: usize) -> (r: Result<Image, Error>)
    ensures
        degrade_result(source@, mask@, count, r),
        r matches Ok(out) ==> out@.wf() && out@.dimensions() == source@.dimensions(),
{
    match check_layer_count(count) {
        Err(e) => {
            return Err(e);
        },
        Ok(_) => {},
    }
    let source_dims = source.dimensions();
    match check_dimensions(source_dims, mask.dimensions()) {
        Err(e) => {
            return Err(e);
        },
        Ok(_) => {},
    }
    let ladder = match generate_layers(source, count) {
        Ok(ladder) => ladder,
        Err(e) => {
            return Err(e);
        },
    };
    composite(source_dims, mask, &ladder)
}

} // verus!
