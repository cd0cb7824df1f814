//! The compositor: each pixel of the output is taken from the layer that the
//! mask's brightness at that place selects.

use vstd::prelude::*;
use vstd::arithmetic::div_mod::lemma_fundamental_div_mod_converse;
use crate::codec::{luma, luminance};
use crate::error::Error;
use crate::ladder::{ladder_wf, QualityLadder};
use crate::raster::{lemma_offset_in_bounds, ColorModel, Image, ImageView, Pixel};

verus! {

/// The brightest value a mask pixel can have.
pub const MAX_WEIGHT: usize = 255;

/// The layer that a brightness selects in a ladder of `count` layers: the
/// brightness scaled from `0..=255` down to `0..=count - 1`, rounded down.
pub open spec fn index_for(weight: int, count: int) -> int
    recommends
        0 <= weight <= MAX_WEIGHT as int,
        1 <= count,
{
    weight * (count - 1) / (MAX_WEIGHT as int)
}

/// The brightness of the mask at `(x, y)`.
pub open spec fn weight_at(mask: ImageView, x: int, y: int) -> u8 {
    luma(mask.pixel(x, y))
}

/// The layer from which the output takes pixel `(x, y)`.
pub open spec fn chosen_layer(mask: ImageView, count: int, x: int, y: int) -> int {
    index_for(weight_at(mask, x, y) as int, count)
}

/// The pixel of the output at `(x, y)`.
pub open spec fn chosen_pixel(mask: ImageView, ladder: Seq<ImageView>, x: int, y: int) -> Pixel {
    ladder[chosen_layer(mask, ladder.len() as int, x, y)].pixel(x, y)
}

/// The output for a mask and a ladder: a picture of the mask's size, of
/// colour with opacity, whose every pixel is the chosen one.
pub open spec fn composited(mask: ImageView, ladder: Seq<ImageView>) -> ImageView {
    ImageView {
        width: mask.width,
        height: mask.height,
        color: ColorModel::Rgba,
        data: Seq::new(
            mask.width * mask.height * 4,
            |k: int|
                chosen_pixel(
                    mask,
                    ladder,
                    (k / 4) % (mask.width as int),
                    (k / 4) / (mask.width as int),
                ).channel(k % 4),
        ),
    }
}

/// Whether a picture has the given size.
pub open spec fn fits(dims: (u32, u32), v: ImageView) -> bool {
    v.width == dims.0 && v.height == dims.1
}

/// A brightness never selects a layer outside the ladder.
pub proof fn lemma_index_in_ladder(weight: int, count: int)
    requires
        0 <= weight <= MAX_WEIGHT as int,
        1 <= count,
    ensures
        0 <= index_for(weight, count) <= count - 1,
{
    assert(0 <= weight * (count - 1) <= 255 * (count - 1)) by (nonlinear_arith)
        requires
            0 <= weight <= 255,
            0 <= count - 1,
    ;
}

/// Sample `c` of pixel `(x, y)` stands at one place in a row-by-row buffer
/// of four samples per pixel, and the place gives the three back.
pub proof fn lemma_sample_position(width: int, x: int, y: int, c: int)
    requires
        0 <= x < width,
        0 <= y,
        0 <= c < 4,
    ensures
        ({
            let k = 4 * (y * width + x) + c;
            &&& k / 4 == y * width + x
            &&& k % 4 == c
            &&& (k / 4) % width == x
            &&& (k / 4) / width == y
        }),
{
    let p = y * width + x;
    lemma_fundamental_div_mod_converse(4 * p + c, 4, p, c);
    lemma_fundamental_div_mod_converse(p, width, y, x);
}

/// Black selects the bottom layer and white the top one, whatever the
/// length of the ladder, and a brighter mask never selects a lower layer.
pub proof fn lemma_index_ends(count: int, darker: int, brighter: int)
    requires
        1 <= count,
        0 <= darker <= brighter <= MAX_WEIGHT as int,
    ensures
        index_for(0, count) == 0,
        index_for(MAX_WEIGHT as int, count) == count - 1,
        index_for(darker, count) <= index_for(brighter, count),
{
    assert(0 * (count - 1) == 0 && 255 * (count - 1) / 255 == count - 1 && darker * (count - 1)
        <= brighter * (count - 1)) by (nonlinear_arith)
        requires
            0 <= count - 1,
            0 <= darker <= brighter,
    ;
}

/// What a mask and a ladder must be for a picture to be composited of them.
pub open spec fn compatible(mask: ImageView, ladder: Seq<ImageView>) -> bool {
    &&& mask.wf()
    &&& ladder_wf(ladder)
    &&& ladder[0].dimensions() == mask.dimensions()
}

/// The composited picture is well formed, and each of its pixels is the
/// pixel at the same place of the layer that the mask selects there.
pub proof fn lemma_composited_pixel(mask: ImageView, ladder: Seq<ImageView>, x: int, y: int)
    requires
        compatible(mask, ladder),
        mask.contains(x, y),
    ensures
        composited(mask, ladder).wf(),
        composited(mask, ladder).dimensions() == mask.dimensions(),
        0 <= chosen_layer(mask, ladder.len() as int, x, y) < ladder.len(),
        composited(mask, ladder).pixel(x, y) == chosen_pixel(mask, ladder, x, y),
{
    lemma_index_in_ladder(weight_at(mask, x, y) as int, ladder.len() as int);
    lemma_offset_in_bounds(composited(mask, ladder), x, y);
    lemma_sample_position(mask.width as int, x, y, 0);
    lemma_sample_position(mask.width as int, x, y, 1);
    lemma_sample_position(mask.width as int, x, y, 2);
    lemma_sample_position(mask.width as int, x, y, 3);
}

/// Over a ladder of a single layer the mask decides nothing: every pixel of
/// the output is that layer's pixel.
pub proof fn lemma_single_layer(mask: ImageView, ladder: Seq<ImageView>, x: int, y: int)
    requires
        compatible(mask, ladder),
        ladder.len() == 1,
        mask.contains(x, y),
    ensures
        composited(mask, ladder).pixel(x, y) == ladder[0].pixel(x, y),
{
    lemma_composited_pixel(mask, ladder, x, y);
    assert(weight_at(mask, x, y) * (1 - 1) == 0) by (nonlinear_arith);
}

/// What `composite` returns for a source size, a mask and a ladder.
pub open spec fn composite_result(
    source_dims: (u32, u32),
    mask: ImageView,
    ladder: Seq<ImageView>,
    r: Result<Image, Error>,
) -> bool {
    if !fits(source_dims, mask) {
        r == Err::<Image, Error>(
            Error::DimensionMismatch {
                expected: source_dims,
                found: (mask.width as u32, mask.height as u32),
            },
        )
    } else if !fits(source_dims, ladder[0]) {
        r == Err::<Image, Error>(
            Error::DimensionMismatch {
                expected: source_dims,
                found: (ladder[0].width as u32, ladder[0].height as u32),
            },
        )
    } else {
        r matches Ok(out) && out@ == composited(mask, ladder)
    }
}

/// Compositing is deterministic: two runs on one mask and one ladder end
/// alike, and where they succeed their pictures hold the same bytes.
pub proof fn lemma_composite_deterministic(
    source_dims: (u32, u32),
    mask: ImageView,
    ladder: Seq<ImageView>,
    first: Result<Image, Error>,
    second: Result<Image, Error>,
)
    requires
        composite_result(source_dims, mask, ladder, first),
        composite_result(source_dims, mask, ladder, second),
    ensures
        first is Ok <==> second is Ok,
        first is Err ==> first == second,
        first matches Ok(a) ==> second matches Ok(b) && a@ == b@,
{
}

/// Maps a mask brightness to a layer of a ladder of `count` layers.
pub fn layer_index(weight: u8, count: usize) -> (idx: usize)
    requires
        count >= 1,
    ensures
        idx == index_for(weight as int, count as int),
        idx < count,
{
    proof {
        lemma_index_in_ladder(weight as int, count as int);
        assert(0 <= weight * (count - 1) <= 255 * (count - 1)) by (nonlinear_arith)
            requires
                0 <= weight <= 255,
                0 <= count - 1,
        ;
    }
    let scaled: u128 = weight as u128 * (count - 1) as u128;
    (scaled / 255) as usize
}

/// Rejects a mask whose size is not that of the source.
pub fn check_dimensions(source_dims: (u32, u32), mask_dims: (u32, u32)) -> (r: Result<(), Error>)
    ensures
        source_dims == mask_dims ==> r is Ok,
        source_dims != mask_dims ==> r == Err::<(), Error>(
            Error::DimensionMismatch { expected: source_dims, found: mask_dims },
        ),
{
    if source_dims.0 == mask_dims.0 && source_dims.1 == mask_dims.1 {
        Ok(())
    } else {
        Err(Error::DimensionMismatch { expected: source_dims, found: mask_dims })
    }
}

/// Composites the output for a mask over a ladder. The mask and the ladder
/// must both have the size of the source; the mask is looked at first.
/// The pixels do not depend on one another: the output is a function of the
/// mask and the ladder alone.
pub fn composite(source_dims: (u32, u32), mask: &Image, ladder: &QualityLadder) -> (r: Result<
    Image,
    Error,
>)
    ensures
        composite_result(source_dims, mask@, ladder@, r),
        r matches Ok(out) ==> out@.wf(),
{
    match check_dimensions(source_dims, mask.dimensions()) {
        Err(e) => {
            return Err(e);
        },
        Ok(_) => {},
    }
    match check_dimensions(source_dims, ladder.dimensions()) {
        Err(e) => {
            return Err(e);
        },
        Ok(_) => {},
    }
    let (width, height) = source_dims;
    let count = ladder.len();
    let ghost goal = composited(mask@, ladder@);
    let mut out: Vec<u8> = Vec::new();
    let mut y: u32 = 0;
    while y < height
        invariant
            y <= height,
            mask@.wf(),
            fits((width, height), mask@),
            ladder_wf(ladder@),
            fits((width, height), ladder@[0]),
            count == ladder@.len(),
            goal == composited(mask@, ladder@),
            out@.len() == 4 * (y * width),
            forall|k: int| 0 <= k < out@.len() ==> #[trigger] out@[k] == goal.data[k],
        decreases height - y,
    {
        let mut x: u32 = 0;
        while x < width
            invariant
                y < height,
                x <= width,
                mask@.wf(),
                fits((width, height), mask@),
                ladder_wf(ladder@),
                fits((width, height), ladder@[0]),
                count == ladder@.len(),
                goal == composited(mask@, ladder@),
                out@.len() == 4 * (y * width + x),
                forall|k: int| 0 <= k < out@.len() ==> #[trigger] out@[k] == goal.data[k],
            decreases width - x,
        {
            let weight = luminance(mask.pixel(x, y));
            let idx = layer_index(weight, count);
            let p = ladder.layer(idx).pixel(x, y);
            proof {
                lemma_offset_in_bounds(mask@, x as int, y as int);
                lemma_sample_position(width as int, x as int, y as int, 0);
                lemma_sample_position(width as int, x as int, y as int, 1);
                lemma_sample_position(width as int, x as int, y as int, 2);
                lemma_sample_position(width as int, x as int, y as int, 3);
            }
            out.push(p.r);
            out.push(p.g);
            out.push(p.b);
            out.push(p.a);
            x += 1;
        }
        assert(4 * (y * width + width) == 4 * ((y + 1) * width)) by (nonlinear_arith);
        y += 1;
    }
    assert(out@.len() == width * height * 4) by (nonlinear_arith)
        requires
            out@.len() == 4 * (height * width),
    ;
    assert(out@ =~= goal.data);
    Ok(Image::assemble(width, height, ColorModel::Rgba, out))
}

} // verus!
