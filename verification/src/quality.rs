//! The quality values of a ladder: `count` evenly spaced steps up from 0.

use vstd::prelude::*;
use crate::error::Error;

verus! {

/// The codec takes qualities below this bound.
pub const QUALITY_RANGE: usize = 100;

/// A ladder has at least one layer and at most this many.
pub const MAX_LAYERS: usize = 100;

/// Whether a ladder of `count` layers may be asked for.
pub open spec fn valid_layer_count(count: int) -> bool {
    1 <= count <= MAX_LAYERS as int
}

/// Distance between the qualities of neighbouring layers.
pub open spec fn quality_step(count: int) -> int
    recommends
        valid_layer_count(count),
{
    QUALITY_RANGE as int / count
}

/// Quality at which layer `i` of a ladder of `count` layers is compressed.
pub open spec fn quality_at(count: int, i: int) -> int
    recommends
        valid_layer_count(count),
        0 <= i < count,
{
    i * quality_step(count)
}

/// The qualities of a whole ladder, lowest first.
pub open spec fn quality_seq(count: int) -> Seq<u8> {
    Seq::new(count as nat, |i: int| quality_at(count, i) as u8)
}

/// Every quality of a valid ladder lies inside the codec's range.
pub proof fn lemma_quality_in_range(count: int, i: int)
    requires
        valid_layer_count(count),
        0 <= i < count,
    ensures
        0 <= quality_at(count, i) < QUALITY_RANGE as int,
        quality_at(count, i) <= 100 - quality_step(count),
        1 <= quality_step(count) <= 100,
{
    let step = quality_step(count);
    assert(1 <= step <= 100 && step * count <= 100) by (nonlinear_arith)
        requires
            1 <= count <= 100,
            step == 100int / count,
    ;
    assert(0 <= i * step && i * step + step <= step * count) by (nonlinear_arith)
        requires
            0 <= i < count,
            1 <= step,
    ;
}

/// The qualities of a ladder ascend: a higher layer never has a lower
/// quality, and two different layers never share one. The bottom layer has
/// the lowest quality, which is 0, and the top layer the highest.
pub proof fn lemma_qualities_ascend(count: int, i: int, j: int)
    requires
        valid_layer_count(count),
        0 <= i <= j < count,
    ensures
        quality_at(count, i) <= quality_at(count, j),
        i < j ==> quality_at(count, i) < quality_at(count, j),
        quality_at(count, 0) == 0,
        quality_at(count, 0) <= quality_at(count, i),
        quality_at(count, j) <= quality_at(count, count - 1),
        quality_seq(count).len() == count,
        quality_seq(count)[i] <= quality_seq(count)[j],
{
    let step = quality_step(count);
    lemma_quality_in_range(count, i);
    lemma_quality_in_range(count, j);
    lemma_quality_in_range(count, count - 1);
    assert(i * step <= j * step && (i < j ==> i * step < j * step) && j * step <= (count - 1)
        * step && 0 * step == 0) by (nonlinear_arith)
        requires
            0 <= i <= j < count,
            1 <= step,
    ;
}

/// A ladder of one layer is compressed at quality 0.
pub proof fn lemma_single_quality()
    ensures
        quality_seq(1) == seq![0u8],
{
    assert(quality_at(1, 0) == 0) by (nonlinear_arith);
    assert(quality_seq(1) =~= seq![0u8]);
}

/// Rejects a layer count of 0 or above `MAX_LAYERS`.
pub fn check_layer_count(count: usize) -> (r: Result<(), Error>)
    ensures
        valid_layer_count(count as int) ==> r is Ok,
        !valid_layer_count(count as int) ==> r == Err::<(), Error>(
            Error::InvalidLayerCount { count },
        ),
{
    if count == 0 || count > MAX_LAYERS {
        Err(Error::InvalidLayerCount { count })
    } else {
        Ok(())
    }
}

/// The quality of layer `i` in a ladder of `count` layers.
pub fn quality_value(count: usize, i: usize) -> (q: u8)
    requires
        valid_layer_count(count as int),
        i < count,
    ensures
        q == quality_at(count as int, i as int),
{
    proof {
        lemma_quality_in_range(count as int, i as int);
    }
    let step: usize = QUALITY_RANGE / count;
    (i * step) as u8
}

/// The qualities of a ladder of `count` layers, lowest first: `count` values
/// from 0 upwards, `QUALITY_RANGE / count` apart. Where `count` does not
/// divide the range, the top of the range stays unused.
pub fn quality_values(count: usize) -> (r: Result<Vec<u8>, Error>)
    ensures
        valid_layer_count(count as int) ==> (r matches Ok(v) && v@ == quality_seq(count as int)),
        !valid_layer_count(count as int) ==> r == Err::<Vec<u8>, Error>(
            Error::InvalidLayerCount { count },
        ),
{
    if count == 0 || count > MAX_LAYERS {
        return Err(Error::InvalidLayerCount { count });
    }
    let mut values: Vec<u8> = Vec::new();
    let mut i: usize = 0;
    while i < count
        invariant
            valid_layer_count(count as int),
            i <= count,
            values@ == quality_seq(count as int).take(i as int),
        decreases count - i,
    {
        let q = quality_value(count, i);
        values.push(q);
        i += 1;
    }
    Ok(values)
}

} // verus!
