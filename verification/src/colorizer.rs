//! Maps escape-time classifications to colours.
//!
//! A classification is `Some(n)` for a point that escaped at iteration `n`
//! and `None` for a point that stayed bounded. Bounded points are painted
//! with the background colour. Escaped points are painted from a palette
//! after a banding step that compresses the observed range of escape times
//! to the number of colours at hand.

use rayon::iter::IntoParallelRefIterator;
use rayon::iter::ParallelIterator;
use vstd::prelude::*;
use crate::color_bucket::ColorBucket;

verus! {

/// The colour of bounded points: black.
pub open spec fn background() -> [u8; 3] {
    [0u8, 0u8, 0u8]
}

/// Some sample of the grid escaped.
pub open spec fn any_escaped(values: Seq<Option<u32>>) -> bool {
    exists|i: int| 0 <= i < values.len() && (#[trigger] values[i]) is Some
}

/// `lo` is the smallest escape time in the grid.
pub open spec fn is_escape_min(values: Seq<Option<u32>>, lo: u32) -> bool {
    &&& exists|i: int| 0 <= i < values.len() && #[trigger] values[i] == Some(lo)
    &&& forall|i: int| 0 <= i < values.len() && (#[trigger] values[i]) is Some ==> lo <= values[i]->0
}

/// `hi` is the largest escape time in the grid.
pub open spec fn is_escape_max(values: Seq<Option<u32>>, hi: u32) -> bool {
    &&& exists|i: int| 0 <= i < values.len() && #[trigger] values[i] == Some(hi)
    &&& forall|i: int| 0 <= i < values.len() && (#[trigger] values[i]) is Some ==> values[i]->0 <= hi
}

/// The smallest and largest escape time of the grid, bounded samples
/// ignored; `None` for a grid without any escaped sample.
pub open spec fn escape_bounds(values: Seq<Option<u32>>) -> Option<(u32, u32)> {
    if any_escaped(values) {
        Some(
            (
                choose|lo: u32| is_escape_min(values, lo),
                choose|hi: u32| is_escape_max(values, hi),
            ),
        )
    } else {
        None
    }
}

/// The divisor that compresses escape times into palette indices: 1 for a
/// grid without escaped samples or with a single escape time (a range that
/// is not wider than a point), else the width of the observed range divided
/// by the smaller of palette length and depth, and never below 1.
pub open spec fn modifier_for(range: Option<(u32, u32)>, palette_len: int, depth: u32) -> int {
    match range {
        None => 1,
        Some((lo, hi)) => if hi <= lo {
            1
        } else {
            let bands = if palette_len < depth { palette_len } else { depth as int };
            let width = (hi - lo) / bands;
            if width < 1 { 1 } else { width }
        },
    }
}

/// The banding divisor of a whole grid.
pub open spec fn grid_modifier(values: Seq<Option<u32>>, palette_len: int, depth: u32) -> int {
    modifier_for(escape_bounds(values), palette_len, depth)
}

/// The palette slot of escape time `v`.
pub open spec fn palette_index(v: u32, modifier: int, palette_len: int) -> int {
    (v as int / modifier) % palette_len
}

/// The colour of one sample under a given banding divisor.
pub open spec fn pixel_color(value: Option<u32>, palette: Seq<ColorBucket>, modifier: int) -> [
    u8;
    3
] {
    match value {
        None => background(),
        Some(v) => palette[palette_index(v, modifier, palette.len() as int)].rgb(),
    }
}

/// The colours of a whole grid, sample by sample.
pub open spec fn colorized(values: Seq<Option<u32>>, palette: Seq<ColorBucket>, depth: u32) -> Seq<
    [u8; 3],
> {
    Seq::new(
        values.len(),
        |i: int| pixel_color(values[i], palette, grid_modifier(values, palette.len() as int, depth)),
    )
}

/// Row-major bytes of a pixel sequence: three per pixel, no padding.
pub open spec fn flattened(pixels: Seq<[u8; 3]>) -> Seq<u8> {
    Seq::new(3 * pixels.len(), |k: int| pixels[k / 3][k % 3])
}

/// A grid has at most one smallest escape time.
pub proof fn lemma_escape_min_unique(values: Seq<Option<u32>>, a: u32, b: u32)
    requires
        is_escape_min(values, a),
        is_escape_min(values, b),
    ensures
        a == b,
{
    let i = choose|i: int| 0 <= i < values.len() && #[trigger] values[i] == Some(a);
    let j = choose|j: int| 0 <= j < values.len() && #[trigger] values[j] == Some(b);
    assert(values[i] is Some && values[j] is Some);
}

/// A grid has at most one largest escape time.
pub proof fn lemma_escape_max_unique(values: Seq<Option<u32>>, a: u32, b: u32)
    requires
        is_escape_max(values, a),
        is_escape_max(values, b),
    ensures
        a == b,
{
    let i = choose|i: int| 0 <= i < values.len() && #[trigger] values[i] == Some(a);
    let j = choose|j: int| 0 <= j < values.len() && #[trigger] values[j] == Some(b);
    assert(values[i] is Some && values[j] is Some);
}

/// Whoever knows the extremes of a grid knows its bounds.
pub proof fn lemma_escape_bounds_are(values: Seq<Option<u32>>, lo: u32, hi: u32)
    requires
        is_escape_min(values, lo),
        is_escape_max(values, hi),
    ensures
        escape_bounds(values) == Some((lo, hi)),
{
    let i = choose|i: int| 0 <= i < values.len() && #[trigger] values[i] == Some(lo);
    assert(values[i] is Some);
    assert(any_escaped(values));
    lemma_escape_min_unique(values, lo, choose|m: u32| is_escape_min(values, m));
    lemma_escape_max_unique(values, hi, choose|m: u32| is_escape_max(values, m));
}

/// The bounds of a grid are attained and enclose every escape time.
pub proof fn lemma_escape_bounds_enclose(values: Seq<Option<u32>>)
    requires
        any_escaped(values),
    ensures
        escape_bounds(values) matches Some((lo, hi)) && is_escape_min(values, lo) && is_escape_max(
            values,
            hi,
        ) && lo <= hi,
{
    let (lo, hi) = lemma_extremes_exist(values);
    lemma_escape_bounds_are(values, lo, hi);
}

/// A grid with an escaped sample has a smallest and a largest escape time.
proof fn lemma_extremes_exist(values: Seq<Option<u32>>) -> (r: (u32, u32))
    requires
        any_escaped(values),
    ensures
        is_escape_min(values, r.0),
        is_escape_max(values, r.1),
        r.0 <= r.1,
    decreases values.len(),
{
    let k = choose|i: int| 0 <= i < values.len() && (#[trigger] values[i]) is Some;
    let rest = values.drop_last();
    let last = values.last();
    if exists|i: int| 0 <= i < rest.len() && (#[trigger] rest[i]) is Some {
        let (lo, hi) = lemma_extremes_exist(rest);
        let il = choose|i: int| 0 <= i < rest.len() && #[trigger] rest[i] == Some(lo);
        let ih = choose|i: int| 0 <= i < rest.len() && #[trigger] rest[i] == Some(hi);
        assert(values[il] == Some(lo) && values[ih] == Some(hi));
        let new_lo = if last is Some && last->0 < lo { last->0 } else { lo };
        let new_hi = if last is Some && last->0 > hi { last->0 } else { hi };
        assert(values[values.len() - 1] == last);
        assert forall|i: int| 0 <= i < values.len() && (#[trigger] values[i]) is Some implies new_lo
            <= values[i]->0 <= new_hi by {
            if i < rest.len() {
                assert(rest[i] == values[i]);
            }
        }
        (new_lo, new_hi)
    } else {
        assert(k == values.len() - 1) by {
            if k < rest.len() {
                assert(rest[k] == values[k]);
            }
        }
        let v = last->0;
        assert(values[values.len() - 1] == Some(v));
        assert forall|i: int| 0 <= i < values.len() && (#[trigger] values[i]) is Some implies v
            <= values[i]->0 <= v by {
            if i < rest.len() {
                assert(rest[i] == values[i]);
            }
        }
        (v, v)
    }
}

/// The banding divisor is at least 1 whatever the grid holds, and every
/// escape time lands on a slot of the palette.
pub proof fn lemma_banding_is_defined(
    range: Option<(u32, u32)>,
    palette_len: int,
    depth: u32,
    v: u32,
)
    requires
        palette_len >= 1,
        depth >= 1,
    ensures
        modifier_for(range, palette_len, depth) >= 1,
        0 <= palette_index(v, modifier_for(range, palette_len, depth), palette_len) < palette_len,
{
    let modifier = modifier_for(range, palette_len, depth);
    assert(modifier >= 1);
    assert(0 <= v as int / modifier) by (nonlinear_arith)
        requires
            modifier >= 1,
            v >= 0,
    ;
}

/// Where all escaped samples of a grid share one escape time, the banding
/// divisor is 1 and all of them take the same palette slot and colour.
pub proof fn lemma_single_escape_time_collapses(
    values: Seq<Option<u32>>,
    palette: Seq<ColorBucket>,
    depth: u32,
)
    requires
        escape_bounds(values) matches Some((lo, hi)) && lo == hi,
    ensures
        grid_modifier(values, palette.len() as int, depth) == 1,
        forall|i: int, j: int|
            0 <= i < values.len() && 0 <= j < values.len() && (#[trigger] values[i]) is Some && (
            #[trigger] values[j]) is Some ==> {
                &&& values[i] == values[j]
                &&& palette_index(values[i]->0, 1, palette.len() as int) == palette_index(
                    values[j]->0,
                    1,
                    palette.len() as int,
                )
                &&& colorized(values, palette, depth)[i] == colorized(values, palette, depth)[j]
            },
{
    lemma_escape_bounds_enclose(values);
}

/// A grid without any escaped sample is painted with the background
/// colour throughout, and no range of escape times is formed for it.
pub proof fn lemma_bounded_grid_is_background(
    values: Seq<Option<u32>>,
    palette: Seq<ColorBucket>,
    depth: u32,
)
    requires
        forall|i: int| 0 <= i < values.len() ==> (#[trigger] values[i]) is None,
    ensures
        escape_bounds(values) is None,
        colorized(values, palette, depth).len() == values.len(),
        forall|i: int|
            0 <= i < values.len() ==> #[trigger] colorized(values, palette, depth)[i]
                == background(),
{
}

/// With one colour for every iteration below the cap, banding changes
/// nothing: escape time `v` is painted with the colour in slot `v`.
pub proof fn lemma_full_palette_is_direct(
    values: Seq<Option<u32>>,
    palette: Seq<ColorBucket>,
    depth: u32,
)
    requires
        depth >= 1,
        palette.len() == depth,
        forall|i: int|
            0 <= i < values.len() && (#[trigger] values[i]) is Some ==> values[i]->0 < depth,
    ensures
        grid_modifier(values, palette.len() as int, depth) == 1,
        forall|i: int|
            0 <= i < values.len() && (#[trigger] values[i]) is Some ==> colorized(
                values,
                palette,
                depth,
            )[i] == palette[values[i]->0 as int].rgb(),
{
    if any_escaped(values) {
        lemma_escape_bounds_enclose(values);
        let (lo, hi) = escape_bounds(values)->0;
        let at = choose|i: int| 0 <= i < values.len() && #[trigger] values[i] == Some(hi);
        assert(values[at] is Some);
        assert(hi < depth);
        assert((hi - lo) / (depth as int) == 0) by (nonlinear_arith)
            requires
                0 <= hi - lo < depth,
        ;
    }
    assert forall|i: int| 0 <= i < values.len() && (#[trigger] values[i]) is Some implies colorized(
        values,
        palette,
        depth,
    )[i] == palette[values[i]->0 as int].rgb() by {
        let v = values[i]->0;
        assert(v as int / 1 == v);
        assert((v as int) % (depth as int) == v) by (nonlinear_arith)
            requires
                0 <= v < depth,
        ;
    }
}

/// Scans a grid for its smallest and largest escape time.
pub fn escape_range(values: &Vec<Option<u32>>) -> (range: Option<(u32, u32)>)
    ensures
        range == escape_bounds(values@),
{
    let mut range: Option<(u32, u32)> = None;
    let ghost mut lo_at: int = 0;
    let ghost mut hi_at: int = 0;
    let mut i: usize = 0;
    while i < values.len()
        invariant
            i <= values.len(),
            range is None ==> forall|j: int| 0 <= j < i ==> (#[trigger] values@[j]) is None,
            range matches Some((lo, hi)) ==> {
                &&& 0 <= lo_at < i && values@[lo_at] == Some(lo)
                &&& 0 <= hi_at < i && values@[hi_at] == Some(hi)
                &&& forall|j: int|
                    0 <= j < i && (#[trigger] values@[j]) is Some ==> lo <= values@[j]->0 <= hi
            },
        decreases values.len() - i,
    {
        match values[i] {
            None => {},
            Some(v) => {
                match range {
                    None => {
                        range = Some((v, v));
                        proof {
                            lo_at = i as int;
                            hi_at = i as int;
                        }
                    },
                    Some((lo, hi)) => {
                        if v < lo {
                            range = Some((v, hi));
                            proof {
                                lo_at = i as int;
                            }
                        } else if v > hi {
                            range = Some((lo, v));
                            proof {
                                hi_at = i as int;
                            }
                        }
                    },
                }
            },
        }
        i += 1;
    }
    proof {
        match range {
            None => {
                assert(!any_escaped(values@));
            },
            Some((lo, hi)) => {
                lemma_escape_bounds_are(values@, lo, hi);
            },
        }
    }
    range
}

/// Computes the banding divisor from the observed range.
pub fn band_modifier(range: Option<(u32, u32)>, palette_len: usize, depth: u32) -> (modifier: u32)
    requires
        palette_len >= 1,
        depth >= 1,
    ensures
        modifier == modifier_for(range, palette_len as int, depth),
        modifier >= 1,
{
    match range {
        None => 1,
        Some((lo, hi)) => {
            if lo >= hi {
                1
            } else {
                let bands: u32 = if palette_len < depth as usize {
                    palette_len as u32
                } else {
                    depth
                };
                let width: u32 = (hi - lo) / bands;
                if width < 1 {
                    1
                } else {
                    width
                }
            }
        },
    }
}

/// Paints one sample under a given banding divisor.
pub fn colorize_banded(value: Option<u32>, color_buckets: &[ColorBucket], modifier: u32) -> (pixel:
    [u8; 3])
    requires
        value is Some ==> color_buckets@.len() >= 1 && modifier >= 1,
    ensures
        pixel == pixel_color(value, color_buckets@, modifier as int),
{
    match value {
        Some(v) => {
            let slot: usize = (v / modifier) as usize % color_buckets.len();
            color_buckets[slot].get_color()
        },
        None => [0, 0, 0],
    }
}

/// Paints one sample without banding: escape time `v` takes palette slot
/// `v` modulo the palette length.
pub fn colorize(value: Option<u32>, color_buckets: &[ColorBucket]) -> (pixel: [u8; 3])
    requires
        value is Some ==> color_buckets@.len() >= 1,
    ensures
        pixel == pixel_color(value, color_buckets@, 1),
{
    colorize_banded(value, color_buckets, 1)
}

/// Paints every sample of a grid in parallel.
///
/// Trusted: rayon's `par_iter`, `map` and `collect` on a vector. The
/// contract claims that the collected vector has one entry per sample, in
/// the order of the samples, each entry being what the mapped function
/// returns for that sample.
#[verifier::external_body]
fn paint_parallel(values: &Vec<Option<u32>>, color_buckets: &Vec<ColorBucket>, modifier: u32) -> (pixels:
    Vec<[u8; 3]>)
    requires
        color_buckets@.len() >= 1,
        modifier >= 1,
    ensures
        pixels@.len() == values@.len(),
        forall|i: int|
            0 <= i < values@.len() ==> #[trigger] pixels@[i] == pixel_color(
                values@[i],
                color_buckets@,
                modifier as int,
            ),
{
    values.par_iter().map(|v| colorize_banded(*v, color_buckets.as_slice(), modifier)).collect()
}

/// Paints a grid: finds the range of its escape times, derives the banding
/// divisor and maps every sample through the palette.
pub fn paint_grid(values: &Vec<Option<u32>>, color_buckets: &Vec<ColorBucket>, depth: u32) -> (pixels:
    Vec<[u8; 3]>)
    requires
        color_buckets@.len() >= 1,
        depth >= 1,
    ensures
        pixels@ == colorized(values@, color_buckets@, depth),
{
    let range = escape_range(values);
    let modifier = band_modifier(range, color_buckets.len(), depth);
    let pixels = paint_parallel(values, color_buckets, modifier);
    assert(pixels@ =~= colorized(values@, color_buckets@, depth));
    pixels
}

/// Paints a grid straight into row-major bytes, three per sample.
pub fn paint_grid_bytes(values: &Vec<Option<u32>>, color_buckets: &Vec<ColorBucket>, depth: u32) -> (bytes:
    Vec<u8>)
    requires
        color_buckets@.len() >= 1,
        depth >= 1,
    ensures
        bytes@ == flattened(colorized(values@, color_buckets@, depth)),
{
    let range = escape_range(values);
    let modifier = band_modifier(range, color_buckets.len(), depth);
    let ghost pixels = colorized(values@, color_buckets@, depth);
    let mut bytes: Vec<u8> = Vec::new();
    let mut i: usize = 0;
    while i < values.len()
        invariant
            i <= values.len(),
            color_buckets@.len() >= 1,
            modifier >= 1,
            modifier == grid_modifier(values@, color_buckets@.len() as int, depth),
            pixels == colorized(values@, color_buckets@, depth),
            bytes@.len() == 3 * i,
            forall|k: int| 0 <= k < 3 * i ==> #[trigger] bytes@[k] == pixels[k / 3][k % 3],
        decreases values.len() - i,
    {
        let rgb = colorize_banded(values[i], color_buckets.as_slice(), modifier);
        assert(rgb == pixels[i as int]);
        bytes.push(rgb[0]);
        bytes.push(rgb[1]);
        bytes.push(rgb[2]);
        i += 1;
    }
    assert(bytes@ =~= flattened(pixels));
    bytes
}

} // verus!
