//! Pixel grids: which pixel offsets a render or an estimate samples.
//!
//! Offsets are whole numbers of pixels counted from the centre of the
//! image. Turning an offset into a point of the plane takes the view's
//! centre and step size and is the caller's part.

use vstd::arithmetic::div_mod::lemma_fundamental_div_mod_converse;
use vstd::prelude::*;

verus! {

/// Side length of the coarse grid that an estimate samples.
pub const EST_SIZE: i32 = 10;

/// Number of pixels along an axis of the given extent: none for an extent
/// that is not positive.
pub open spec fn axis_len(extent: i32) -> int {
    if extent > 0 {
        extent as int
    } else {
        0
    }
}

/// Offset of the first pixel along an axis, so that the axis is centred on
/// zero.
pub open spec fn first_offset(extent: i32) -> int {
    -(extent as int / 2)
}

/// Offset of the `k`-th pixel of an image in row-major order.
pub open spec fn pixel_offset(shape: [i32; 2], k: int) -> [i32; 2] {
    [
        (first_offset(shape[0]) + k % (shape[0] as int)) as i32,
        (first_offset(shape[1]) + k / (shape[0] as int)) as i32,
    ]
}

/// All pixel offsets of an image of the given shape (width, height), row by
/// row from the top, each row from the left.
pub open spec fn pixel_grid(shape: [i32; 2]) -> Seq<[i32; 2]> {
    Seq::new((axis_len(shape[0]) * axis_len(shape[1])) as nat, |k: int| pixel_offset(shape, k))
}

/// The quotient of `n` by a positive `d`, rounded toward zero.
pub open spec fn quotient_toward_zero(n: int, d: int) -> int {
    if n >= 0 {
        n / d
    } else {
        -((-n) / d)
    }
}

/// Offset of the `k`-th sample of the coarse grid: the grid position,
/// counted from the centre, scaled by a tenth of the image's extent.
pub open spec fn coarse_offset(shape: [i32; 2], k: int) -> [i32; 2] {
    [
        quotient_toward_zero((k % 10 - 5) * shape[0], 10) as i32,
        quotient_toward_zero((k / 10 - 5) * shape[1], 10) as i32,
    ]
}

/// The hundred offsets that an estimate samples, row by row.
pub open spec fn coarse_grid(shape: [i32; 2]) -> Seq<[i32; 2]> {
    Seq::new(100, |k: int| coarse_offset(shape, k))
}

/// An image of positive extents has one offset per pixel, width times
/// height in all, and every offset lies in the range that is centred on
/// zero: from minus half the extent, for as many pixels as the extent.
pub proof fn lemma_grid_is_centred(shape: [i32; 2], k: int)
    requires
        shape[0] >= 1,
        shape[1] >= 1,
        0 <= k < shape[0] * shape[1],
    ensures
        pixel_grid(shape).len() == shape[0] * shape[1],
        -(shape[0] / 2) <= pixel_grid(shape)[k][0] < shape[0] - shape[0] / 2,
        -(shape[1] / 2) <= pixel_grid(shape)[k][1] < shape[1] - shape[1] / 2,
{
    let width = shape[0] as int;
    let height = shape[1] as int;
    assert(0 <= k % width < width);
    assert(0 <= k / width < height) by (nonlinear_arith)
        requires
            width >= 1,
            0 <= k < width * height,
    ;
}

/// Lists the pixel offsets of an image in row-major order.
pub fn pixel_offsets(shape: [i32; 2]) -> (points: Vec<[i32; 2]>)
    ensures
        points@ == pixel_grid(shape),
{
    let width: i32 = shape[0];
    let height: i32 = shape[1];
    let mut points: Vec<[i32; 2]> = Vec::new();
    if width <= 0 || height <= 0 {
        assert(axis_len(width) * axis_len(height) == 0) by (nonlinear_arith)
            requires
                axis_len(width) == 0 || axis_len(height) == 0,
        ;
        assert(points@ =~= pixel_grid(shape));
        return points;
    }
    let left: i32 = -(width / 2);
    let top: i32 = -(height / 2);
    let mut row: i32 = 0;
    while row < height
        invariant
            0 < width == shape[0],
            0 < height == shape[1],
            left == first_offset(width),
            top == first_offset(height),
            0 <= row <= height,
            points@.len() == row * width,
            forall|k: int| 0 <= k < points@.len() ==> #[trigger] points@[k] == pixel_offset(shape, k),
        decreases height - row,
    {
        let mut col: i32 = 0;
        while col < width
            invariant
                0 < width == shape[0],
                0 < height == shape[1],
                left == first_offset(width),
                top == first_offset(height),
                0 <= row < height,
                0 <= col <= width,
                points@.len() == row * width + col,
                forall|k: int|
                    0 <= k < points@.len() ==> #[trigger] points@[k] == pixel_offset(shape, k),
            decreases width - col,
        {
            proof {
                lemma_fundamental_div_mod_converse(
                    row * width + col,
                    width as int,
                    row as int,
                    col as int,
                );
            }
            points.push([left + col, top + row]);
            col += 1;
        }
        assert((row + 1) * width == row * width + width) by (nonlinear_arith);
        row += 1;
    }
    assert(height * width == axis_len(shape[0]) * axis_len(shape[1])) by (nonlinear_arith)
        requires
            width == axis_len(shape[0]),
            height == axis_len(shape[1]),
    ;
    assert(points@ =~= pixel_grid(shape));
    points
}

/// Scales a grid position by a tenth of an extent, rounding toward zero.
fn scale_position(position: i32, extent: i32) -> (offset: i32)
    requires
        -5 <= position < 5,
    ensures
        offset == quotient_toward_zero(position * extent, 10),
{
    assert(-10737418240 <= position * extent <= 10737418240) by (nonlinear_arith)
        requires
            -5 <= position < 5,
            -2147483648 <= extent <= 2147483647,
    ;
    let product: i64 = (position as i64) * (extent as i64);
    if product >= 0 {
        (product / 10) as i32
    } else {
        (-((-product) / 10)) as i32
    }
}

/// Lists the offsets of the coarse grid: ten rows of ten samples, spread
/// over the image and centred like its pixels.
pub fn coarse_offsets(shape: [i32; 2]) -> (points: Vec<[i32; 2]>)
    ensures
        points@ == coarse_grid(shape),
{
    let mut points: Vec<[i32; 2]> = Vec::new();
    let mut row: i32 = 0;
    while row < EST_SIZE
        invariant
            0 <= row <= 10,
            points@.len() == row * 10,
            forall|k: int| 0 <= k < points@.len() ==> #[trigger] points@[k] == coarse_offset(shape, k),
        decreases 10 - row,
    {
        let mut col: i32 = 0;
        while col < EST_SIZE
            invariant
                0 <= row < 10,
                0 <= col <= 10,
                points@.len() == row * 10 + col,
                forall|k: int|
                    0 <= k < points@.len() ==> #[trigger] points@[k] == coarse_offset(shape, k),
            decreases 10 - col,
        {
            let x: i32 = scale_position(col - EST_SIZE / 2, shape[0]);
            let y: i32 = scale_position(row - EST_SIZE / 2, shape[1]);
            points.push([x, y]);
            col += 1;
        }
        row += 1;
    }
    assert(points@ =~= coarse_grid(shape));
    points
}

} // verus!
