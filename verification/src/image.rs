//! Pixel grid: colors, configuration checks, and the row-major enumeration
//! order of pixel coordinates.

use vstd::prelude::*;

verus! {

/// An 8-bit RGB color sample, one channel per primary.
#[derive(Clone, Copy, Debug, PartialEq, Eq, Structural)]
pub struct Color {
    pub r: u8,
    pub g: u8,
    pub b: u8,
}

/// True exactly when a configuration describes a renderable image: both
/// dimensions and the iteration budget are positive, and the pixel count is
/// representable in memory.
pub fn dimensions_valid(width: usize, height: usize, max_iter: usize) -> (r: bool)
    ensures
        r <==> (width >= 1 && height >= 1 && max_iter >= 1 && width * height <= usize::MAX),
{
    width >= 1 && height >= 1 && max_iter >= 1 && width.checked_mul(height).is_some()
}

/// The row-major enumeration of a `width` by `height` pixel grid: entry `k`
/// is the coordinate pair `(x, y)` with `x = k % width` and `y = k / width`,
/// so `y` runs over rows (outer) and `x` within each row (inner).
pub open spec fn row_major(width: int, height: int) -> Seq<(usize, usize)> {
    Seq::new((width * height) as nat, |k: int| (((k % width) as usize, (k / width) as usize)))
}

/// Enumerates every pixel coordinate of the grid in row-major order, row 0
/// first and `x` ascending within each row.
pub fn pixel_coordinates(width: usize, height: usize) -> (r: Vec<(usize, usize)>)
    requires
        width >= 1,
        height >= 1,
        width * height <= usize::MAX,
    ensures
        r@ == row_major(width as int, height as int),
{
    let ghost goal = row_major(width as int, height as int);
    let mut out: Vec<(usize, usize)> = Vec::new();
    let mut y: usize = 0;
    while y < height
        invariant
            y <= height,
            width >= 1,
            height >= 1,
            width * height <= usize::MAX,
            goal == row_major(width as int, height as int),
            out@.len() == y * width,
            forall|k: int| 0 <= k < out@.len() ==> out@[k] == goal[k],
        decreases height - y,
    {
        let mut x: usize = 0;
        while x < width
            invariant
                x <= width,
                y < height,
                width >= 1,
                height >= 1,
                width * height <= usize::MAX,
                goal == row_major(width as int, height as int),
                out@.len() == y * width + x,
                forall|k: int| 0 <= k < out@.len() ==> out@[k] == goal[k],
            decreases width - x,
        {
            proof {
                assert(y * width + x < width * height) by (nonlinear_arith)
                    requires
                        0 <= y < height,
                        0 <= x < width,
                ;
                vstd::arithmetic::div_mod::lemma_fundamental_div_mod_converse(
                    y * width + x,
                    width as int,
                    y as int,
                    x as int,
                );
                assert(goal[y * width + x] == ((x, y)));
            }
            out.push((x, y));
            x = x + 1;
        }
        proof {
            assert((y + 1) * width == y * width + width) by (nonlinear_arith);
        }
        y = y + 1;
    }
    proof {
        assert(y * width == width * height) by (nonlinear_arith)
            requires
                y == height,
        ;
        assert(out@ =~= goal);
    }
    out
}

/// Row-major placement: in the enumeration of a `width` by `height` grid,
/// the coordinate pair of column `x` in row `y` stands exactly at index
/// `y * width + x`.
pub proof fn lemma_row_major_order(width: int, height: int, x: int, y: int)
    requires
        width >= 1,
        height >= 1,
        width * height <= usize::MAX,
        0 <= x < width,
        0 <= y < height,
    ensures
        0 <= y * width + x < row_major(width, height).len(),
        row_major(width, height)[y * width + x] == ((x as usize, y as usize)),
{
    assert(0 <= y * width + x < width * height) by (nonlinear_arith)
        requires
            0 <= y < height,
            0 <= x < width,
    ;
    vstd::arithmetic::div_mod::lemma_fundamental_div_mod_converse(y * width + x, width, y, x);
}

} // verus!
