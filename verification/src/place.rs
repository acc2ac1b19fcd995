use vstd::prelude::*;

verus! {

use vstd::arithmetic::div_mod::lemma_fundamental_div_mod;

/// Whether `(x, y)` lies on the outer boundary of a `width` by `height`
/// grid: on the leftmost or rightmost column, or on the bottom or top row.
pub open spec fn is_boundary_spec(width: int, height: int, x: int, y: int) -> bool {
    x == 0 || x == width - 1 || y == 0 || y == height - 1
}

/// Decides the boundary predicate.
pub fn is_boundary(width: usize, height: usize, x: usize, y: usize) -> (r: bool)
    requires
        width >= 1,
        height >= 1,
    ensures
        r == is_boundary_spec(width as int, height as int, x as int, y as int),
{
    x == 0 || x == width - 1 || y == 0 || y == height - 1
}

/// The number of boundary cells of a grid with both dimensions at least two:
/// two full rows plus the two side columns without their end cells.
pub open spec fn boundary_count_spec(width: int, height: int) -> int
    recommends
        2 <= width,
        2 <= height,
{
    2 * width + 2 * height - 4
}

/// The `k`-th boundary cell, in a fixed order: the bottom row in increasing
/// `x`, then the top row in increasing `x`, then the side columns from low
/// to high `y`, left before right at each `y`.
pub open spec fn boundary_cell_spec(width: int, height: int, k: int) -> (int, int)
    recommends
        2 <= width,
        2 <= height,
        0 <= k < boundary_count_spec(width, height),
{
    if k < width {
        (k, 0)
    } else if k < 2 * width {
        (k - width, height - 1)
    } else if (k - 2 * width) % 2 == 0 {
        (0, 1 + (k - 2 * width) / 2)
    } else {
        (width - 1, 1 + (k - 2 * width) / 2)
    }
}

/// Every index below the boundary count maps to an in-bounds boundary cell.
pub proof fn lemma_boundary_cell_in_bounds(width: int, height: int, k: int)
    requires
        2 <= width,
        2 <= height,
        0 <= k < boundary_count_spec(width, height),
    ensures
        ({
            let (x, y) = boundary_cell_spec(width, height, k);
            &&& 0 <= x < width
            &&& 0 <= y < height
            &&& is_boundary_spec(width, height, x, y)
        }),
{
    if k >= 2 * width {
        let r = k - 2 * width;
        lemma_fundamental_div_mod(r, 2);
    }
}

/// Distinct indices map to distinct boundary cells.
pub proof fn lemma_boundary_cell_injective(width: int, height: int, k1: int, k2: int)
    requires
        2 <= width,
        2 <= height,
        0 <= k1 < boundary_count_spec(width, height),
        0 <= k2 < boundary_count_spec(width, height),
        k1 != k2,
    ensures
        boundary_cell_spec(width, height, k1) != boundary_cell_spec(width, height, k2),
{
    lemma_boundary_cell_in_bounds(width, height, k1);
    lemma_boundary_cell_in_bounds(width, height, k2);
    if k1 >= 2 * width && k2 >= 2 * width {
        let r1 = k1 - 2 * width;
        let r2 = k2 - 2 * width;
        lemma_fundamental_div_mod(r1, 2);
        lemma_fundamental_div_mod(r2, 2);
    }
}

/// Computes the `k`-th boundary cell.
pub fn boundary_cell(width: usize, height: usize, k: usize) -> (r: (usize, usize))
    requires
        2 <= width,
        2 <= height,
        2 * width + 2 * height <= usize::MAX,
        k < boundary_count_spec(width as int, height as int),
    ensures
        (r.0 as int, r.1 as int) == boundary_cell_spec(width as int, height as int, k as int),
        r.0 < width,
        r.1 < height,
        is_boundary_spec(width as int, height as int, r.0 as int, r.1 as int),
{
    proof {
        lemma_boundary_cell_in_bounds(width as int, height as int, k as int);
    }
    if k < width {
        (k, 0)
    } else if k < 2 * width {
        (k - width, height - 1)
    } else {
        let r: usize = k - 2 * width;
        proof {
            lemma_fundamental_div_mod(r as int, 2);
        }
        let y: usize = 1 + r / 2;
        if r % 2 == 0 {
            (0, y)
        } else {
            (width - 1, y)
        }
    }
}

/// Relies on `rand::random_range` over `0..n`: a draw from the thread-local
/// generator that lies below `n`. The call panics only on an empty range,
/// which `n >= 1` rules out.
#[verifier::external_body]
fn random_below(n: usize) -> (r: usize)
    requires
        n >= 1,
    ensures
        r < n,
{
    rand::random_range(0..n)
}

/// Picks two distinct boundary cells of a `width` by `height` grid,
/// uniformly over the boundary cell set: the first is drawn from all
/// boundary cells, the second from the remaining ones.
pub fn pick_boundary_pair(width: usize, height: usize) -> (r: ((usize, usize), (usize, usize)))
    requires
        2 <= width,
        2 <= height,
        2 * width + 2 * height <= usize::MAX,
    ensures
        r.0.0 < width,
        r.0.1 < height,
        r.1.0 < width,
        r.1.1 < height,
        is_boundary_spec(width as int, height as int, r.0.0 as int, r.0.1 as int),
        is_boundary_spec(width as int, height as int, r.1.0 as int, r.1.1 as int),
        r.0 != r.1,
{
    let count: usize = 2 * width + 2 * height - 4;
    let k1 = random_below(count);
    let d = random_below(count - 1);
    let k2 = if d >= k1 {
        d + 1
    } else {
        d
    };
    let p1 = boundary_cell(width, height, k1);
    let p2 = boundary_cell(width, height, k2);
    proof {
        lemma_boundary_cell_injective(width as int, height as int, k1 as int, k2 as int);
    }
    (p1, p2)
}

} // verus!
