use vstd::prelude::*;

verus! {

/// Why a grid operation failed.
#[derive(Clone, Copy, PartialEq, Eq, Structural, Debug)]
pub enum GridError {
    /// A dimension of zero was given at construction.
    InvalidDimension,
    /// A coordinate was at or beyond the grid's width or height.
    OutOfBounds,
}

/// A fixed-size rectangular container of cells, addressed by `(x, y)`
/// coordinates and stored row-major: the cell at `(x, y)` lives at linear
/// index `y * width + x`, so rows are contiguous and vary fastest over `x`.
#[derive(Debug)]
pub struct Grid<T> {
    width: usize,
    height: usize,
    cells: Vec<T>,
}

/// A valid linear index lies below the number of cells.
proof fn lemma_linear_index_in_range(w: int, h: int, x: int, y: int)
    requires
        0 <= x < w,
        0 <= y < h,
    ensures
        0 <= y * w + x < w * h,
{
    assert(0 <= y * w + x < w * h) by (nonlinear_arith)
        requires
            0 <= x < w,
            0 <= y < h,
    ;
}

/// Two coordinate pairs with the same linear index are the same pair.
proof fn lemma_linear_index_injective(w: int, x1: int, y1: int, x2: int, y2: int)
    requires
        0 <= x1 < w,
        0 <= x2 < w,
        y1 * w + x1 == y2 * w + x2,
    ensures
        x1 == x2 && y1 == y2,
{
    assert(x1 == x2 && y1 == y2) by (nonlinear_arith)
        requires
            0 <= x1 < w,
            0 <= x2 < w,
            y1 * w + x1 == y2 * w + x2,
    ;
}

impl<T: Copy> Grid<T> {
    /// The grid's width, as specifications see it.
    pub closed spec fn spec_width(&self) -> usize {
        self.width
    }

    /// The grid's height, as specifications see it.
    pub closed spec fn spec_height(&self) -> usize {
        self.height
    }

    /// The backing cells in row-major order, as specifications see them.
    pub closed spec fn cells_seq(&self) -> Seq<T> {
        self.cells@
    }

    /// The grid invariant: both dimensions are at least one and the backing
    /// sequence holds exactly `width * height` cells.
    pub open spec fn wf(&self) -> bool {
        &&& self.spec_width() >= 1
        &&& self.spec_height() >= 1
        &&& self.cells_seq().len() == self.spec_width() * self.spec_height()
    }

    /// Whether `(x, y)` addresses a cell of this grid.
    pub open spec fn in_bounds(&self, x: int, y: int) -> bool {
        &&& 0 <= x < self.spec_width()
        &&& 0 <= y < self.spec_height()
    }

    /// The cell at `(x, y)`: row-major linearization, index `y * width + x`.
    pub open spec fn cell(&self, x: int, y: int) -> T
        recommends
            self.wf(),
            self.in_bounds(x, y),
    {
        self.cells_seq()[y * self.spec_width() + x]
    }

    /// The cells of row `y`, in increasing `x` order.
    pub open spec fn row_seq(&self, y: int) -> Seq<T>
        recommends
            self.wf(),
            0 <= y < self.spec_height(),
    {
        Seq::new(self.spec_width() as nat, |x: int| self.cell(x, y))
    }

    /// The first `n` rows, in increasing `y` order.
    pub open spec fn rows_prefix(&self, n: int) -> Seq<Seq<T>>
        recommends
            self.wf(),
            0 <= n <= self.spec_height(),
    {
        Seq::new(n as nat, |y: int| self.row_seq(y))
    }

    /// All rows, in increasing `y` order.
    pub open spec fn rows_seq(&self) -> Seq<Seq<T>>
        recommends
            self.wf(),
    {
        self.rows_prefix(self.spec_height() as int)
    }

    /// Builds a `width` by `height` grid with every cell equal to `initial`.
    /// Zero in either dimension is rejected with `InvalidDimension`.
    pub fn new(width: usize, height: usize, initial: T) -> (r: Result<Grid<T>, GridError>)
        requires
            width * height <= usize::MAX,
        ensures
            r is Ok <==> (width >= 1 && height >= 1),
            r matches Ok(g) ==> {
                &&& g.wf()
                &&& g.spec_width() == width
                &&& g.spec_height() == height
                &&& forall|x: int, y: int| g.in_bounds(x, y) ==> g.cell(x, y) == initial
            },
            r matches Err(e) ==> e == GridError::InvalidDimension,
    {
        if width == 0 || height == 0 {
            return Err(GridError::InvalidDimension);
        }
        let n: usize = width * height;
        let mut cells: Vec<T> = Vec::new();
        let mut i: usize = 0;
        while i < n
            invariant
                i <= n,
                cells@.len() == i,
                forall|k: int| 0 <= k < i ==> cells@[k] == initial,
            decreases n - i,
        {
            cells.push(initial);
            i = i + 1;
        }
        let g = Grid { width, height, cells };
        proof {
            assert forall|x: int, y: int| g.in_bounds(x, y) implies g.cell(x, y) == initial by {
                lemma_linear_index_in_range(width as int, height as int, x, y);
            }
        }
        Ok(g)
    }

    /// The number of cells in each row.
    pub fn width(&self) -> (r: usize)
        ensures
            r == self.spec_width(),
    {
        self.width
    }

    /// The number of rows.
    pub fn height(&self) -> (r: usize)
        ensures
            r == self.spec_height(),
    {
        self.height
    }

    /// The linear index of `(x, y)` in the backing vector.
    fn linear_index(&self, x: usize, y: usize) -> (idx: usize)
        requires
            self.wf(),
            self.in_bounds(x as int, y as int),
        ensures
            idx == y * self.spec_width() + x,
            idx < self.cells_seq().len(),
    {
        let n: usize = self.cells.len();
        proof {
            lemma_linear_index_in_range(
                self.spec_width() as int,
                self.spec_height() as int,
                x as int,
                y as int,
            );
            assert(y * self.spec_width() + x < n);
        }
        y * self.width + x
    }

    /// Reads the cell at `(x, y)`; any coordinate at or beyond the grid's
    /// dimensions fails with `OutOfBounds`.
    pub fn get(&self, x: usize, y: usize) -> (r: Result<&T, GridError>)
        requires
            self.wf(),
        ensures
            r is Ok <==> self.in_bounds(x as int, y as int),
            r matches Ok(v) ==> *v == self.cell(x as int, y as int),
            r matches Err(e) ==> e == GridError::OutOfBounds,
    {
        if x < self.width && y < self.height {
            let idx = self.linear_index(x, y);
            Ok(&self.cells[idx])
        } else {
            Err(GridError::OutOfBounds)
        }
    }

    /// Borrows the cell at `(x, y)` mutably. Out-of-bounds coordinates are a
    /// caller error, excluded by the precondition; `set` is the checked way
    /// to write.
    pub fn get_mut(&mut self, x: usize, y: usize) -> (r: &mut T)
        requires
            old(self).wf(),
            old(self).in_bounds(x as int, y as int),
        ensures
            *r == old(self).cell(x as int, y as int),
            final(self).spec_width() == old(self).spec_width(),
            final(self).spec_height() == old(self).spec_height(),
            final(self).cells_seq() == old(self).cells_seq().update(
                y * old(self).spec_width() + x,
                *final(r),
            ),
            final(self).wf(),
    {
        let idx = self.linear_index(x, y);
        &mut self.cells[idx]
    }

    /// Writes `value` to the cell at `(x, y)`; any coordinate at or beyond
    /// the grid's dimensions fails with `OutOfBounds` and leaves the grid
    /// unchanged.
    pub fn set(&mut self, x: usize, y: usize, value: T) -> (r: Result<(), GridError>)
        requires
            old(self).wf(),
        ensures
            final(self).wf(),
            final(self).spec_width() == old(self).spec_width(),
            final(self).spec_height() == old(self).spec_height(),
            r is Ok <==> old(self).in_bounds(x as int, y as int),
            r is Ok ==> {
                &&& final(self).cell(x as int, y as int) == value
                &&& forall|i: int, j: int|
                    old(self).in_bounds(i, j) && (i != x || j != y)
                        ==> final(self).cell(i, j) == old(self).cell(i, j)
            },
            r matches Err(e) ==> e == GridError::OutOfBounds && *final(self) == *old(self),
    {
        if x < self.width && y < self.height {
            let idx = self.linear_index(x, y);
            self.cells[idx] = value;
            proof {
                lemma_read_after_write(*old(self), *self, x as int, y as int, value);
            }
            Ok(())
        } else {
            Err(GridError::OutOfBounds)
        }
    }

    /// Overwrites every cell with `value`, in place, keeping the dimensions.
    pub fn fill(&mut self, value: T)
        requires
            old(self).wf(),
        ensures
            final(self).wf(),
            final(self).spec_width() == old(self).spec_width(),
            final(self).spec_height() == old(self).spec_height(),
            forall|x: int, y: int|
                final(self).in_bounds(x, y) ==> final(self).cell(x, y) == value,
    {
        let n: usize = self.cells.len();
        let mut i: usize = 0;
        while i < n
            invariant
                i <= n,
                self.spec_width() == old(self).spec_width(),
                self.spec_height() == old(self).spec_height(),
                self.cells_seq().len() == n,
                old(self).cells_seq().len() == n,
                forall|k: int| 0 <= k < i ==> self.cells_seq()[k] == value,
            decreases n - i,
        {
            self.cells[i] = value;
            i = i + 1;
        }
        proof {
            assert forall|x: int, y: int|
                self.in_bounds(x, y) implies self.cell(x, y) == value by {
                lemma_linear_index_in_range(
                    self.spec_width() as int,
                    self.spec_height() as int,
                    x,
                    y,
                );
            }
        }
    }

    /// Copies row `y`: the cells at `(0, y) .. (width - 1, y)` in increasing
    /// `x` order. A row index at or beyond the height fails with
    /// `OutOfBounds`.
    pub fn row(&self, y: usize) -> (r: Result<Vec<T>, GridError>)
        requires
            self.wf(),
        ensures
            r is Ok <==> y < self.spec_height(),
            r matches Ok(v) ==> v@ == self.row_seq(y as int),
            r matches Err(e) ==> e == GridError::OutOfBounds,
    {
        if y >= self.height {
            return Err(GridError::OutOfBounds);
        }
        let mut v: Vec<T> = Vec::new();
        let mut x: usize = 0;
        while x < self.width
            invariant
                self.wf(),
                y < self.spec_height(),
                x <= self.spec_width(),
                v@.len() == x,
                forall|k: int| 0 <= k < x ==> v@[k] == self.cell(k, y as int),
            decreases self.spec_width() - x,
        {
            let idx = self.linear_index(x, y);
            v.push(self.cells[idx]);
            x = x + 1;
        }
        proof {
            assert(v@ =~= self.row_seq(y as int));
        }
        Ok(v)
    }

    /// Overwrites row `y` with `values`, the writable counterpart of
    /// `row`: afterwards `values[x]` is the cell at `(x, y)` for every
    /// `x`, and every other row is untouched. A row index at or beyond
    /// the height fails with `OutOfBounds`; a value list whose length is
    /// not the width fails with `InvalidDimension`. A failed call leaves
    /// the grid unchanged.
    pub fn set_row(&mut self, y: usize, values: &Vec<T>) -> (r: Result<(), GridError>)
        requires
            old(self).wf(),
        ensures
            final(self).wf(),
            final(self).spec_width() == old(self).spec_width(),
            final(self).spec_height() == old(self).spec_height(),
            r is Ok <==> (y < old(self).spec_height() && values@.len() == old(
                self,
            ).spec_width()),
            r is Ok ==> {
                &&& final(self).row_seq(y as int) == values@
                &&& forall|i: int, j: int|
                    old(self).in_bounds(i, j) && j != y
                        ==> final(self).cell(i, j) == old(self).cell(i, j)
            },
            r matches Err(e) ==> {
                &&& *final(self) == *old(self)
                &&& if y >= old(self).spec_height() {
                    e == GridError::OutOfBounds
                } else {
                    e == GridError::InvalidDimension
                }
            },
    {
        if y >= self.height {
            return Err(GridError::OutOfBounds);
        }
        if values.len() != self.width {
            return Err(GridError::InvalidDimension);
        }
        let mut x: usize = 0;
        while x < self.width
            invariant
                self.wf(),
                self.spec_width() == old(self).spec_width(),
                self.spec_height() == old(self).spec_height(),
                y < self.spec_height(),
                values@.len() == self.spec_width(),
                x <= self.spec_width(),
                forall|k: int| 0 <= k < x ==> self.cell(k, y as int) == values@[k],
                forall|i: int, j: int|
                    old(self).in_bounds(i, j) && j != y
                        ==> self.cell(i, j) == old(self).cell(i, j),
            decreases self.spec_width() - x,
        {
            match self.set(x, y, values[x]) {
                Ok(()) => (),
                Err(_) => unreached(),
            }
            x = x + 1;
        }
        proof {
            assert(self.row_seq(y as int) =~= values@);
        }
        Ok(())
    }

    /// Copies every row, in increasing `y` order; row `n` holds the cells at
    /// `y = n` in increasing `x` order.
    pub fn rows(&self) -> (r: Vec<Vec<T>>)
        requires
            self.wf(),
        ensures
            r@.len() == self.spec_height(),
            forall|y: int| 0 <= y < self.spec_height() ==> r@[y]@ == self.row_seq(y),
    {
        let mut r: Vec<Vec<T>> = Vec::new();
        let mut y: usize = 0;
        while y < self.height
            invariant
                self.wf(),
                y <= self.spec_height(),
                r@.len() == y,
                forall|k: int| 0 <= k < y ==> r@[k]@ == self.row_seq(k),
            decreases self.spec_height() - y,
        {
            let row = match self.row(y) {
                Ok(v) => v,
                Err(_) => unreached(),
            };
            r.push(row);
            y = y + 1;
        }
        r
    }
}

/// The flattened prefix of the first `n` rows equals the first `n * width`
/// backing cells.
proof fn lemma_rows_prefix_flatten<T: Copy>(g: Grid<T>, n: int)
    requires
        g.wf(),
        0 <= n <= g.spec_height(),
    ensures
        g.rows_prefix(n).flatten() == g.cells_seq().take(n * g.spec_width()),
    decreases n,
{
    let w = g.spec_width() as int;
    let h = g.spec_height() as int;
    let rows = g.rows_prefix(n);
    assert(0 <= n * w <= w * h) by (nonlinear_arith)
        requires
            0 <= n <= h,
            w >= 1,
    ;
    if n == 0 {
        assert(rows.flatten() =~= g.cells_seq().take(0));
    } else {
        let prev = g.rows_prefix(n - 1);
        assert(0 <= (n - 1) * w <= n * w) by (nonlinear_arith)
            requires
                1 <= n,
                w >= 1,
        ;
        assert((n - 1) * w + w == n * w) by (nonlinear_arith);
        lemma_rows_prefix_flatten(g, n - 1);
        rows.lemma_flatten_and_flatten_alt_are_equivalent();
        prev.lemma_flatten_and_flatten_alt_are_equivalent();
        assert(rows.drop_last() =~= prev);
        assert(rows.flatten_alt() == rows.drop_last().flatten_alt().add(rows.last()));
        assert(rows.last() =~= g.cells_seq().subrange((n - 1) * w, n * w)) by {
            assert forall|i: int| 0 <= i < w
                implies #[trigger] g.row_seq(n - 1)[i]
                    == g.cells_seq().subrange((n - 1) * w, n * w)[i] by {
                lemma_linear_index_in_range(w, h, i, n - 1);
            }
        }
        assert(rows.flatten() =~= g.cells_seq().take(n * w));
    }
}

/// Row-major layout: concatenating all rows in increasing `y` order
/// reproduces the underlying linear cell sequence exactly.
pub proof fn lemma_rows_flatten<T: Copy>(g: Grid<T>)
    requires
        g.wf(),
    ensures
        g.rows_seq().flatten() == g.cells_seq(),
{
    let w = g.spec_width() as int;
    let h = g.spec_height() as int;
    lemma_rows_prefix_flatten(g, h);
    assert(h * w == w * h) by (nonlinear_arith);
    assert(g.cells_seq().take(h * w) =~= g.cells_seq());
}

/// Read-after-write: overwriting the backing cell of `(x, y)` and reading
/// the same coordinates observes the written value, and every other cell
/// keeps its old value.
pub proof fn lemma_read_after_write<T: Copy>(
    before: Grid<T>,
    after: Grid<T>,
    x: int,
    y: int,
    v: T,
)
    requires
        before.wf(),
        before.in_bounds(x, y),
        after.spec_width() == before.spec_width(),
        after.spec_height() == before.spec_height(),
        after.cells_seq() == before.cells_seq().update(y * before.spec_width() + x, v),
    ensures
        after.wf(),
        after.cell(x, y) == v,
        forall|i: int, j: int|
            before.in_bounds(i, j) && (i != x || j != y)
                ==> after.cell(i, j) == before.cell(i, j),
{
    let w = before.spec_width() as int;
    let h = before.spec_height() as int;
    lemma_linear_index_in_range(w, h, x, y);
    assert forall|i: int, j: int|
        before.in_bounds(i, j) && (i != x || j != y)
            implies after.cell(i, j) == before.cell(i, j) by {
        lemma_linear_index_in_range(w, h, i, j);
        if j * w + i == y * w + x {
            lemma_linear_index_injective(w, i, j, x, y);
        }
    }
}

} // verus!
