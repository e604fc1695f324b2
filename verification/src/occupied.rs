use vstd::pervasive::VecAdditionalExecFns;
use vstd::prelude::*;

verus! {

/// Largest grid extent on either axis, so that every cell coordinate fits
/// in an `i32`.
pub const MAX_EXTENT: usize = 0x7fff_ffff;

/// The set of cells marked as solid ground during classification, over the
/// bounded grid `[0, cols) x [0, rows)`. Stored row-major: cell `(x, y)`
/// lives at index `x * rows + y`.
pub struct OccupiedSet {
    cols: usize,
    rows: usize,
    cells: Vec<bool>,
}

/// For in-range `x` and `y`, `x * rows + y` is a valid row-major index.
pub proof fn lemma_row_major_index_bound(x: int, y: int, cols: int, rows: int)
    by (nonlinear_arith)
    requires
        0 <= x < cols,
        0 <= y < rows,
    ensures
        0 <= x * rows + y < cols * rows,
{
}

/// Row-major indices are unique per cell.
proof fn lemma_row_major_index_injective(x1: int, y1: int, x2: int, y2: int, rows: int)
    by (nonlinear_arith)
    requires
        0 <= y1 < rows,
        0 <= y2 < rows,
        x1 * rows + y1 == x2 * rows + y2,
    ensures
        x1 == x2 && y1 == y2,
{
}

impl OccupiedSet {
    pub closed spec fn spec_cols(self) -> int {
        self.cols as int
    }

    pub closed spec fn spec_rows(self) -> int {
        self.rows as int
    }

    /// Internal invariant: the cell store covers the whole grid and both
    /// extents fit in an `i32`.
    pub closed spec fn wf(self) -> bool {
        &&& self.cells.len() == self.cols * self.rows
        &&& self.cols <= MAX_EXTENT
        &&& self.rows <= MAX_EXTENT
    }

    /// Membership: `(x, y)` is inside the grid and marked occupied.
    pub closed spec fn spec_contains(self, x: int, y: int) -> bool {
        &&& 0 <= x < self.spec_cols()
        &&& 0 <= y < self.spec_rows()
        &&& self.cells[x * self.spec_rows() + y]
    }

    /// An empty set over a `cols` by `rows` grid.
    pub fn new(cols: usize, rows: usize) -> (r: OccupiedSet)
        requires
            cols <= MAX_EXTENT,
            rows <= MAX_EXTENT,
            cols * rows <= usize::MAX,
        ensures
            r.wf(),
            r.spec_cols() == cols,
            r.spec_rows() == rows,
            forall|x: int, y: int| !r.spec_contains(x, y),
    {
        let n = cols * rows;
        let mut cells: Vec<bool> = Vec::new();
        let mut i: usize = 0;
        while i < n
            invariant
                i <= n,
                cells.len() == i,
                forall|k: int| 0 <= k < i ==> !cells[k],
            decreases n - i,
        {
            cells.push(false);
            i = i + 1;
        }
        let r = OccupiedSet { cols, rows, cells };
        proof {
            assert forall|x: int, y: int| !r.spec_contains(x, y) by {
                if 0 <= x < cols && 0 <= y < rows {
                    lemma_row_major_index_bound(x, y, cols as int, rows as int);
                }
            }
        }
        r
    }

    /// Marks `(x, y)` occupied; every other cell is unchanged.
    pub fn insert(&mut self, x: usize, y: usize)
        requires
            old(self).wf(),
            x < old(self).spec_cols(),
            y < old(self).spec_rows(),
        ensures
            final(self).wf(),
            final(self).spec_cols() == old(self).spec_cols(),
            final(self).spec_rows() == old(self).spec_rows(),
            forall|i: int, j: int|
                final(self).spec_contains(i, j) == (old(self).spec_contains(i, j) || (i == x && j
                    == y)),
    {
        proof {
            lemma_row_major_index_bound(x as int, y as int, self.cols as int, self.rows as int);
        }
        let idx = x * self.rows + y;
        self.cells.set(idx, true);
        proof {
            assert forall|i: int, j: int|
                self.spec_contains(i, j) == (old(self).spec_contains(i, j) || (i == x && j
                    == y)) by {
                if 0 <= i < self.cols && 0 <= j < self.rows {
                    lemma_row_major_index_bound(i, j, self.cols as int, self.rows as int);
                    if i * self.rows as int + j == idx {
                        lemma_row_major_index_injective(i, j, x as int, y as int, self.rows as int);
                    }
                }
            }
        }
    }

    /// Membership test; coordinates outside the grid are never members.
    pub fn contains(&self, x: i64, y: i64) -> (r: bool)
        requires
            self.wf(),
        ensures
            r == self.spec_contains(x as int, y as int),
    {
        if x < 0 || y < 0 || x >= self.cols as i64 || y >= self.rows as i64 {
            false
        } else {
            proof {
                lemma_row_major_index_bound(x as int, y as int, self.cols as int, self.rows as int);
            }
            let idx = (x as usize) * self.rows + (y as usize);
            self.cells[idx]
        }
    }
}

} // verus!
