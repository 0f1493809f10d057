//! Dense two-dimensional byte arrays.
//!
//! Samples are stored one per column: an image of `d` pixels and its label are
//! the column of a `d`-row grid and of a one-row grid at the same index.

use ndarray::{Array2, Axis, ShapeError, Slice};
use vstd::prelude::*;

verus! {

/// A dense two-dimensional array of bytes, kept in an `ndarray::Array2<u8>`.
///
/// The array is out of the verifier's sight: what it holds is named by
/// [`grid_rows`] and [`grid_width`], and every access goes through one of the
/// trusted functions of this module.
#[verifier::external_body]
pub struct ByteGrid {
    cells: Array2<u8>,
}

/// `ndarray::ShapeError`, the error of a refused shape. Nothing is read from
/// it.
#[verifier::external_type_specification]
#[verifier::external_body]
pub struct ExShapeError(ShapeError);

/// The rows of the array, first axis outermost.
pub uninterp spec fn grid_rows(g: ByteGrid) -> Seq<Seq<u8>>;

/// The length of the array's second axis.
pub uninterp spec fn grid_width(g: ByteGrid) -> nat;

/// Whether `ndarray` can lay out an array of `n` by `m` elements: the product
/// of the axis lengths that are not zero must fit in `isize`.
pub open spec fn shape_fits(n: nat, m: nat) -> bool {
    (if n == 0 { 1 } else { n }) * (if m == 0 { 1 } else { m }) <= isize::MAX
}

/// `rows` has `n` rows of `m` cells each.
pub open spec fn is_rect(rows: Seq<Seq<u8>>, n: nat, m: nat) -> bool {
    rows.len() == n && forall|i: int| 0 <= i < n ==> (#[trigger] rows[i]).len() == m
}

/// `s` with the elements at `j` and `k` exchanged.
pub open spec fn swapped(s: Seq<u8>, j: int, k: int) -> Seq<u8> {
    s.update(j, s[k]).update(k, s[j])
}

impl ByteGrid {
    pub open spec fn rows(&self) -> Seq<Seq<u8>> {
        grid_rows(*self)
    }

    pub open spec fn height(&self) -> nat {
        grid_rows(*self).len()
    }

    pub open spec fn width(&self) -> nat {
        grid_width(*self)
    }

    /// Every row is as long as the second axis.
    pub open spec fn wf(&self) -> bool {
        is_rect(self.rows(), self.height(), self.width())
    }

    pub open spec fn at(&self, i: int, j: int) -> u8 {
        self.rows()[i][j]
    }

    /// Column `j`, top to bottom.
    pub open spec fn column(&self, j: int) -> Seq<u8> {
        Seq::new(self.height(), |i: int| self.rows()[i][j])
    }

    /// The grid holds `n` by `m` cells.
    pub open spec fn has_shape(&self, n: nat, m: nat) -> bool {
        self.wf() && self.height() == n && self.width() == m
    }
}

/// `Array2::from_shape_vec` with a row-major `(n, m)` shape. It succeeds
/// exactly when the shape can be laid out and has as many cells as `v` has
/// elements; cell `(i, j)` is then element `i * m + j` of `v`.
#[verifier::external_body]
pub(crate) fn grid_from_shape_vec(n: usize, m: usize, v: Vec<u8>) -> (res: Result<
    ByteGrid,
    ShapeError,
>)
    ensures
        res.is_ok() == (shape_fits(n as nat, m as nat) && n * m == v@.len()),
        res matches Ok(g) ==> (is_rect(grid_rows(g), n as nat, m as nat) && grid_width(g) == m
            && forall|i: int, j: int|
            0 <= i < n && 0 <= j < m ==> grid_rows(g)[i][j] == v@[i * m + j]),
{
    match Array2::from_shape_vec((n, m), v) {
        Ok(cells) => Ok(ByteGrid { cells }),
        Err(e) => Err(e),
    }
}

/// `ArrayBase::reversed_axes`: the transposed array.
#[verifier::external_body]
pub(crate) fn grid_reversed_axes(g: ByteGrid) -> (r: ByteGrid)
    ensures
        is_rect(grid_rows(r), grid_width(g), grid_rows(g).len()),
        grid_width(r) == grid_rows(g).len(),
        forall|i: int, j: int|
            0 <= i < grid_rows(g).len() && 0 <= j < grid_width(g) ==> grid_rows(r)[j][i]
                == grid_rows(g)[i][j],
{
    ByteGrid { cells: g.cells.reversed_axes() }
}

/// `Array2::zeros` with an `(n, m)` shape: every cell is zero.
#[verifier::external_body]
pub(crate) fn grid_zeros(n: usize, m: usize) -> (r: ByteGrid)
    requires
        shape_fits(n as nat, m as nat),
    ensures
        is_rect(grid_rows(r), n as nat, m as nat),
        grid_width(r) == m,
        forall|i: int, j: int| 0 <= i < n && 0 <= j < m ==> grid_rows(r)[i][j] == 0,
{
    ByteGrid { cells: Array2::zeros((n, m)) }
}

/// `ArrayBase::nrows`: the length of the first axis.
#[verifier::external_body]
pub(crate) fn grid_nrows(g: &ByteGrid) -> (n: usize)
    ensures
        n == grid_rows(*g).len(),
{
    g.cells.nrows()
}

/// `ArrayBase::ncols`: the length of the second axis.
#[verifier::external_body]
pub(crate) fn grid_ncols(g: &ByteGrid) -> (n: usize)
    ensures
        n == grid_width(*g),
{
    g.cells.ncols()
}

/// `ArrayBase::get` at `(i, j)`: the cell there, or `None` when the index is
/// outside the array.
#[verifier::external_body]
pub(crate) fn grid_get(g: &ByteGrid, i: usize, j: usize) -> (r: Option<u8>)
    ensures
        r == (if i < grid_rows(*g).len() && j < grid_width(*g) {
            Some(grid_rows(*g)[i as int][j as int])
        } else {
            None
        }),
{
    g.cells.get((i, j)).copied()
}

/// `IndexMut::index_mut` at `[i, j]`, followed by a store: one cell changes.
#[verifier::external_body]
pub(crate) fn grid_set(g: &mut ByteGrid, i: usize, j: usize, value: u8)
    requires
        i < grid_rows(*old(g)).len(),
        j < grid_width(*old(g)),
    ensures
        grid_width(*final(g)) == grid_width(*old(g)),
        grid_rows(*final(g)) == grid_rows(*old(g)).update(
            i as int,
            grid_rows(*old(g))[i as int].update(j as int, value),
        ),
{
    g.cells[[i, j]] = value;
}

/// `ArrayBase::swap` of the cells at `(i, j)` and `(i, k)`.
#[verifier::external_body]
pub(crate) fn grid_swap_in_row(g: &mut ByteGrid, i: usize, j: usize, k: usize)
    requires
        i < grid_rows(*old(g)).len(),
        j < grid_width(*old(g)),
        k < grid_width(*old(g)),
    ensures
        grid_width(*final(g)) == grid_width(*old(g)),
        grid_rows(*final(g)) == grid_rows(*old(g)).update(
            i as int,
            swapped(grid_rows(*old(g))[i as int], j as int, k as int),
        ),
{
    g.cells.swap((i, j), (i, k));
}

/// `ArrayBase::slice_axis` along the second axis with step one, copied out by
/// `to_owned`: the columns from `start` up to, not including, `end`.
#[verifier::external_body]
pub(crate) fn grid_slice_columns(g: &ByteGrid, start: usize, end: usize) -> (r: ByteGrid)
    requires
        start <= end <= grid_width(*g),
        end <= isize::MAX,
    ensures
        is_rect(grid_rows(r), grid_rows(*g).len(), (end - start) as nat),
        grid_width(r) == end - start,
        forall|i: int, j: int|
            0 <= i < grid_rows(*g).len() && 0 <= j < end - start ==> grid_rows(r)[i][j]
                == grid_rows(*g)[i][start + j],
{
    let window = Slice::new(start as isize, Some(end as isize), 1);
    ByteGrid { cells: g.cells.slice_axis(Axis(1), window).to_owned() }
}

impl ByteGrid {
    /// The number of rows.
    pub fn nrows(&self) -> (n: usize)
        ensures
            n == self.height(),
    {
        grid_nrows(self)
    }

    /// The number of columns.
    pub fn ncols(&self) -> (n: usize)
        ensures
            n == self.width(),
    {
        grid_ncols(self)
    }

    /// Exchanges columns `j` and `k`.
    pub fn swap_columns(&mut self, j: usize, k: usize)
        requires
            old(self).wf(),
            j < old(self).width(),
            k < old(self).width(),
        ensures
            final(self).has_shape(old(self).height(), old(self).width()),
            forall|r: int|
                0 <= r < old(self).height() ==> (#[trigger] final(self).rows()[r]) == swapped(
                    old(self).rows()[r],
                    j as int,
                    k as int,
                ),
    {
        let n = grid_nrows(self);
        let mut r: usize = 0;
        while r < n
            invariant
                r <= n,
                n == old(self).height(),
                j < old(self).width(),
                k < old(self).width(),
                old(self).wf(),
                self.has_shape(old(self).height(), old(self).width()),
                forall|q: int|
                    0 <= q < r ==> (#[trigger] self.rows()[q]) == swapped(
                        old(self).rows()[q],
                        j as int,
                        k as int,
                    ),
                forall|q: int| r <= q < n ==> (#[trigger] self.rows()[q]) == old(self).rows()[q],
            decreases n - r,
        {
            grid_swap_in_row(self, r, j, k);
            r += 1;
        }
    }

    /// Row `i`, left to right.
    pub fn row(&self, i: usize) -> (out: Vec<u8>)
        requires
            self.wf(),
            i < self.height(),
        ensures
            out@ == self.rows()[i as int],
    {
        let n = grid_ncols(self);
        let mut out: Vec<u8> = Vec::new();
        let mut j: usize = 0;
        while j < n
            invariant
                j <= n,
                n == self.width(),
                self.wf(),
                i < self.height(),
                out@.len() == j,
                forall|q: int| 0 <= q < j ==> out@[q] == self.rows()[i as int][q],
            decreases n - j,
        {
            match grid_get(self, i, j) {
                Some(cell) => out.push(cell),
                None => {},
            }
            j += 1;
        }
        assert(out@ =~= self.rows()[i as int]);
        out
    }

    /// Column `j`, top to bottom.
    pub fn column_cells(&self, j: usize) -> (out: Vec<u8>)
        requires
            self.wf(),
            j < self.width(),
        ensures
            out@ == self.column(j as int),
    {
        let n = grid_nrows(self);
        let mut out: Vec<u8> = Vec::new();
        let mut i: usize = 0;
        while i < n
            invariant
                i <= n,
                n == self.height(),
                self.wf(),
                j < self.width(),
                out@.len() == i,
                forall|q: int| 0 <= q < i ==> out@[q] == self.rows()[q][j as int],
            decreases n - i,
        {
            match grid_get(self, i, j) {
                Some(cell) => out.push(cell),
                None => {},
            }
            i += 1;
        }
        assert(out@ =~= self.column(j as int));
        out
    }

    /// The cell in row `i` and column `j`, if there is one.
    pub fn get(&self, i: usize, j: usize) -> (r: Option<u8>)
        ensures
            r == (if i < self.height() && j < self.width() {
                Some(self.at(i as int, j as int))
            } else {
                None
            }),
    {
        grid_get(self, i, j)
    }
}

} // verus!
