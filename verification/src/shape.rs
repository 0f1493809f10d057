//! The shapes of two-dimensional arrays and of what array operations give.

use vstd::prelude::*;

verus! {

/// The shape of a two-dimensional array.
#[derive(Clone, Copy, Debug, PartialEq, Eq, Structural)]
pub struct Shape {
    pub rows: usize,
    pub cols: usize,
}

/// Two arrays cannot be combined: their shapes do not agree.
#[derive(Clone, Copy, Debug, PartialEq, Eq, Structural)]
pub struct ShapeMismatch;

/// The common length of two axes under broadcasting: equal lengths stay, and
/// an axis of length one is stretched to the other.
pub open spec fn spec_broadcast_axis(a: usize, b: usize) -> Option<usize> {
    if a == b {
        Some(a)
    } else if a == 1 {
        Some(b)
    } else if b == 1 {
        Some(a)
    } else {
        None
    }
}

fn broadcast_axis(a: usize, b: usize) -> (r: Option<usize>)
    ensures
        r == spec_broadcast_axis(a, b),
{
    if a == b {
        Some(a)
    } else if a == 1 {
        Some(b)
    } else if b == 1 {
        Some(a)
    } else {
        None
    }
}

impl Shape {
    /// The shape of the matrix product of an array of this shape with one of
    /// shape `rhs`: defined where the inner lengths agree.
    pub open spec fn spec_dot(self, rhs: Shape) -> Option<Shape> {
        if self.cols == rhs.rows {
            Some(Shape { rows: self.rows, cols: rhs.cols })
        } else {
            None
        }
    }

    /// The shape of the transposed array.
    pub open spec fn spec_t(self) -> Shape {
        Shape { rows: self.cols, cols: self.rows }
    }

    /// The shape of an elementwise operation on an array of this shape and
    /// one of shape `rhs`, each axis broadcast.
    pub open spec fn spec_broadcast(self, rhs: Shape) -> Option<Shape> {
        match (spec_broadcast_axis(self.rows, rhs.rows), spec_broadcast_axis(self.cols, rhs.cols)) {
            (Some(rows), Some(cols)) => Some(Shape { rows, cols }),
            _ => None,
        }
    }

    /// The shape of the column of row sums.
    pub open spec fn spec_row_sums(self) -> Shape {
        Shape { rows: self.rows, cols: 1 }
    }

    pub fn new(rows: usize, cols: usize) -> (s: Shape)
        ensures
            s == (Shape { rows, cols }),
    {
        Shape { rows, cols }
    }

    pub fn dot(self, rhs: Shape) -> (r: Option<Shape>)
        ensures
            r == self.spec_dot(rhs),
    {
        if self.cols == rhs.rows {
            Some(Shape { rows: self.rows, cols: rhs.cols })
        } else {
            None
        }
    }

    pub fn t(self) -> (r: Shape)
        ensures
            r == self.spec_t(),
    {
        Shape { rows: self.cols, cols: self.rows }
    }

    pub fn broadcast(self, rhs: Shape) -> (r: Option<Shape>)
        ensures
            r == self.spec_broadcast(rhs),
    {
        match (broadcast_axis(self.rows, rhs.rows), broadcast_axis(self.cols, rhs.cols)) {
            (Some(rows), Some(cols)) => Some(Shape { rows, cols }),
            _ => None,
        }
    }

    pub fn row_sums(self) -> (r: Shape)
        ensures
            r == self.spec_row_sums(),
    {
        Shape { rows: self.rows, cols: 1 }
    }
}

} // verus!
