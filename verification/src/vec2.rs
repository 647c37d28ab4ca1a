//! Two-dimensional integer vectors for layout arithmetic.

use vstd::prelude::*;

verus! {

/// A vector of the unbounded integer grid. Contracts are stated over these;
/// a [`Vec2`] is one whose components fit in `i32`.
pub struct GridVector {
    pub row: int,
    pub col: int,
}

impl GridVector {
    /// The origin, and the size of an empty container.
    pub open spec fn zero() -> GridVector {
        GridVector { row: 0, col: 0 }
    }

    /// Component-wise sum.
    pub open spec fn plus(self, rhs: GridVector) -> GridVector {
        GridVector { row: self.row + rhs.row, col: self.col + rhs.col }
    }

    /// Component-wise product. With a unit vector on the right it keeps one
    /// axis and zeroes the other.
    pub open spec fn times(self, rhs: GridVector) -> GridVector {
        GridVector { row: self.row * rhs.row, col: self.col * rhs.col }
    }

    /// Both components can be held in an `i32`.
    pub open spec fn fits(self) -> bool {
        &&& i32::MIN <= self.row <= i32::MAX
        &&& i32::MIN <= self.col <= i32::MAX
    }
}

/// A position or a size on the character grid.
#[derive(Clone, Copy, Debug, PartialEq, Eq, Structural)]
pub struct Vec2 {
    pub row: i32,
    pub col: i32,
}

impl View for Vec2 {
    type V = GridVector;

    open spec fn view(&self) -> GridVector {
        GridVector { row: self.row as int, col: self.col as int }
    }
}

impl Default for Vec2 {
    fn default() -> (v: Vec2)
        ensures
            v@ == GridVector::zero(),
    {
        Vec2 { row: 0, col: 0 }
    }
}

impl Vec2 {
    pub fn new(row: i32, col: i32) -> (v: Vec2)
        ensures
            v.row == row,
            v.col == col,
    {
        Vec2 { row, col }
    }

    /// Component-wise sum, for operands whose sum fits.
    pub fn add(self, rhs: Vec2) -> (v: Vec2)
        requires
            self@.plus(rhs@).fits(),
        ensures
            v@ == self@.plus(rhs@),
    {
        Vec2 { row: self.row + rhs.row, col: self.col + rhs.col }
    }

    /// Component-wise product, for operands whose product fits.
    pub fn mul(self, rhs: Vec2) -> (v: Vec2)
        requires
            self@.times(rhs@).fits(),
        ensures
            v@ == self@.times(rhs@),
    {
        Vec2 { row: self.row * rhs.row, col: self.col * rhs.col }
    }
}

} // verus!
