//! Containers: one nesting level of the layout each.

use vstd::prelude::*;
use crate::vec2::{GridVector, Vec2};

verus! {

/// The axis along which a container stacks what is placed in it.
#[derive(Clone, Copy, Debug, PartialEq, Eq, Structural)]
pub enum ContType {
    /// One below the other: the column grows, the row keeps the widest.
    Vert,
    /// Side by side: the row grows, the column keeps the tallest.
    Horz,
}

/// The larger of two integers.
pub open spec fn max_int(a: int, b: int) -> int {
    if a >= b {
        a
    } else {
        b
    }
}

/// What a [`Cont`] stands for in contracts.
pub struct Container {
    pub orientation: ContType,
    pub origin: GridVector,
    pub accumulated_size: GridVector,
}

impl Container {
    /// A container at `origin` with nothing in it yet.
    pub open spec fn empty(orientation: ContType, origin: GridVector) -> Container {
        Container { orientation, origin, accumulated_size: GridVector::zero() }
    }

    /// Where the next widget or child goes: the origin moved along the
    /// stacking axis by what has been placed so far.
    pub open spec fn next_slot(self) -> GridVector {
        match self.orientation {
            ContType::Horz => GridVector {
                row: self.origin.row + self.accumulated_size.row,
                col: self.origin.col,
            },
            ContType::Vert => GridVector {
                row: self.origin.row,
                col: self.origin.col + self.accumulated_size.col,
            },
        }
    }

    /// The unit vector of the stacking axis.
    pub open spec fn axis(self) -> GridVector {
        match self.orientation {
            ContType::Horz => GridVector { row: 1, col: 0 },
            ContType::Vert => GridVector { row: 0, col: 1 },
        }
    }

    /// The next slot is the origin plus the size taken, projected onto the
    /// stacking axis.
    pub proof fn lemma_next_slot_projects(self)
        ensures
            self.next_slot() == self.origin.plus(self.accumulated_size.times(self.axis())),
    {
        assert(self.accumulated_size.row * 1 == self.accumulated_size.row) by (nonlinear_arith);
        assert(self.accumulated_size.row * 0 == 0) by (nonlinear_arith);
        assert(self.accumulated_size.col * 1 == self.accumulated_size.col) by (nonlinear_arith);
        assert(self.accumulated_size.col * 0 == 0) by (nonlinear_arith);
    }

    /// The size after one more extent: summed along the stacking axis, the
    /// larger of the two across it.
    pub open spec fn folded_size(self, extent: GridVector) -> GridVector {
        match self.orientation {
            ContType::Horz => GridVector {
                row: self.accumulated_size.row + extent.row,
                col: max_int(self.accumulated_size.col, extent.col),
            },
            ContType::Vert => GridVector {
                row: max_int(self.accumulated_size.row, extent.row),
                col: self.accumulated_size.col + extent.col,
            },
        }
    }

    /// The container after a widget or a closed child of size `extent` was
    /// placed in it.
    pub open spec fn add_extent(self, extent: GridVector) -> Container {
        Container { accumulated_size: self.folded_size(extent), ..self }
    }

    /// The container after widgets or children of the sizes `extents` were
    /// placed in it, one after the other.
    pub open spec fn add_extents(self, extents: Seq<GridVector>) -> Container
        decreases extents.len(),
    {
        if extents.len() == 0 {
            self
        } else {
            self.add_extents(extents.drop_last()).add_extent(extents.last())
        }
    }
}

/// The sum of the integers of a sequence.
pub open spec fn sum_of(values: Seq<int>) -> int
    decreases values.len(),
{
    if values.len() == 0 {
        0
    } else {
        sum_of(values.drop_last()) + values.last()
    }
}

/// `m` is the largest of the integers of a sequence that has one.
pub open spec fn is_max_of(m: int, values: Seq<int>) -> bool {
    &&& forall|i: int| 0 <= i < values.len() ==> values[i] <= m
    &&& exists|i: int| 0 <= i < values.len() && values[i] == m
}

/// The component of `v` along the stacking axis of a container of kind
/// `kind`: the row of a horizontal container, the column of a vertical one.
pub open spec fn along(kind: ContType, v: GridVector) -> int {
    match kind {
        ContType::Horz => v.row,
        ContType::Vert => v.col,
    }
}

/// The component of `v` across the stacking axis of a container of kind
/// `kind`: the column of a horizontal container, the row of a vertical one.
pub open spec fn across(kind: ContType, v: GridVector) -> int {
    match kind {
        ContType::Horz => v.col,
        ContType::Vert => v.row,
    }
}

/// The components of a sequence of extents along the stacking axis.
pub open spec fn alongs(kind: ContType, extents: Seq<GridVector>) -> Seq<int> {
    extents.map_values(|e: GridVector| along(kind, e))
}

/// The components of a sequence of extents across the stacking axis.
pub open spec fn acrosses(kind: ContType, extents: Seq<GridVector>) -> Seq<int> {
    extents.map_values(|e: GridVector| across(kind, e))
}

/// Placing widgets moves no container and turns none.
pub proof fn lemma_add_extents_keeps_place(c: Container, extents: Seq<GridVector>)
    ensures
        c.add_extents(extents).orientation == c.orientation,
        c.add_extents(extents).origin == c.origin,
    decreases extents.len(),
{
    if extents.len() > 0 {
        lemma_add_extents_keeps_place(c, extents.drop_last());
    }
}

/// Along the stacking axis, a container that was empty ends with the sum
/// of what was placed in it.
///
/// A horizontal container's row is the sum of its children's rows, a
/// vertical container's column the sum of its children's columns.
pub proof fn lemma_fold_sums_along_axis(
    kind: ContType,
    origin: GridVector,
    extents: Seq<GridVector>,
)
    ensures
        along(kind, Container::empty(kind, origin).add_extents(extents).accumulated_size)
            == sum_of(alongs(kind, extents)),
    decreases extents.len(),
{
    if extents.len() > 0 {
        let front = extents.drop_last();
        lemma_fold_sums_along_axis(kind, origin, front);
        lemma_add_extents_keeps_place(Container::empty(kind, origin), front);
        assert(alongs(kind, extents).drop_last() =~= alongs(kind, front));
    }
}

/// Across the stacking axis, a container that was empty ends as large as
/// the largest of what was placed in it, and no larger.
///
/// A horizontal container's column is the largest of its children's
/// columns, a vertical container's row the largest of its children's rows,
/// provided the container has a child and no child has a negative size.
/// Whatever the sizes, the component is at least 0 and at least each
/// child's, and it is 0 or some child's.
pub proof fn lemma_fold_takes_largest_across_axis(
    kind: ContType,
    origin: GridVector,
    extents: Seq<GridVector>,
)
    ensures
        ({
            let m = across(
                kind,
                Container::empty(kind, origin).add_extents(extents).accumulated_size,
            );
            let values = acrosses(kind, extents);
            &&& m >= 0
            &&& forall|i: int| 0 <= i < values.len() ==> values[i] <= m
            &&& m == 0 || exists|i: int| 0 <= i < values.len() && values[i] == m
            &&& extents.len() > 0 && (forall|i: int| 0 <= i < values.len() ==> values[i] >= 0)
                ==> is_max_of(m, values)
        }),
    decreases extents.len(),
{
    if extents.len() > 0 {
        let front = extents.drop_last();
        let last = extents.len() - 1;
        lemma_fold_takes_largest_across_axis(kind, origin, front);
        lemma_add_extents_keeps_place(Container::empty(kind, origin), front);
        let before = across(
            kind,
            Container::empty(kind, origin).add_extents(front).accumulated_size,
        );
        let m = across(kind, Container::empty(kind, origin).add_extents(extents).accumulated_size);
        let values = acrosses(kind, extents);
        assert forall|i: int| 0 <= i < values.len() implies values[i] <= m by {
            if i < last {
                assert(acrosses(kind, front)[i] == values[i]);
            }
        }
        if m != values[last] && m != 0 {
            let j = choose|j: int|
                0 <= j < acrosses(kind, front).len() && acrosses(kind, front)[j] == before;
            assert(values[j] == m);
        }
    }
}

/// One open scope of the layout: where it starts and how much of it is taken.
#[derive(Clone, Copy, Debug, PartialEq, Eq, Structural)]
pub struct Cont {
    pub kind: ContType,
    pub pos: Vec2,
    pub size: Vec2,
}

impl View for Cont {
    type V = Container;

    open spec fn view(&self) -> Container {
        Container { orientation: self.kind, origin: self.pos@, accumulated_size: self.size@ }
    }
}

impl Cont {
    /// The position of the next widget or child.
    pub fn available_pos(&self) -> (p: Vec2)
        requires
            self@.next_slot().fits(),
        ensures
            p@ == self@.next_slot(),
    {
        proof {
            self@.lemma_next_slot_projects();
        }
        match self.kind {
            ContType::Horz => self.pos.add(self.size.mul(Vec2::new(1, 0))),
            ContType::Vert => self.pos.add(self.size.mul(Vec2::new(0, 1))),
        }
    }

    /// Takes up `size` more of the container.
    pub fn add_widget(&mut self, size: Vec2)
        requires
            old(self)@.folded_size(size@).fits(),
        ensures
            final(self)@ == old(self)@.add_extent(size@),
            size.row >= 0 && size.col >= 0 ==> final(self).size.row >= old(self).size.row
                && final(self).size.col >= old(self).size.col,
    {
        match self.kind {
            ContType::Horz => {
                self.size.row += size.row;
                self.size.col = if self.size.col >= size.col {
                    self.size.col
                } else {
                    size.col
                };
            },
            ContType::Vert => {
                self.size.row = if self.size.row >= size.row {
                    self.size.row
                } else {
                    size.row
                };
                self.size.col += size.col;
            },
        }
    }
}

} // verus!
