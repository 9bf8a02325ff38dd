//! Strategies for variable and fixed-width binary columns. Filling moves
//! the cells into the finished column unchanged; only the transit cell size
//! differs between the two.

use vstd::prelude::*;

use crate::types::BufferDescription;
use crate::types::BufferKind;
use crate::view::ColumnArray;
use crate::view::ColumnView;

verus! {

/// Strategy for a variable binary column with transit cells of at most
/// `length` bytes, as resolved by the Buffer Allocation Policy.
#[derive(Clone, Copy, Debug, PartialEq, Eq, Structural)]
pub struct Binary {
    pub nullable: bool,
    pub length: usize,
}

impl Binary {
    pub fn new(nullable: bool, length: usize) -> (r: Self)
        ensures
            r == (Binary { nullable, length }),
    {
        Binary { nullable, length }
    }

    pub fn buffer_description(&self) -> (r: BufferDescription)
        ensures
            r == (BufferDescription {
                nullable: self.nullable,
                kind: BufferKind::Binary { length: self.length },
            }),
    {
        BufferDescription {
            nullable: self.nullable,
            kind: BufferKind::Binary { length: self.length },
        }
    }

    /// Moves the binary cells into the finished column unchanged, null
    /// slots and element order included.
    pub fn fill_arrow_array(&self, column_view: ColumnView) -> (r: ColumnArray)
        requires
            column_view matches ColumnView::Binary { length, .. } && length == self.length,
        ensures
            column_view matches ColumnView::Binary { rows, .. } ==> r == ColumnArray::Binary(
                rows,
            ),
    {
        match column_view {
            ColumnView::Binary { rows, .. } => ColumnArray::Binary(rows),
            _ => {
                proof {
                    assert(false);
                }
                ColumnArray::Binary(Vec::new())
            }
        }
    }
}

/// Strategy for a binary column whose element length is fixed by the target
/// schema; no source metadata is consulted.
#[derive(Clone, Copy, Debug, PartialEq, Eq, Structural)]
pub struct FixedSizedBinary {
    pub nullable: bool,
    pub length: usize,
}

impl FixedSizedBinary {
    pub fn new(nullable: bool, length: usize) -> (r: Self)
        ensures
            r == (FixedSizedBinary { nullable, length }),
    {
        FixedSizedBinary { nullable, length }
    }

    pub fn buffer_description(&self) -> (r: BufferDescription)
        ensures
            r == (BufferDescription {
                nullable: self.nullable,
                kind: BufferKind::Binary { length: self.length },
            }),
    {
        BufferDescription {
            nullable: self.nullable,
            kind: BufferKind::Binary { length: self.length },
        }
    }

    /// Moves the binary cells into the finished column unchanged, null
    /// slots and element order included.
    pub fn fill_arrow_array(&self, column_view: ColumnView) -> (r: ColumnArray)
        requires
            column_view matches ColumnView::Binary { length, .. } && length == self.length,
        ensures
            column_view matches ColumnView::Binary { rows, .. } ==> r == ColumnArray::Binary(
                rows,
            ),
    {
        match column_view {
            ColumnView::Binary { rows, .. } => ColumnArray::Binary(rows),
            _ => {
                proof {
                    assert(false);
                }
                ColumnArray::Binary(Vec::new())
            }
        }
    }
}

} // verus!
