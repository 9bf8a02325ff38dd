//! Strategies for boolean columns. The transit buffer is a bit flag per
//! row; filling moves the flags into the finished column unchanged, so a
//! non-null flag always round-trips exactly.

use vstd::prelude::*;

use crate::types::BufferDescription;
use crate::types::BufferKind;
use crate::view::ColumnArray;
use crate::view::ColumnView;

verus! {

/// Strategy for a boolean column that cannot hold nulls.
pub struct NonNullableBoolean;

impl NonNullableBoolean {
    pub fn buffer_description(&self) -> (r: BufferDescription)
        ensures
            r == (BufferDescription { nullable: false, kind: BufferKind::Bit }),
    {
        BufferDescription { nullable: false, kind: BufferKind::Bit }
    }

    /// Moves the bit flags into the finished column unchanged. Every slot of
    /// the result holds a defined value, equal bit for bit to the transit
    /// flag at the same position.
    pub fn fill_arrow_array(&self, column_view: ColumnView) -> (r: ColumnArray)
        requires
            column_view matches ColumnView::Bits { nullable: false, .. },
            column_view.well_formed(),
        ensures
            column_view matches ColumnView::Bits { values, .. } ==> r == ColumnArray::Boolean(
                values,
            ),
            r matches ColumnArray::Boolean(out) && forall|i: int|
                0 <= i < out@.len() ==> out@[i] is Some,
    {
        match column_view {
            ColumnView::Bits { values, .. } => ColumnArray::Boolean(values),
            _ => {
                proof {
                    assert(false);
                }
                ColumnArray::Boolean(Vec::new())
            }
        }
    }
}

/// Strategy for a boolean column that may hold nulls.
pub struct NullableBoolean;

impl NullableBoolean {
    pub fn buffer_description(&self) -> (r: BufferDescription)
        ensures
            r == (BufferDescription { nullable: true, kind: BufferKind::Bit }),
    {
        BufferDescription { nullable: true, kind: BufferKind::Bit }
    }

    /// Moves the bit flags into the finished column unchanged: a slot is
    /// null exactly where the transit buffer's validity indicator marks the
    /// row as unset, and holds the transit flag otherwise.
    pub fn fill_arrow_array(&self, column_view: ColumnView) -> (r: ColumnArray)
        requires
            column_view matches ColumnView::Bits { nullable: true, .. },
        ensures
            column_view matches ColumnView::Bits { values, .. } ==> r == ColumnArray::Boolean(
                values,
            ),
    {
        match column_view {
            ColumnView::Bits { values, .. } => ColumnArray::Boolean(values),
            _ => {
                proof {
                    assert(false);
                }
                ColumnArray::Boolean(Vec::new())
            }
        }
    }
}

} // verus!
