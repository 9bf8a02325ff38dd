//! Pass-through strategy for fixed-width numeric columns whose transit
//! representation is bit-identical to the target representation: filling is
//! a direct copy plus, for nullable columns, the per-element validity mask.

use vstd::prelude::*;

use crate::strategy::ColumnStrategy;
use crate::types::BufferDescription;
use crate::types::BufferKind;
use crate::view::ColumnArray;
use crate::view::ColumnView;

verus! {

/// Strategy for a column needing no value transformation, parameterized by
/// element width in bytes and nullability.
#[derive(Clone, Copy, Debug, PartialEq, Eq, Structural)]
pub struct NoConversion {
    pub nullable: bool,
    pub width: usize,
}

/// Builds the pass-through strategy for elements of `width` bytes.
pub fn no_conversion(nullable: bool, width: usize) -> (r: ColumnStrategy)
    ensures
        r == ColumnStrategy::NoConversion(NoConversion { nullable, width }),
{
    ColumnStrategy::NoConversion(NoConversion { nullable, width })
}

impl NoConversion {
    pub fn buffer_description(&self) -> (r: BufferDescription)
        ensures
            r == (BufferDescription {
                nullable: self.nullable,
                kind: BufferKind::FixedWidth { width: self.width },
            }),
    {
        BufferDescription {
            nullable: self.nullable,
            kind: BufferKind::FixedWidth { width: self.width },
        }
    }

    /// Moves the raw elements into the finished column unchanged: a slot is
    /// null exactly where the transit mask marks the row as unset, and
    /// otherwise holds a value bit-equal to the transit element.
    pub fn fill_arrow_array(&self, column_view: ColumnView) -> (r: ColumnArray)
        requires
            column_view matches ColumnView::Fixed { nullable, width, .. }
                && nullable == self.nullable && width == self.width,
            column_view.well_formed(),
        ensures
            column_view matches ColumnView::Fixed { values, .. } ==> r == (ColumnArray::Fixed {
                width: self.width,
                values,
            }),
            column_view matches ColumnView::Fixed { values, .. } ==> (r matches
                ColumnArray::Fixed { values: out, .. } && out@.len() == values@.len() && (forall|
                i: int,
            |
                #![auto]
                0 <= i < values@.len() ==> ((out@[i] is None <==> values@[i] is None) && out@[i]
                    == values@[i]))),
    {
        match column_view {
            ColumnView::Fixed { values, .. } => ColumnArray::Fixed { width: self.width, values },
            _ => {
                proof {
                    assert(false);
                }
                ColumnArray::Fixed { width: self.width, values: Vec::new() }
            }
        }
    }
}

} // verus!
