//! Strategy for variable text columns, and the sizing sub-policy that picks
//! the transit cell size from the source's native type, the display size
//! accessor, and the caller's ceiling.

use vstd::prelude::*;

use crate::allocation::spec_resolved_transit_len;
use crate::allocation::resolve_transit_len;
use crate::failure::ColumnFailure;
use crate::strategy::ColumnStrategy;
use crate::types::BufferDescription;
use crate::types::BufferKind;
use crate::types::NativeType;
use crate::types::SourceError;
use crate::view::ColumnArray;
use crate::view::ColumnView;

verus! {

/// Strategy for a variable text column with transit cells of at most
/// `max_str_len` bytes.
#[derive(Clone, Copy, Debug, PartialEq, Eq, Structural)]
pub struct Text {
    pub nullable: bool,
    pub max_str_len: usize,
}

impl Text {
    pub fn buffer_description(&self) -> (r: BufferDescription)
        ensures
            r == (BufferDescription {
                nullable: self.nullable,
                kind: BufferKind::Text { max_str_len: self.max_str_len },
            }),
    {
        BufferDescription {
            nullable: self.nullable,
            kind: BufferKind::Text { max_str_len: self.max_str_len },
        }
    }

    /// Moves the text cells into the finished column unchanged, null slots
    /// and element order included.
    pub fn fill_arrow_array(&self, column_view: ColumnView) -> (r: ColumnArray)
        requires
            column_view matches ColumnView::Text { max_str_len, .. }
                && max_str_len == self.max_str_len,
        ensures
            column_view matches ColumnView::Text { rows, .. } ==> r == ColumnArray::Utf8(rows),
    {
        match column_view {
            ColumnView::Text { rows, .. } => ColumnArray::Utf8(rows),
            _ => {
                proof {
                    assert(false);
                }
                ColumnArray::Utf8(Vec::new())
            }
        }
    }
}

/// The display size reported by the accessor, clamped to a usable length:
/// a failure or non-positive report counts as no usable bound.
pub open spec fn spec_reported_text_len(native: NativeType, display_size: Option<
    Result<isize, SourceError>,
>) -> int {
    if native.column_size != 0 {
        native.column_size as int
    } else {
        match display_size {
            Some(Result::Ok(d)) => if d <= 0 {
                0
            } else {
                d as int
            },
            _ => 0,
        }
    }
}

/// Resolution of a reported text length against the ceiling, as a strategy
/// or a failure.
pub open spec fn spec_text_by_len(
    native: NativeType,
    reported: usize,
    nullable: bool,
    ceiling: Option<usize>,
) -> Result<ColumnStrategy, ColumnFailure> {
    match spec_resolved_transit_len(reported, ceiling) {
        None => Result::Err(ColumnFailure::ZeroSizedColumn { sql_type: native }),
        Some(len) => Result::Ok(ColumnStrategy::Text(Text { nullable, max_str_len: len })),
    }
}

/// The text sizing sub-policy as a value; see [`choose_text_strategy`].
pub open spec fn spec_text_strategy(
    native: NativeType,
    display_size: Option<Result<isize, SourceError>>,
    nullable: bool,
    ceiling: Option<usize>,
) -> Result<ColumnStrategy, ColumnFailure> {
    if native.column_size == 0 {
        match display_size {
            Some(Result::Err(e)) => Result::Err(
                ColumnFailure::UnknownStringLength { sql_type: native, source: e },
            ),
            _ => spec_text_by_len(
                native,
                spec_reported_text_len(native, display_size) as usize,
                nullable,
                ceiling,
            ),
        }
    } else {
        spec_text_by_len(native, native.column_size, nullable, ceiling)
    }
}

/// Picks the transit cell size for a text column: the size reported with
/// the native type is used when positive; otherwise the display size
/// accessor's answer is consulted (its failure becomes
/// [`ColumnFailure::UnknownStringLength`]); the result is resolved against
/// the caller's ceiling by the Buffer Allocation Policy.
///
/// The display size accessor is consulted only when the native type reports
/// no size, so `display_size` may stay unfetched otherwise.
pub fn choose_text_strategy(
    native: NativeType,
    display_size: Option<Result<isize, SourceError>>,
    nullable: bool,
    max_text_size: Option<usize>,
) -> (r: Result<ColumnStrategy, ColumnFailure>)
    requires
        native.column_size == 0 ==> display_size is Some,
    ensures
        r == spec_text_strategy(native, display_size, nullable, max_text_size),
{
    let reported_len: usize = if native.column_size != 0 {
        native.column_size
    } else {
        match display_size {
            Some(Ok(d)) => {
                if d <= 0 {
                    0
                } else {
                    d as usize
                }
            }
            Some(Err(e)) => {
                return Err(ColumnFailure::UnknownStringLength { sql_type: native, source: e });
            }
            None => {
                proof {
                    assert(false);
                }
                0
            }
        }
    };
    match resolve_transit_len(reported_len, max_text_size) {
        None => Err(ColumnFailure::ZeroSizedColumn { sql_type: native }),
        Some(len) => Ok(ColumnStrategy::Text(Text { nullable, max_str_len: len })),
    }
}

} // verus!
