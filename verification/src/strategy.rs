//! The closed set of conversion strategies, with one dispatch for each of
//! the two operations a strategy offers: describing the transit buffer and
//! filling a finished column from it.

use vstd::prelude::*;

use crate::binary::Binary;
use crate::binary::FixedSizedBinary;
use crate::boolean::NonNullableBoolean;
use crate::boolean::NullableBoolean;
use crate::date_time::spec_with_conversion_fill;
use crate::date_time::WithConversion;
use crate::decimal::spec_decimal_fill;
use crate::decimal::spec_decimal_wf;
use crate::decimal::Decimal;
use crate::failure::FillFailure;
use crate::no_conversion::NoConversion;
use crate::text::Text;
use crate::types::BufferDescription;
use crate::types::BufferKind;
use crate::view::ColumnArray;
use crate::view::ColumnView;

verus! {

/// All decisions needed to move one column out of a transit buffer into a
/// finished array: the closed set of conversion strategies. A value is
/// picked once per column by the catalog, then consulted twice: first for
/// the buffer description, then to fill the array.
pub enum ColumnStrategy {
    NonNullableBoolean(NonNullableBoolean),
    NullableBoolean(NullableBoolean),
    NoConversion(NoConversion),
    WithConversion(WithConversion),
    Text(Text),
    Binary(Binary),
    FixedSizedBinary(FixedSizedBinary),
    Decimal(Decimal),
}

impl ColumnStrategy {
    /// Strategies carrying validated construction parameters.
    pub open spec fn wf(self) -> bool {
        match self {
            ColumnStrategy::Decimal(d) => spec_decimal_wf(d),
            _ => true,
        }
    }

    /// The transit buffer shape each strategy asks for.
    pub open spec fn spec_buffer_description(self) -> BufferDescription {
        match self {
            ColumnStrategy::NonNullableBoolean(_) => BufferDescription {
                nullable: false,
                kind: BufferKind::Bit,
            },
            ColumnStrategy::NullableBoolean(_) => BufferDescription {
                nullable: true,
                kind: BufferKind::Bit,
            },
            ColumnStrategy::NoConversion(s) => BufferDescription {
                nullable: s.nullable,
                kind: BufferKind::FixedWidth { width: s.width },
            },
            ColumnStrategy::WithConversion(s) => BufferDescription {
                nullable: s.nullable,
                kind: s.spec_buffer_kind(),
            },
            ColumnStrategy::Text(s) => BufferDescription {
                nullable: s.nullable,
                kind: BufferKind::Text { max_str_len: s.max_str_len },
            },
            ColumnStrategy::Binary(s) => BufferDescription {
                nullable: s.nullable,
                kind: BufferKind::Binary { length: s.length },
            },
            ColumnStrategy::FixedSizedBinary(s) => BufferDescription {
                nullable: s.nullable,
                kind: BufferKind::Binary { length: s.length },
            },
            ColumnStrategy::Decimal(d) => BufferDescription {
                nullable: d.nullable,
                kind: BufferKind::Text { max_str_len: (d.precision + 2) as usize },
            },
        }
    }

    /// Whether a filled transit buffer has exactly the shape this strategy
    /// described. The pairing is an interface contract with the
    /// buffer-filling collaborator: [`Self::fill_arrow_array`] must never
    /// see a view of another shape.
    pub open spec fn view_matches(self, column_view: ColumnView) -> bool {
        match self {
            ColumnStrategy::NonNullableBoolean(_) => column_view matches ColumnView::Bits {
                nullable: false,
                ..
            },
            ColumnStrategy::NullableBoolean(_) => column_view matches ColumnView::Bits {
                nullable: true,
                ..
            },
            ColumnStrategy::NoConversion(s) => column_view matches ColumnView::Fixed {
                nullable,
                width,
                ..
            } && nullable == s.nullable && width == s.width,
            ColumnStrategy::WithConversion(s) => if s.conversion is Date {
                column_view matches ColumnView::Dates { nullable, .. } && nullable == s.nullable
            } else {
                column_view matches ColumnView::Timestamps { nullable, .. } && nullable
                    == s.nullable
            },
            ColumnStrategy::Text(s) => column_view matches ColumnView::Text { max_str_len, .. }
                && max_str_len == s.max_str_len,
            ColumnStrategy::Binary(s) => column_view matches ColumnView::Binary { length, .. }
                && length == s.length,
            ColumnStrategy::FixedSizedBinary(s) => column_view matches ColumnView::Binary {
                length,
                ..
            } && length == s.length,
            ColumnStrategy::Decimal(d) => column_view matches ColumnView::Text {
                max_str_len,
                ..
            } && max_str_len == d.precision + 2,
        }
    }

    /// What filling produces for each strategy, as a relation between the
    /// filled transit buffer and the result.
    pub open spec fn spec_fill(
        self,
        column_view: ColumnView,
        r: Result<ColumnArray, FillFailure>,
    ) -> bool {
        match self {
            ColumnStrategy::NonNullableBoolean(_) | ColumnStrategy::NullableBoolean(_) => {
                match column_view {
                    ColumnView::Bits { values, .. } => r == Result::<
                        ColumnArray,
                        FillFailure,
                    >::Ok(ColumnArray::Boolean(values)),
                    _ => true,
                }
            },
            ColumnStrategy::NoConversion(s) => match column_view {
                ColumnView::Fixed { values, .. } => r == Result::<
                    ColumnArray,
                    FillFailure,
                >::Ok(ColumnArray::Fixed { width: s.width, values }),
                _ => true,
            },
            ColumnStrategy::WithConversion(s) => {
                &&& r is Ok
                &&& spec_with_conversion_fill(s, column_view, r->Ok_0)
            },
            ColumnStrategy::Text(_) => match column_view {
                ColumnView::Text { rows, .. } => r == Result::<
                    ColumnArray,
                    FillFailure,
                >::Ok(ColumnArray::Utf8(rows)),
                _ => true,
            },
            ColumnStrategy::Binary(_) | ColumnStrategy::FixedSizedBinary(_) => {
                match column_view {
                    ColumnView::Binary { rows, .. } => r == Result::<
                        ColumnArray,
                        FillFailure,
                    >::Ok(ColumnArray::Binary(rows)),
                    _ => true,
                }
            },
            ColumnStrategy::Decimal(d) => spec_decimal_fill(d, column_view, r),
        }
    }

    /// Shape of a filled transit buffer, in the language of buffer
    /// descriptions.
    pub open spec fn spec_view_kind(column_view: ColumnView) -> BufferKind {
        match column_view {
            ColumnView::Bits { .. } => BufferKind::Bit,
            ColumnView::Fixed { width, .. } => BufferKind::FixedWidth { width },
            ColumnView::Dates { .. } => BufferKind::FixedWidth {
                width: crate::date_time::DATE_TRANSIT_WIDTH,
            },
            ColumnView::Timestamps { .. } => BufferKind::FixedWidth {
                width: crate::date_time::TIMESTAMP_TRANSIT_WIDTH,
            },
            ColumnView::Text { max_str_len, .. } => BufferKind::Text { max_str_len },
            ColumnView::Binary { length, .. } => BufferKind::Binary { length },
        }
    }

    /// Describes the transit buffer to bind for this column. Pure: callable
    /// before any row data exists, and consulted by the buffer-allocation
    /// collaborator only.
    pub fn buffer_description(&self) -> (r: BufferDescription)
        requires
            self.wf(),
        ensures
            r == self.spec_buffer_description(),
    {
        match self {
            ColumnStrategy::NonNullableBoolean(s) => s.buffer_description(),
            ColumnStrategy::NullableBoolean(s) => s.buffer_description(),
            ColumnStrategy::NoConversion(s) => s.buffer_description(),
            ColumnStrategy::WithConversion(s) => s.buffer_description(),
            ColumnStrategy::Text(s) => s.buffer_description(),
            ColumnStrategy::Binary(s) => s.buffer_description(),
            ColumnStrategy::FixedSizedBinary(s) => s.buffer_description(),
            ColumnStrategy::Decimal(s) => s.buffer_description(),
        }
    }

    /// Fills a finished column from a transit buffer of exactly the shape
    /// this strategy described. Only the decimal strategy can fail, on the
    /// first malformed text cell.
    pub fn fill_arrow_array(&self, column_view: ColumnView) -> (r: Result<
        ColumnArray,
        FillFailure,
    >)
        requires
            self.view_matches(column_view),
            column_view.well_formed(),
        ensures
            self.spec_fill(column_view, r),
    {
        match self {
            ColumnStrategy::NonNullableBoolean(s) => Ok(s.fill_arrow_array(column_view)),
            ColumnStrategy::NullableBoolean(s) => Ok(s.fill_arrow_array(column_view)),
            ColumnStrategy::NoConversion(s) => Ok(s.fill_arrow_array(column_view)),
            ColumnStrategy::WithConversion(s) => Ok(s.fill_arrow_array(column_view)),
            ColumnStrategy::Text(s) => Ok(s.fill_arrow_array(column_view)),
            ColumnStrategy::Binary(s) => Ok(s.fill_arrow_array(column_view)),
            ColumnStrategy::FixedSizedBinary(s) => Ok(s.fill_arrow_array(column_view)),
            ColumnStrategy::Decimal(s) => s.fill_arrow_array(column_view),
        }
    }
}

/// The pairing invariant: a transit buffer a strategy accepts for filling
/// has exactly the element shape the strategy's buffer description asked
/// the allocator for — the two operations are never paired loosely.
pub proof fn lemma_matching_view_has_described_kind(s: ColumnStrategy, column_view: ColumnView)
    requires
        s.view_matches(column_view),
    ensures
        s.spec_buffer_description().kind == ColumnStrategy::spec_view_kind(column_view),
{
}

} // verus!
