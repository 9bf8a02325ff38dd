//! Conversion strategies for date and timestamp columns: a pure numeric
//! reinterpretation per element, with nulls copied forward unchanged from
//! the source mask.

use vstd::prelude::*;

use crate::strategy::ColumnStrategy;
use crate::types::BufferDescription;
use crate::types::BufferKind;
use crate::types::TimeUnit;
use crate::view::CivilDate;
use crate::view::ColumnArray;
use crate::view::ColumnView;

verus! {

/// Width in bytes of one date record in the transit buffer.
pub const DATE_TRANSIT_WIDTH: usize = 6;

/// Width in bytes of one timestamp in the transit buffer.
pub const TIMESTAMP_TRANSIT_WIDTH: usize = 8;

/// The numeric reinterpretation a [`WithConversion`] strategy applies to
/// each present element.
#[derive(Clone, Copy, Debug, PartialEq, Eq, Structural)]
pub enum Conversion {
    /// Calendar date record to days since the epoch.
    Date,
    /// Nanoseconds since the epoch to whole seconds.
    TimestampSec,
    /// Nanoseconds since the epoch to milliseconds.
    TimestampMs,
    /// Nanoseconds since the epoch to microseconds.
    TimestampUs,
    /// Nanoseconds since the epoch, kept as they are.
    TimestampNs,
}

impl Conversion {
    /// Time unit of the finished column. Never consulted for the date
    /// conversion, whose output counts days.
    pub open spec fn spec_target_unit(self) -> TimeUnit {
        match self {
            Conversion::Date => TimeUnit::Nanosecond,
            Conversion::TimestampSec => TimeUnit::Second,
            Conversion::TimestampMs => TimeUnit::Millisecond,
            Conversion::TimestampUs => TimeUnit::Microsecond,
            Conversion::TimestampNs => TimeUnit::Nanosecond,
        }
    }
}

/// Days between the epoch and the given calendar date, counted through the
/// proleptic Gregorian calendar in 400 year eras.
pub open spec fn spec_days_from_civil(year: int, month: int, day: int) -> int {
    let shifted_year = if month <= 2 {
        year - 1
    } else {
        year
    };
    let era = shifted_year / 400;
    let year_of_era = shifted_year - era * 400;
    let shifted_month = if month > 2 {
        month - 3
    } else {
        month + 9
    };
    let day_of_year = (153 * shifted_month + 2) / 5 + day - 1;
    let day_of_era = year_of_era * 365 + year_of_era / 4 - year_of_era / 100 + day_of_year;
    era * 146097 + day_of_era - 719468
}

/// Reinterprets a calendar date record as days since the epoch.
pub fn days_from_civil(date: CivilDate) -> (r: i32)
    requires
        date.valid(),
    ensures
        r == spec_days_from_civil(date.year as int, date.month as int, date.day as int),
{
    let year: u64 = date.year as u64;
    let month: u64 = date.month as u64;
    let day: u64 = date.day as u64;
    let shifted_year: u64 = if month <= 2 {
        year - 1
    } else {
        year
    };
    let era: u64 = shifted_year / 400;
    let year_of_era: u64 = shifted_year - era * 400;
    let shifted_month: u64 = if month > 2 {
        month - 3
    } else {
        month + 9
    };
    let day_of_year: u64 = (153 * shifted_month + 2) / 5 + day - 1;
    let day_of_era: u64 = year_of_era * 365 + year_of_era / 4 + day_of_year - year_of_era / 100;
    let days: i64 = (era * 146097 + day_of_era) as i64 - 719468;
    days as i32
}

/// Truncating division toward zero, the rescale rule for timestamps.
pub open spec fn spec_rescale(v: int, divisor: int) -> int {
    if v >= 0 {
        v / divisor
    } else {
        -((-v) / divisor)
    }
}

/// Nanoseconds per target unit.
pub open spec fn spec_unit_divisor(unit: TimeUnit) -> int {
    match unit {
        TimeUnit::Second => 1_000_000_000,
        TimeUnit::Millisecond => 1_000_000,
        TimeUnit::Microsecond => 1_000,
        TimeUnit::Nanosecond => 1,
    }
}

/// Rescales a nanosecond count since the epoch into whole `unit`s,
/// truncating toward zero, never rounding.
pub fn rescale_timestamp(v: i64, unit: TimeUnit) -> (r: i64)
    ensures
        r == spec_rescale(v as int, spec_unit_divisor(unit)),
{
    let divisor: u64 = match unit {
        TimeUnit::Second => 1_000_000_000,
        TimeUnit::Millisecond => 1_000_000,
        TimeUnit::Microsecond => 1_000,
        TimeUnit::Nanosecond => 1,
    };
    if divisor == 1 {
        return v;
    }
    if v >= 0 {
        ((v as u64) / divisor) as i64
    } else {
        let magnitude: u64 = (-(v as i128)) as u64;
        let quotient: u64 = magnitude / divisor;
        -(quotient as i64)
    }
}

/// A present date slot converted; a null slot copied forward.
pub open spec fn spec_date_slot(v: Option<CivilDate>) -> Option<i32> {
    match v {
        None => None,
        Some(d) => Some(
            spec_days_from_civil(d.year as int, d.month as int, d.day as int) as i32,
        ),
    }
}

/// A present timestamp slot rescaled; a null slot copied forward.
pub open spec fn spec_timestamp_slot(v: Option<i64>, unit: TimeUnit) -> Option<i64> {
    match v {
        None => None,
        Some(ns) => Some(spec_rescale(ns as int, spec_unit_divisor(unit)) as i64),
    }
}

/// Strategy applying a pure numeric reinterpretation to each present
/// element of a date or timestamp column.
#[derive(Clone, Copy, Debug, PartialEq, Eq, Structural)]
pub struct WithConversion {
    pub nullable: bool,
    pub conversion: Conversion,
}

/// What filling with a [`WithConversion`] strategy produces: each present
/// element converted, each null copied forward, element order preserved.
pub open spec fn spec_with_conversion_fill(
    s: WithConversion,
    column_view: ColumnView,
    r: ColumnArray,
) -> bool {
    match column_view {
        ColumnView::Dates { values, .. } => match r {
            ColumnArray::Date32(out) => {
                &&& out@.len() == values@.len()
                &&& forall|i: int| #![auto]
                    0 <= i < values@.len() ==> out@[i] == spec_date_slot(values@[i])
            },
            _ => false,
        },
        ColumnView::Timestamps { values, .. } => match r {
            ColumnArray::Timestamp { unit, values: out } => {
                &&& unit == s.conversion.spec_target_unit()
                &&& out@.len() == values@.len()
                &&& forall|i: int| #![auto]
                    0 <= i < values@.len() ==> out@[i] == spec_timestamp_slot(
                        values@[i],
                        s.conversion.spec_target_unit(),
                    )
            },
            _ => false,
        },
        _ => true,
    }
}

/// Builds the conversion strategy for a date or timestamp column.
pub fn with_conversion(nullable: bool, conversion: Conversion) -> (r: ColumnStrategy)
    ensures
        r == ColumnStrategy::WithConversion(WithConversion { nullable, conversion }),
{
    ColumnStrategy::WithConversion(WithConversion { nullable, conversion })
}

impl WithConversion {
    /// Transit element shape: a date record or a nanosecond count.
    pub open spec fn spec_buffer_kind(self) -> BufferKind {
        match self.conversion {
            Conversion::Date => BufferKind::FixedWidth { width: DATE_TRANSIT_WIDTH },
            _ => BufferKind::FixedWidth { width: TIMESTAMP_TRANSIT_WIDTH },
        }
    }

    pub fn buffer_description(&self) -> (r: BufferDescription)
        ensures
            r == (BufferDescription { nullable: self.nullable, kind: self.spec_buffer_kind() }),
    {
        let width: usize = match self.conversion {
            Conversion::Date => DATE_TRANSIT_WIDTH,
            _ => TIMESTAMP_TRANSIT_WIDTH,
        };
        BufferDescription { nullable: self.nullable, kind: BufferKind::FixedWidth { width } }
    }

    /// Applies the conversion to each present element and copies nulls
    /// forward unchanged, preserving element order.
    pub fn fill_arrow_array(&self, column_view: ColumnView) -> (r: ColumnArray)
        requires
            self.conversion is Date ==> (column_view matches ColumnView::Dates { nullable, .. }
                && nullable == self.nullable),
            !(self.conversion is Date) ==> (column_view matches ColumnView::Timestamps {
                nullable,
                ..
            } && nullable == self.nullable),
            column_view.well_formed(),
        ensures
            spec_with_conversion_fill(*self, column_view, r),
    {
        match column_view {
            ColumnView::Dates { values, .. } => {
                let mut out: Vec<Option<i32>> = Vec::new();
                let mut i: usize = 0;
                while i < values.len()
                    invariant
                        i <= values@.len(),
                        out@.len() == i as int,
                        forall|j: int| #![auto]
                            0 <= j < i ==> out@[j] == spec_date_slot(values@[j]),
                        forall|j: int| #![auto]
                            0 <= j < values@.len() && values@[j] is Some
                                ==> values@[j]->Some_0.valid(),
                    decreases values@.len() - i,
                {
                    match values[i] {
                        None => out.push(None),
                        Some(d) => out.push(Some(days_from_civil(d))),
                    }
                    i += 1;
                }
                ColumnArray::Date32(out)
            }
            ColumnView::Timestamps { values, .. } => {
                let unit: TimeUnit = match self.conversion {
                    Conversion::TimestampSec => TimeUnit::Second,
                    Conversion::TimestampMs => TimeUnit::Millisecond,
                    Conversion::TimestampUs => TimeUnit::Microsecond,
                    _ => TimeUnit::Nanosecond,
                };
                let mut out: Vec<Option<i64>> = Vec::new();
                let mut i: usize = 0;
                while i < values.len()
                    invariant
                        i <= values@.len(),
                        out@.len() == i as int,
                        unit == self.conversion.spec_target_unit(),
                        forall|j: int| #![auto]
                            0 <= j < i ==> out@[j] == spec_timestamp_slot(values@[j], unit),
                    decreases values@.len() - i,
                {
                    match values[i] {
                        None => out.push(None),
                        Some(ns) => out.push(Some(rescale_timestamp(ns, unit))),
                    }
                    i += 1;
                }
                ColumnArray::Timestamp { unit, values: out }
            }
            _ => {
                proof {
                    assert(false);
                }
                ColumnArray::Date32(Vec::new())
            }
        }
    }
}

} // verus!
