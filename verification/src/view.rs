//! Models of the two memory regions a strategy mediates between: the transit
//! buffer filled by the source collaborator ([`ColumnView`]) and the finished
//! column handed to the batch assembler ([`ColumnArray`]).
//!
//! Missing values travel as `None`: the validity indicator of the transit
//! buffer marks element `i` as unset exactly when the element is `None`.

use vstd::prelude::*;

use crate::types::TimeUnit;

verus! {

/// A calendar date as the source reports it: a fixed-width year, month and
/// day record.
#[derive(Clone, Copy, Debug, PartialEq, Eq, Structural)]
pub struct CivilDate {
    pub year: u16,
    pub month: u8,
    pub day: u8,
}

impl CivilDate {
    /// The range of dates the source can report.
    pub open spec fn valid(self) -> bool {
        &&& 1 <= self.year <= 9999
        &&& 1 <= self.month <= 12
        &&& 1 <= self.day <= 31
    }
}

/// One filled transit buffer, read back column-wise. The variant carries the
/// same shape information as the [`crate::types::BufferDescription`] the
/// strategy produced, so that the pairing can be checked.
pub enum ColumnView {
    /// One bit flag per row.
    Bits { nullable: bool, values: Vec<Option<bool>> },
    /// One fixed-width element per row, given as its raw bit pattern.
    Fixed { nullable: bool, width: usize, values: Vec<Option<u64>> },
    /// One date record per row.
    Dates { nullable: bool, values: Vec<Option<CivilDate>> },
    /// One timestamp per row, as nanoseconds since the epoch.
    Timestamps { nullable: bool, values: Vec<Option<i64>> },
    /// One text cell of at most `max_str_len` bytes per row.
    Text { max_str_len: usize, rows: Vec<Option<Vec<u8>>> },
    /// One binary cell of at most `length` bytes per row.
    Binary { length: usize, rows: Vec<Option<Vec<u8>>> },
}

impl ColumnView {
    /// What the buffer-filling collaborator guarantees of a filled buffer:
    /// a buffer bound without a validity indicator has a defined value in
    /// every slot, dates lie in the reportable range, and no cell exceeds
    /// the bound the buffer was allocated with.
    pub open spec fn well_formed(self) -> bool {
        match self {
            ColumnView::Bits { nullable, values } => !nullable ==> forall|i: int|
                0 <= i < values@.len() ==> values@[i] is Some,
            ColumnView::Fixed { nullable, values, .. } => !nullable ==> forall|i: int|
                0 <= i < values@.len() ==> values@[i] is Some,
            ColumnView::Dates { nullable, values } => {
                &&& !nullable ==> forall|i: int| 0 <= i < values@.len() ==> values@[i] is Some
                &&& forall|i: int| #![auto] 0 <= i < values@.len() && values@[i] is Some
                    ==> values@[i]->Some_0.valid()
            },
            ColumnView::Timestamps { nullable, values } => !nullable ==> forall|i: int|
                0 <= i < values@.len() ==> values@[i] is Some,
            ColumnView::Text { max_str_len, rows } => forall|i: int| #![auto]
                0 <= i < rows@.len() && rows@[i] is Some
                    ==> rows@[i]->Some_0@.len() <= max_str_len,
            ColumnView::Binary { length, rows } => forall|i: int| #![auto]
                0 <= i < rows@.len() && rows@[i] is Some
                    ==> rows@[i]->Some_0@.len() <= length,
        }
    }
}

/// One finished column, ready for the batch assembler. `None` marks a null
/// slot.
pub enum ColumnArray {
    Boolean(Vec<Option<bool>>),
    /// Fixed-width elements copied through without conversion, as their raw
    /// bit patterns.
    Fixed { width: usize, values: Vec<Option<u64>> },
    /// Days since the epoch.
    Date32(Vec<Option<i32>>),
    /// Counts of `unit`s since the epoch.
    Timestamp { unit: TimeUnit, values: Vec<Option<i64>> },
    Utf8(Vec<Option<Vec<u8>>>),
    Binary(Vec<Option<Vec<u8>>>),
    /// Fixed-point values: each entry scaled by ten to the minus `scale`.
    Decimal { precision: usize, scale: usize, values: Vec<Option<i128>> },
}

} // verus!
