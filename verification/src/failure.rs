//! Structured failures raised while selecting a conversion strategy, and the
//! crate level error they are wrapped in once the caller has attached the
//! column's name and position.

use vstd::prelude::*;

use crate::types::LogicalType;
use crate::types::NativeType;
use crate::types::SourceError;

verus! {

/// A failure to select a conversion strategy for one column. All of these
/// are value returned and locally recoverable by the caller; none aborts the
/// process.
#[derive(Clone, Debug)]
pub enum ColumnFailure {
    /// The source reported a size of `0` for the column and no ceiling was
    /// configured, so no transit buffer size can be chosen.
    ZeroSizedColumn { sql_type: NativeType },
    /// The display size accessor failed, so the maximum string length for
    /// the column stays unknown.
    UnknownStringLength { sql_type: NativeType, source: SourceError },
    /// The target logical type has no conversion strategy.
    UnsupportedLogicalType(LogicalType),
    /// The native type accessor failed.
    FailedToDescribeColumn(SourceError),
    /// The transit buffer would be too large to allocate safely.
    TooLarge { num_elements: usize, element_size: usize },
}

/// A failure raised while filling a finished column from a transit buffer.
#[derive(Clone, Copy, Debug, PartialEq, Eq, Structural)]
pub enum FillFailure {
    /// A text cell of a decimal column did not parse as a decimal: the row
    /// is reported instead of guessing a value.
    MalformedDecimalText { row_index: usize },
}

/// A strategy selection failure annotated with the name and position of the
/// column it was raised for.
#[derive(Clone, Debug)]
pub enum Error {
    ColumnFailure { name: String, index: usize, source: ColumnFailure },
}

impl ColumnFailure {
    /// Attaches the column name and positional index to the failure. The
    /// catalog itself never enriches failures; this is for its caller.
    pub fn into_crate_error(self, name: String, index: usize) -> (r: Error)
        ensures
            r == (Error::ColumnFailure { name, index, source: self }),
    {
        Error::ColumnFailure { name, index, source: self }
    }
}

} // verus!
