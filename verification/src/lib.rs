//! Conversion strategies for moving tabular result data out of row/column
//! transit buffers into strongly typed columnar arrays.
//!
//! Given a target column's logical type and metadata reported by the data
//! source, the catalog in [`catalog`] picks a [`strategy::ColumnStrategy`]
//! which describes the transit buffer to bind and turns a filled buffer into
//! a finished column, or reports a structured [`failure::ColumnFailure`].

use vstd::prelude::*;

pub mod allocation;
pub mod binary;
pub mod boolean;
pub mod catalog;
pub mod date_time;
pub mod decimal;
pub mod failure;
pub mod no_conversion;
pub mod strategy;
pub mod text;
pub mod types;
pub mod view;

pub use allocation::BufferAllocationOptions;
pub use boolean::NonNullableBoolean;
pub use boolean::NullableBoolean;
pub use catalog::choose_column_strategy;
pub use decimal::Decimal;
pub use failure::ColumnFailure;
pub use failure::Error;
pub use strategy::ColumnStrategy;

verus! {

} // verus!
