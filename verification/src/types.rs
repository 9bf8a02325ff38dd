//! The data model shared by the strategy catalog and the concrete
//! strategies: target logical types, source metadata, and the description of
//! the transit buffer a strategy wants bound.

use vstd::prelude::*;

verus! {

/// Time unit of a timestamp column, from coarsest to finest.
#[derive(Clone, Copy, Debug, PartialEq, Eq, Structural)]
pub enum TimeUnit {
    Second,
    Millisecond,
    Microsecond,
    Nanosecond,
}

/// The target schema's declared type for a column.
///
/// Only a subset of these has a conversion strategy; the catalog rejects the
/// rest with an explicit failure rather than coercing silently.
#[derive(Clone, Copy, Debug, PartialEq, Eq, Structural)]
pub enum LogicalType {
    Boolean,
    Int8,
    Int16,
    Int32,
    Int64,
    UInt8,
    UInt16,
    UInt32,
    UInt64,
    Float16,
    Float32,
    Float64,
    /// Fixed point decimal with a digit budget (`precision`) and an implied
    /// number of fractional digits (`scale`).
    Decimal { precision: usize, scale: usize },
    /// Calendar date stored as days since the epoch.
    Date32,
    Date64,
    /// Point in time stored as a count of `unit`s since the epoch.
    Timestamp { unit: TimeUnit },
    Time32,
    Time64,
    Duration,
    Interval,
    Utf8,
    LargeUtf8,
    Binary,
    LargeBinary,
    FixedSizeBinary { length: usize },
    List,
    FixedSizeList,
    LargeList,
    Struct,
    Union,
    Dictionary,
    Mapping,
    Null,
}

/// A target column descriptor: logical type plus nullability. Immutable for
/// the lifetime of a conversion session.
#[derive(Clone, Copy, Debug, PartialEq, Eq, Structural)]
pub struct Field {
    pub data_type: LogicalType,
    pub nullable: bool,
}

/// The source system's reported type for a column: an opaque driver tag plus
/// the column size the driver reported for it. Consulted only when the
/// logical type's physical layout is not statically fixed.
#[derive(Clone, Copy, Debug, PartialEq, Eq, Structural)]
pub struct NativeType {
    /// Driver defined type tag, carried through into failures unchanged.
    pub tag: u32,
    /// Size the source reported for the column; `0` means the source could
    /// not give a usable bound.
    pub column_size: usize,
}

/// A driver defined error raised by one of the lazy metadata accessors,
/// carried through into failures unchanged.
#[derive(Clone, Debug)]
pub struct SourceError {
    pub description: String,
}

/// Shape of the transit buffer a strategy needs bound to the source cursor.
#[derive(Clone, Copy, Debug, PartialEq, Eq, Structural)]
pub enum BufferKind {
    /// One bit flag per row.
    Bit,
    /// One element of `width` bytes per row, copied without conversion.
    FixedWidth { width: usize },
    /// One text cell of at most `max_str_len` bytes per row.
    Text { max_str_len: usize },
    /// One binary cell of at most `length` bytes per row.
    Binary { length: usize },
}

/// All the buffer-allocation collaborator needs to know: the element shape
/// and whether a validity indicator must accompany the values.
#[derive(Clone, Copy, Debug, PartialEq, Eq, Structural)]
pub struct BufferDescription {
    pub nullable: bool,
    pub kind: BufferKind,
}

} // verus!
