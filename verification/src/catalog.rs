//! The strategy catalog: one exhaustively checked mapping from a target
//! field and lazily fetched source metadata to a conversion strategy, or a
//! structured failure. Adding a logical type is a visible change here, never
//! a silent fallthrough.

use vstd::prelude::*;

use crate::allocation::spec_resolved_transit_len;
use crate::allocation::resolve_transit_len;
use crate::allocation::BufferAllocationOptions;
use crate::binary::Binary;
use crate::binary::FixedSizedBinary;
use crate::boolean::NonNullableBoolean;
use crate::boolean::NullableBoolean;
use crate::date_time::Conversion;
use crate::date_time::WithConversion;
use crate::decimal::Decimal;
use crate::decimal::MAX_DECIMAL_PRECISION;
use crate::failure::ColumnFailure;
use crate::no_conversion::NoConversion;
use crate::strategy::ColumnStrategy;
use crate::text::choose_text_strategy;
use crate::text::spec_text_strategy;
use crate::types::Field;
use crate::types::LogicalType;
use crate::types::NativeType;
use crate::types::SourceError;
use crate::types::TimeUnit;

verus! {

/// The logical types a conversion strategy exists for. The set is explicit
/// and closed: everything else fails selection, with no fallback coercion.
pub open spec fn is_supported(t: LogicalType) -> bool {
    match t {
        LogicalType::Boolean => true,
        LogicalType::Int8 => true,
        LogicalType::Int16 => true,
        LogicalType::Int32 => true,
        LogicalType::Int64 => true,
        LogicalType::UInt8 => true,
        LogicalType::Float32 => true,
        LogicalType::Float64 => true,
        LogicalType::Decimal { .. } => true,
        LogicalType::Date32 => true,
        LogicalType::Timestamp { .. } => true,
        LogicalType::Utf8 => true,
        LogicalType::Binary => true,
        LogicalType::FixedSizeBinary { .. } => true,
        _ => false,
    }
}

/// Transit element width in bytes for the fixed width numeric types.
pub open spec fn spec_fixed_width(t: LogicalType) -> usize {
    match t {
        LogicalType::Int8 => 1,
        LogicalType::UInt8 => 1,
        LogicalType::Int16 => 2,
        LogicalType::Int32 => 4,
        LogicalType::Float32 => 4,
        _ => 8,
    }
}

/// Whether selection consults the native type accessor: only for targets
/// whose physical layout is not statically fixed.
pub open spec fn spec_needs_native_type(t: LogicalType) -> bool {
    t is Utf8 || t is Binary
}

/// Whether the caller must fetch the native type before selection. The
/// accessor may fail and is invoked at most once; for every other target it
/// is never invoked at all.
pub fn needs_native_type(field: &Field) -> (r: bool)
    ensures
        r == spec_needs_native_type(field.data_type),
{
    match field.data_type {
        LogicalType::Utf8 => true,
        LogicalType::Binary => true,
        _ => false,
    }
}

/// Whether the caller must fetch the display size before selection: only a
/// text target whose native type reported no usable size consults it.
pub fn needs_display_size(field: &Field, native: &NativeType) -> (r: bool)
    ensures
        r == (field.data_type is Utf8 && native.column_size == 0),
{
    match field.data_type {
        LogicalType::Utf8 => native.column_size == 0,
        _ => false,
    }
}

/// A target field the schema loader may hand over: a decimal digit budget
/// must be honourable by the 128 bit decimal strategy.
pub open spec fn spec_field_wf(field: Field) -> bool {
    field.data_type matches LogicalType::Decimal { precision, scale } ==> (1 <= precision
        <= MAX_DECIMAL_PRECISION && scale <= precision)
}

/// The conversion that rescales nanoseconds into the target unit.
pub open spec fn spec_timestamp_conversion(unit: TimeUnit) -> Conversion {
    match unit {
        TimeUnit::Second => Conversion::TimestampSec,
        TimeUnit::Millisecond => Conversion::TimestampMs,
        TimeUnit::Microsecond => Conversion::TimestampUs,
        TimeUnit::Nanosecond => Conversion::TimestampNs,
    }
}

/// The dispatch table of the catalog as a value; see
/// [`choose_column_strategy`].
pub open spec fn spec_choose(
    field: Field,
    native_type: Option<Result<NativeType, SourceError>>,
    display_size: Option<Result<isize, SourceError>>,
    options: BufferAllocationOptions,
) -> Result<ColumnStrategy, ColumnFailure> {
    match field.data_type {
        LogicalType::Boolean => Result::Ok(
            if field.nullable {
                ColumnStrategy::NullableBoolean(NullableBoolean)
            } else {
                ColumnStrategy::NonNullableBoolean(NonNullableBoolean)
            },
        ),
        LogicalType::Int8 | LogicalType::Int16 | LogicalType::Int32 | LogicalType::Int64
        | LogicalType::UInt8 | LogicalType::Float32 | LogicalType::Float64 => Result::Ok(
            ColumnStrategy::NoConversion(
                NoConversion {
                    nullable: field.nullable,
                    width: spec_fixed_width(field.data_type),
                },
            ),
        ),
        LogicalType::Date32 => Result::Ok(
            ColumnStrategy::WithConversion(
                WithConversion { nullable: field.nullable, conversion: Conversion::Date },
            ),
        ),
        LogicalType::Timestamp { unit } => Result::Ok(
            ColumnStrategy::WithConversion(
                WithConversion {
                    nullable: field.nullable,
                    conversion: spec_timestamp_conversion(unit),
                },
            ),
        ),
        LogicalType::Utf8 => match native_type {
            Some(Result::Ok(nt)) => spec_text_strategy(
                nt,
                display_size,
                field.nullable,
                options.max_text_size,
            ),
            Some(Result::Err(e)) => Result::Err(ColumnFailure::FailedToDescribeColumn(e)),
            None => Result::Err(
                ColumnFailure::ZeroSizedColumn {
                    sql_type: NativeType { tag: 0, column_size: 0 },
                },
            ),
        },
        LogicalType::Decimal { precision, scale } => Result::Ok(
            ColumnStrategy::Decimal(Decimal { nullable: field.nullable, precision, scale }),
        ),
        LogicalType::Binary => match native_type {
            Some(Result::Ok(nt)) => match spec_resolved_transit_len(
                nt.column_size,
                options.max_binary_size,
            ) {
                None => Result::Err(ColumnFailure::ZeroSizedColumn { sql_type: nt }),
                Some(len) => Result::Ok(
                    ColumnStrategy::Binary(Binary { nullable: field.nullable, length: len }),
                ),
            },
            Some(Result::Err(e)) => Result::Err(ColumnFailure::FailedToDescribeColumn(e)),
            None => Result::Err(
                ColumnFailure::ZeroSizedColumn {
                    sql_type: NativeType { tag: 0, column_size: 0 },
                },
            ),
        },
        LogicalType::FixedSizeBinary { length } => Result::Ok(
            ColumnStrategy::FixedSizedBinary(
                FixedSizedBinary { nullable: field.nullable, length },
            ),
        ),
        _ => Result::Err(ColumnFailure::UnsupportedLogicalType(field.data_type)),
    }
}

/// Selects the conversion strategy for one column of the target schema.
///
/// The two metadata accessors are caller supplied compute-once holders,
/// invoked at most once each and only on demand: the native type must have
/// been fetched (see [`needs_native_type`]) for text and binary targets,
/// the display size (see [`needs_display_size`]) for a text target whose
/// native type reported no usable size; neither is consulted otherwise, and
/// either may hold the accessor's failure instead of a value.
///
/// An unsupported logical type is refused with
/// [`ColumnFailure::UnsupportedLogicalType`], and only such a type is: the
/// selection never falls back to a coercion. A selected strategy always
/// describes a transit buffer of the field's own nullability.
pub fn choose_column_strategy(
    field: &Field,
    native_type: Option<Result<NativeType, SourceError>>,
    display_size: Option<Result<isize, SourceError>>,
    buffer_allocation_options: BufferAllocationOptions,
) -> (r: Result<ColumnStrategy, ColumnFailure>)
    requires
        spec_field_wf(*field),
        spec_needs_native_type(field.data_type) ==> native_type is Some,
        field.data_type is Utf8 ==> (match native_type {
            Some(Result::Ok(nt)) => nt.column_size == 0 ==> display_size is Some,
            _ => true,
        }),
    ensures
        r == spec_choose(*field, native_type, display_size, buffer_allocation_options),
        !is_supported(field.data_type) ==> r == Result::<
            ColumnStrategy,
            ColumnFailure,
        >::Err(ColumnFailure::UnsupportedLogicalType(field.data_type)),
        is_supported(field.data_type) ==> (r matches Err(f) ==> !(f
            is UnsupportedLogicalType)),
        r matches Ok(s) ==> s.spec_buffer_description().nullable == field.nullable,
        r matches Ok(s) ==> s.wf(),
{
    match field.data_type {
        LogicalType::Boolean => {
            if field.nullable {
                Ok(ColumnStrategy::NullableBoolean(NullableBoolean))
            } else {
                Ok(ColumnStrategy::NonNullableBoolean(NonNullableBoolean))
            }
        }
        LogicalType::Int8 => Ok(
            ColumnStrategy::NoConversion(NoConversion { nullable: field.nullable, width: 1 }),
        ),
        LogicalType::Int16 => Ok(
            ColumnStrategy::NoConversion(NoConversion { nullable: field.nullable, width: 2 }),
        ),
        LogicalType::Int32 => Ok(
            ColumnStrategy::NoConversion(NoConversion { nullable: field.nullable, width: 4 }),
        ),
        LogicalType::Int64 => Ok(
            ColumnStrategy::NoConversion(NoConversion { nullable: field.nullable, width: 8 }),
        ),
        LogicalType::UInt8 => Ok(
            ColumnStrategy::NoConversion(NoConversion { nullable: field.nullable, width: 1 }),
        ),
        LogicalType::Float32 => Ok(
            ColumnStrategy::NoConversion(NoConversion { nullable: field.nullable, width: 4 }),
        ),
        LogicalType::Float64 => Ok(
            ColumnStrategy::NoConversion(NoConversion { nullable: field.nullable, width: 8 }),
        ),
        LogicalType::Date32 => Ok(
            ColumnStrategy::WithConversion(
                WithConversion { nullable: field.nullable, conversion: Conversion::Date },
            ),
        ),
        LogicalType::Timestamp { unit } => {
            let conversion: Conversion = match unit {
                TimeUnit::Second => Conversion::TimestampSec,
                TimeUnit::Millisecond => Conversion::TimestampMs,
                TimeUnit::Microsecond => Conversion::TimestampUs,
                TimeUnit::Nanosecond => Conversion::TimestampNs,
            };
            Ok(
                ColumnStrategy::WithConversion(
                    WithConversion { nullable: field.nullable, conversion },
                ),
            )
        }
        LogicalType::Utf8 => {
            match native_type {
                Some(Ok(nt)) => choose_text_strategy(
                    nt,
                    display_size,
                    field.nullable,
                    buffer_allocation_options.max_text_size,
                ),
                Some(Err(e)) => Err(ColumnFailure::FailedToDescribeColumn(e)),
                None => {
                    proof {
                        assert(false);
                    }
                    Err(
                        ColumnFailure::ZeroSizedColumn {
                            sql_type: NativeType { tag: 0, column_size: 0 },
                        },
                    )
                }
            }
        }
        LogicalType::Decimal { precision, scale } => Ok(
            ColumnStrategy::Decimal(Decimal::new(field.nullable, precision, scale)),
        ),
        LogicalType::Binary => {
            match native_type {
                Some(Ok(nt)) => {
                    match resolve_transit_len(
                        nt.column_size,
                        buffer_allocation_options.max_binary_size,
                    ) {
                        None => Err(ColumnFailure::ZeroSizedColumn { sql_type: nt }),
                        Some(len) => Ok(
                            ColumnStrategy::Binary(Binary::new(field.nullable, len)),
                        ),
                    }
                }
                Some(Err(e)) => Err(ColumnFailure::FailedToDescribeColumn(e)),
                None => {
                    proof {
                        assert(false);
                    }
                    Err(
                        ColumnFailure::ZeroSizedColumn {
                            sql_type: NativeType { tag: 0, column_size: 0 },
                        },
                    )
                }
            }
        }
        LogicalType::FixedSizeBinary { length } => Ok(
            ColumnStrategy::FixedSizedBinary(FixedSizedBinary::new(field.nullable, length)),
        ),
        _ => Err(ColumnFailure::UnsupportedLogicalType(field.data_type)),
    }
}

/// For a binary target whose source reported no usable size, with no
/// ceiling configured, selection fails with `ZeroSizedColumn` carrying the
/// native type, deterministically and independently of the field's
/// nullability, which this law leaves entirely unconstrained.
pub proof fn lemma_zero_sized_binary_column(
    field: Field,
    nt: NativeType,
    display_size: Option<Result<isize, SourceError>>,
    options: BufferAllocationOptions,
)
    requires
        field.data_type is Binary,
        nt.column_size == 0,
        options.max_binary_size is None,
    ensures
        spec_choose(field, Some(Result::Ok(nt)), display_size, options) == Result::<
            ColumnStrategy,
            ColumnFailure,
        >::Err(ColumnFailure::ZeroSizedColumn { sql_type: nt }),
{
}

/// Selection refuses exactly the logical types outside the supported set,
/// whatever the metadata and options say: an unsupported type is never
/// coerced, and a supported one is never refused as unsupported.
pub proof fn lemma_unsupported_is_closed(
    field: Field,
    native_type: Option<Result<NativeType, SourceError>>,
    display_size: Option<Result<isize, SourceError>>,
    options: BufferAllocationOptions,
)
    ensures
        !is_supported(field.data_type) <==> spec_choose(
            field,
            native_type,
            display_size,
            options,
        ) == Result::<ColumnStrategy, ColumnFailure>::Err(
            ColumnFailure::UnsupportedLogicalType(field.data_type),
        ),
{
}

} // verus!
