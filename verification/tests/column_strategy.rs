use arrow_odbc::allocation::resolve_transit_len;
use arrow_odbc::allocation::validate_buffer_allocation;
use arrow_odbc::allocation::BufferAllocationOptions;
use arrow_odbc::binary::Binary;
use arrow_odbc::binary::FixedSizedBinary;
use arrow_odbc::boolean::NonNullableBoolean;
use arrow_odbc::boolean::NullableBoolean;
use arrow_odbc::catalog::choose_column_strategy;
use arrow_odbc::catalog::needs_display_size;
use arrow_odbc::catalog::needs_native_type;
use arrow_odbc::date_time::days_from_civil;
use arrow_odbc::date_time::rescale_timestamp;
use arrow_odbc::date_time::with_conversion;
use arrow_odbc::date_time::Conversion;
use arrow_odbc::decimal::parse_decimal_text;
use arrow_odbc::decimal::Decimal;
use arrow_odbc::failure::ColumnFailure;
use arrow_odbc::failure::Error;
use arrow_odbc::failure::FillFailure;
use arrow_odbc::no_conversion::no_conversion;
use arrow_odbc::strategy::ColumnStrategy;
use arrow_odbc::types::BufferDescription;
use arrow_odbc::types::BufferKind;
use arrow_odbc::types::Field;
use arrow_odbc::types::LogicalType;
use arrow_odbc::types::NativeType;
use arrow_odbc::types::SourceError;
use arrow_odbc::types::TimeUnit;
use arrow_odbc::view::CivilDate;
use arrow_odbc::view::ColumnArray;
use arrow_odbc::view::ColumnView;

fn native(column_size: usize) -> NativeType {
    NativeType { tag: 12, column_size }
}

fn source_error() -> SourceError {
    SourceError { description: String::from("driver said no") }
}

fn options() -> BufferAllocationOptions {
    BufferAllocationOptions::default()
}

fn text_cell(s: &str) -> Option<Vec<u8>> {
    Some(s.as_bytes().to_vec())
}

#[test]
fn boolean_non_nullable_round_trips() {
    let strategy = NonNullableBoolean;
    let description = strategy.buffer_description();
    assert_eq!(
        description,
        BufferDescription { nullable: false, kind: BufferKind::Bit }
    );
    let bits = vec![Some(true), Some(false), Some(true), Some(true)];
    let view = ColumnView::Bits { nullable: false, values: bits.clone() };
    match strategy.fill_arrow_array(view) {
        ColumnArray::Boolean(out) => assert_eq!(out, bits),
        _ => panic!("boolean strategy must fill a boolean array"),
    }
}

#[test]
fn boolean_nullable_keeps_mask_and_order() {
    let strategy = NullableBoolean;
    assert_eq!(
        strategy.buffer_description(),
        BufferDescription { nullable: true, kind: BufferKind::Bit }
    );
    let bits = vec![Some(true), None, Some(false), None];
    let view = ColumnView::Bits { nullable: true, values: bits.clone() };
    match strategy.fill_arrow_array(view) {
        ColumnArray::Boolean(out) => assert_eq!(out, bits),
        _ => panic!("boolean strategy must fill a boolean array"),
    }
}

#[test]
fn numeric_pass_through_keeps_mask_and_bits() {
    let strategy = match no_conversion(true, 8) {
        ColumnStrategy::NoConversion(s) => s,
        _ => panic!("no_conversion must build the pass-through strategy"),
    };
    let values = vec![Some(0xDEAD_BEEFu64), None, Some(0), Some(u64::MAX)];
    let view = ColumnView::Fixed { nullable: true, width: 8, values: values.clone() };
    match strategy.fill_arrow_array(view) {
        ColumnArray::Fixed { width, values: out } => {
            assert_eq!(width, 8);
            assert_eq!(out, values);
        }
        _ => panic!("pass-through must fill a fixed width array"),
    }
}

#[test]
fn decimal_parses_scaled_integers() {
    // "123.45" with precision >= 5 and scale 2 denotes 12345 * 10^-2.
    let strategy = Decimal::new(true, 5, 2);
    assert_eq!(
        strategy.buffer_description(),
        BufferDescription { nullable: true, kind: BufferKind::Text { max_str_len: 7 } }
    );
    let rows = vec![text_cell("123.45"), text_cell("-0.5"), None];
    let view = ColumnView::Text { max_str_len: 7, rows };
    match strategy.fill_arrow_array(view) {
        Ok(ColumnArray::Decimal { precision, scale, values }) => {
            assert_eq!(precision, 5);
            assert_eq!(scale, 2);
            assert_eq!(values, vec![Some(12345), Some(-5), None]);
        }
        _ => panic!("well formed decimal text must fill a decimal array"),
    }
}

#[test]
fn decimal_negative_with_scale_one() {
    let strategy = Decimal::new(false, 3, 1);
    let view = ColumnView::Text { max_str_len: 5, rows: vec![text_cell("-0.5")] };
    match strategy.fill_arrow_array(view) {
        Ok(ColumnArray::Decimal { scale, values, .. }) => {
            assert_eq!(scale, 1);
            assert_eq!(values, vec![Some(-5)]);
        }
        _ => panic!("well formed decimal text must fill a decimal array"),
    }
}

#[test]
fn decimal_malformed_text_is_a_row_failure() {
    let strategy = Decimal::new(true, 5, 2);
    let rows = vec![text_cell("1.00"), text_cell("12x45"), text_cell("2.00")];
    let view = ColumnView::Text { max_str_len: 7, rows };
    match strategy.fill_arrow_array(view) {
        Err(FillFailure::MalformedDecimalText { row_index }) => assert_eq!(row_index, 1),
        _ => panic!("malformed decimal text must be reported with its row"),
    }
}

#[test]
fn decimal_text_parses_signs_and_points() {
    assert_eq!(parse_decimal_text(&b"123.45".to_vec()), Some(12345));
    assert_eq!(parse_decimal_text(&b"+1.7".to_vec()), Some(17));
    assert_eq!(parse_decimal_text(&b"-0.5".to_vec()), Some(-5));
    assert_eq!(parse_decimal_text(&b"000".to_vec()), Some(0));
    assert_eq!(parse_decimal_text(&b"".to_vec()), None);
    assert_eq!(parse_decimal_text(&b"-".to_vec()), None);
    assert_eq!(parse_decimal_text(&b".".to_vec()), None);
    assert_eq!(parse_decimal_text(&b"12 3".to_vec()), None);
    assert_eq!(parse_decimal_text(&b"1-2".to_vec()), None);
    // 39 digits exceed what a 128 bit fixed point value is promised to hold.
    assert_eq!(
        parse_decimal_text(&b"123456789012345678901234567890123456789".to_vec()),
        None
    );
    assert_eq!(
        parse_decimal_text(&b"99999999999999999999999999999999999999".to_vec()),
        Some(99999999999999999999999999999999999999i128)
    );
}

#[test]
fn allocation_policy_covers_all_four_quadrants() {
    assert_eq!(resolve_transit_len(0, None), None);
    assert_eq!(resolve_transit_len(0, Some(50)), Some(50));
    assert_eq!(resolve_transit_len(100, None), Some(100));
    assert_eq!(resolve_transit_len(100, Some(50)), Some(50));
    assert_eq!(resolve_transit_len(30, Some(50)), Some(30));
}

#[test]
fn oversized_buffers_fail_instead_of_aborting() {
    match validate_buffer_allocation(usize::MAX, 16, true) {
        Err(ColumnFailure::TooLarge { num_elements, element_size }) => {
            assert_eq!(num_elements, usize::MAX);
            assert_eq!(element_size, 16);
        }
        _ => panic!("an oversized buffer must be reported as TooLarge"),
    }
    assert!(validate_buffer_allocation(1024, 8, true).is_ok());
    assert!(validate_buffer_allocation(1024, 8, false).is_ok());
}

#[test]
fn unsupported_types_are_refused_not_coerced() {
    let unsupported = [
        LogicalType::Null,
        LogicalType::Float16,
        LogicalType::UInt16,
        LogicalType::UInt32,
        LogicalType::UInt64,
        LogicalType::Date64,
        LogicalType::Time32,
        LogicalType::Time64,
        LogicalType::Duration,
        LogicalType::Interval,
        LogicalType::LargeUtf8,
        LogicalType::LargeBinary,
        LogicalType::List,
        LogicalType::FixedSizeList,
        LogicalType::LargeList,
        LogicalType::Struct,
        LogicalType::Union,
        LogicalType::Dictionary,
        LogicalType::Mapping,
    ];
    for data_type in unsupported {
        for nullable in [false, true] {
            let field = Field { data_type, nullable };
            match choose_column_strategy(&field, None, None, options()) {
                Err(ColumnFailure::UnsupportedLogicalType(t)) => assert_eq!(t, data_type),
                _ => panic!("an unsupported type must be refused by name"),
            }
        }
    }
}

#[test]
fn zero_sized_binary_column_fails_for_both_nullabilities() {
    for nullable in [false, true] {
        let field = Field { data_type: LogicalType::Binary, nullable };
        let got = choose_column_strategy(&field, Some(Ok(native(0))), None, options());
        match got {
            Err(ColumnFailure::ZeroSizedColumn { sql_type }) => {
                assert_eq!(sql_type, native(0));
            }
            _ => panic!("a zero sized binary column without a ceiling must fail"),
        }
    }
}

#[test]
fn binary_length_resolution_uses_the_policy() {
    let field = Field { data_type: LogicalType::Binary, nullable: true };
    let mut opts = options();
    opts.max_binary_size = Some(64);
    match choose_column_strategy(&field, Some(Ok(native(0))), None, opts) {
        Ok(ColumnStrategy::Binary(Binary { nullable, length })) => {
            assert!(nullable);
            assert_eq!(length, 64);
        }
        _ => panic!("the ceiling must size a zero reported binary column"),
    }
    match choose_column_strategy(&field, Some(Ok(native(128))), None, opts) {
        Ok(ColumnStrategy::Binary(Binary { length, .. })) => assert_eq!(length, 64),
        _ => panic!("the ceiling must cap a large reported binary column"),
    }
    match choose_column_strategy(&field, Some(Ok(native(16))), None, opts) {
        Ok(ColumnStrategy::Binary(Binary { length, .. })) => assert_eq!(length, 16),
        _ => panic!("a reported size under the ceiling must win"),
    }
}

#[test]
fn timestamp_rescale_is_unit_consistent() {
    // 1_500_000_000 ns is 1.5 s: microseconds keep the half, seconds truncate it.
    assert_eq!(rescale_timestamp(1_500_000_000, TimeUnit::Microsecond), 1_500_000);
    assert_eq!(rescale_timestamp(1_500_000_000, TimeUnit::Millisecond), 1_500);
    assert_eq!(rescale_timestamp(1_500_000_000, TimeUnit::Second), 1);
    assert_eq!(rescale_timestamp(1_500_000_000, TimeUnit::Nanosecond), 1_500_000_000);
    // Truncation is toward zero on the negative side as well.
    assert_eq!(rescale_timestamp(-1_500_000_000, TimeUnit::Second), -1);
    assert_eq!(rescale_timestamp(i64::MIN, TimeUnit::Second), i64::MIN / 1_000_000_000);
}

#[test]
fn timestamp_fill_rescales_and_keeps_nulls() {
    let strategy = match with_conversion(true, Conversion::TimestampUs) {
        ColumnStrategy::WithConversion(s) => s,
        _ => panic!("with_conversion must build the conversion strategy"),
    };
    let view = ColumnView::Timestamps {
        nullable: true,
        values: vec![Some(1_500_000_000), None, Some(-2_000)],
    };
    match strategy.fill_arrow_array(view) {
        ColumnArray::Timestamp { unit, values } => {
            assert_eq!(unit, TimeUnit::Microsecond);
            assert_eq!(values, vec![Some(1_500_000), None, Some(-2)]);
        }
        _ => panic!("a timestamp strategy must fill a timestamp array"),
    }
}

#[test]
fn date_conversion_counts_days_since_the_epoch() {
    assert_eq!(days_from_civil(CivilDate { year: 1970, month: 1, day: 1 }), 0);
    assert_eq!(days_from_civil(CivilDate { year: 1970, month: 1, day: 2 }), 1);
    assert_eq!(days_from_civil(CivilDate { year: 1969, month: 12, day: 31 }), -1);
    assert_eq!(days_from_civil(CivilDate { year: 2000, month: 3, day: 1 }), 11017);
    assert_eq!(days_from_civil(CivilDate { year: 2000, month: 2, day: 29 }), 11016);
    assert_eq!(days_from_civil(CivilDate { year: 1, month: 1, day: 1 }), -719162);
}

#[test]
fn date_fill_converts_and_keeps_nulls() {
    let strategy = match with_conversion(true, Conversion::Date) {
        ColumnStrategy::WithConversion(s) => s,
        _ => panic!("with_conversion must build the conversion strategy"),
    };
    let view = ColumnView::Dates {
        nullable: true,
        values: vec![Some(CivilDate { year: 1970, month: 1, day: 3 }), None],
    };
    match strategy.fill_arrow_array(view) {
        ColumnArray::Date32(values) => assert_eq!(values, vec![Some(2), None]),
        _ => panic!("a date strategy must fill a day count array"),
    }
}

#[test]
fn text_sizing_prefers_the_native_report() {
    let field = Field { data_type: LogicalType::Utf8, nullable: true };
    match choose_column_strategy(&field, Some(Ok(native(20))), None, options()) {
        Ok(ColumnStrategy::Text(t)) => assert_eq!(t.max_str_len, 20),
        _ => panic!("a positive native report must size the text buffer"),
    }
    let mut opts = options();
    opts.max_text_size = Some(10);
    match choose_column_strategy(&field, Some(Ok(native(20))), None, opts) {
        Ok(ColumnStrategy::Text(t)) => assert_eq!(t.max_str_len, 10),
        _ => panic!("the ceiling must cap the text buffer"),
    }
}

#[test]
fn text_sizing_falls_back_to_the_display_size() {
    let field = Field { data_type: LogicalType::Utf8, nullable: false };
    match choose_column_strategy(&field, Some(Ok(native(0))), Some(Ok(40)), options()) {
        Ok(ColumnStrategy::Text(t)) => {
            assert!(!t.nullable);
            assert_eq!(t.max_str_len, 40);
        }
        _ => panic!("the display size must size a zero reported text column"),
    }
    match choose_column_strategy(&field, Some(Ok(native(0))), Some(Ok(0)), options()) {
        Err(ColumnFailure::ZeroSizedColumn { sql_type }) => assert_eq!(sql_type, native(0)),
        _ => panic!("no usable bound from either side must fail"),
    }
    match choose_column_strategy(&field, Some(Ok(native(0))), Some(Ok(-7)), options()) {
        Err(ColumnFailure::ZeroSizedColumn { .. }) => {}
        _ => panic!("a negative display size is no usable bound"),
    }
}

#[test]
fn failed_metadata_accessors_are_reported() {
    let field = Field { data_type: LogicalType::Utf8, nullable: true };
    match choose_column_strategy(&field, Some(Err(source_error())), None, options()) {
        Err(ColumnFailure::FailedToDescribeColumn(e)) => {
            assert_eq!(e.description, "driver said no");
        }
        _ => panic!("a failing native type accessor must be reported"),
    }
    match choose_column_strategy(&field, Some(Ok(native(0))), Some(Err(source_error())), options())
    {
        Err(ColumnFailure::UnknownStringLength { sql_type, source }) => {
            assert_eq!(sql_type, native(0));
            assert_eq!(source.description, "driver said no");
        }
        _ => panic!("a failing display size accessor must be reported"),
    }
}

#[test]
fn supported_types_get_their_strategies() {
    let nullable = true;
    let cases = [
        (LogicalType::Int8, 1usize),
        (LogicalType::Int16, 2),
        (LogicalType::Int32, 4),
        (LogicalType::Int64, 8),
        (LogicalType::UInt8, 1),
        (LogicalType::Float32, 4),
        (LogicalType::Float64, 8),
    ];
    for (data_type, width) in cases {
        let field = Field { data_type, nullable };
        match choose_column_strategy(&field, None, None, options()) {
            Ok(ColumnStrategy::NoConversion(s)) => {
                assert_eq!(s.width, width);
                assert!(s.nullable);
            }
            _ => panic!("a fixed width numeric type must get the pass-through strategy"),
        }
    }
    let field = Field { data_type: LogicalType::Boolean, nullable: false };
    assert!(matches!(
        choose_column_strategy(&field, None, None, options()),
        Ok(ColumnStrategy::NonNullableBoolean(_))
    ));
    let field = Field { data_type: LogicalType::Boolean, nullable: true };
    assert!(matches!(
        choose_column_strategy(&field, None, None, options()),
        Ok(ColumnStrategy::NullableBoolean(_))
    ));
    let field = Field {
        data_type: LogicalType::Timestamp { unit: TimeUnit::Millisecond },
        nullable: true,
    };
    match choose_column_strategy(&field, None, None, options()) {
        Ok(ColumnStrategy::WithConversion(s)) => {
            assert_eq!(s.conversion, Conversion::TimestampMs);
        }
        _ => panic!("a timestamp type must get a conversion strategy"),
    }
    let field = Field {
        data_type: LogicalType::Decimal { precision: 10, scale: 3 },
        nullable: false,
    };
    match choose_column_strategy(&field, None, None, options()) {
        Ok(ColumnStrategy::Decimal(d)) => {
            assert_eq!(d.precision, 10);
            assert_eq!(d.scale, 3);
            assert!(!d.nullable);
        }
        _ => panic!("a decimal type must get the decimal strategy"),
    }
    let field = Field {
        data_type: LogicalType::FixedSizeBinary { length: 16 },
        nullable: true,
    };
    match choose_column_strategy(&field, None, None, options()) {
        Ok(ColumnStrategy::FixedSizedBinary(s)) => assert_eq!(s.length, 16),
        _ => panic!("a fixed size binary type must get the exact length strategy"),
    }
}

#[test]
fn metadata_is_consulted_only_when_needed() {
    let boolean = Field { data_type: LogicalType::Boolean, nullable: true };
    let utf8 = Field { data_type: LogicalType::Utf8, nullable: true };
    let binary = Field { data_type: LogicalType::Binary, nullable: true };
    let decimal = Field { data_type: LogicalType::Decimal { precision: 5, scale: 2 }, nullable: true };
    assert!(!needs_native_type(&boolean));
    assert!(needs_native_type(&utf8));
    assert!(needs_native_type(&binary));
    assert!(!needs_native_type(&decimal));
    assert!(needs_display_size(&utf8, &native(0)));
    assert!(!needs_display_size(&utf8, &native(9)));
    assert!(!needs_display_size(&binary, &native(0)));
}

#[test]
fn text_and_binary_fills_pass_rows_through() {
    let field = Field { data_type: LogicalType::Utf8, nullable: true };
    let strategy = choose_column_strategy(&field, Some(Ok(native(10))), None, options()).unwrap();
    let rows = vec![text_cell("hello"), None, text_cell("")];
    match strategy.fill_arrow_array(ColumnView::Text { max_str_len: 10, rows: rows.clone() }) {
        Ok(ColumnArray::Utf8(out)) => assert_eq!(out, rows),
        _ => panic!("a text strategy must fill a text array"),
    }
    let strategy = FixedSizedBinary::new(true, 4);
    let rows = vec![Some(vec![1u8, 2, 3, 4]), None];
    match strategy.fill_arrow_array(ColumnView::Binary { length: 4, rows: rows.clone() }) {
        ColumnArray::Binary(out) => assert_eq!(out, rows),
        _ => panic!("a binary strategy must fill a binary array"),
    }
}

#[test]
fn failures_are_enriched_with_name_and_index() {
    let failure = ColumnFailure::TooLarge { num_elements: 7, element_size: 9 };
    match failure.into_crate_error(String::from("amount"), 3) {
        Error::ColumnFailure { name, index, source } => {
            assert_eq!(name, "amount");
            assert_eq!(index, 3);
            assert!(matches!(
                source,
                ColumnFailure::TooLarge { num_elements: 7, element_size: 9 }
            ));
        }
    }
}

#[test]
fn strategy_descriptions_match_the_field() {
    let field = Field { data_type: LogicalType::Utf8, nullable: false };
    let strategy = choose_column_strategy(&field, Some(Ok(native(5))), None, options()).unwrap();
    assert_eq!(
        strategy.buffer_description(),
        BufferDescription { nullable: false, kind: BufferKind::Text { max_str_len: 5 } }
    );
    let field = Field { data_type: LogicalType::Date32, nullable: true };
    let strategy = choose_column_strategy(&field, None, None, options()).unwrap();
    assert_eq!(
        strategy.buffer_description(),
        BufferDescription { nullable: true, kind: BufferKind::FixedWidth { width: 6 } }
    );
    let field = Field { data_type: LogicalType::Int32, nullable: false };
    let strategy = choose_column_strategy(&field, None, None, options()).unwrap();
    assert_eq!(
        strategy.buffer_description(),
        BufferDescription { nullable: false, kind: BufferKind::FixedWidth { width: 4 } }
    );
}
