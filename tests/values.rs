use duckdb_bridge::{
    decode, duckdb_blob, duckdb_date, duckdb_hugeint, duckdb_interval, duckdb_time,
    duckdb_timestamp, DbError, DbType, DuckDBState, DuckDBType, RawValue,
};

#[test]
fn to_string_works() {
    let value = duckdb_timestamp::new(duckdb_date::new(1996, 8, 7), duckdb_time::new(12, 10, 0, 0));

    assert_eq!(value.to_string(), "1996-08-07T12:10:00.0");
}

#[test]
fn timestamp() {
    let ts = duckdb_timestamp::new(duckdb_date::new(2021, 1, 1), duckdb_time::new(11, 13, 0, 0));
    assert_eq!(ts.date, duckdb_date { year: 2021, month: 1, day: 1 });
    assert_eq!(ts.time, duckdb_time { hour: 11, min: 13, sec: 0, micros: 0 });
    assert_eq!(ts.to_string(), "2021-01-01T11:13:00.0");
}

#[test]
fn date_fields_are_zero_padded() {
    assert_eq!(duckdb_date::new(5, 1, 2).to_string(), "0005-01-02");
    assert_eq!(duckdb_date::new(-5, 12, 31).to_string(), "00-5-12-31");
    assert_eq!(duckdb_date::new(12345, 10, 9).to_string(), "12345-10-09");
}

#[test]
fn time_micros_are_not_padded() {
    assert_eq!(duckdb_time::new(1, 2, 3, 123).to_string(), "01:02:03.123");
    assert_eq!(duckdb_time::new(23, 59, 59, 7).to_string(), "23:59:59.7");
}

#[test]
fn interval_text_names_each_field() {
    let iv = duckdb_interval { months: 14, days: -3, micros: 9000000 };
    assert_eq!(iv.to_string(), "duckdb_interval { months: 14, days: -3, micros: 9000000 }");
}

#[test]
fn hugeint_value_joins_the_halves() {
    assert_eq!(duckdb_hugeint { lower: 5, upper: 0 }.value(), 5);
    assert_eq!(duckdb_hugeint { lower: 0, upper: 1 }.value(), 1i128 << 64);
    assert_eq!(duckdb_hugeint { lower: u64::MAX, upper: -1 }.value(), -1);
    assert_eq!(duckdb_hugeint { lower: 0, upper: i64::MIN }.value(), i128::MIN);
    assert_eq!(
        duckdb_hugeint { lower: u64::MAX, upper: i64::MAX }.to_string(),
        format!("duckdb_hugeint {{ value: {} }}", i128::MAX)
    );
}

#[test]
fn blob_counts_its_bytes() {
    let blob = duckdb_blob::new(vec![1, 2, 3]);
    assert_eq!(blob.size(), 3);
    assert_eq!(blob.data(), &[1u8, 2, 3][..]);
    assert_eq!(blob.to_string(), "duckdb_blob { size: 3, .. }");
}

#[test]
fn type_tags_round_trip() {
    for tag in 0..15 {
        assert_eq!(DuckDBType::from_tag(tag).tag(), tag);
    }
    assert_eq!(DuckDBType::from_tag(4), DuckDBType::DuckDBTypeInteger);
    assert_eq!(DuckDBType::from_tag(99), DuckDBType::DuckDBTypeInvalid);
    assert_eq!(DuckDBType::from_tag(-1), DuckDBType::DuckDBTypeInvalid);
    assert_eq!(DuckDBType::DuckDBTypeVarchar.name(), "DuckDBTypeVarchar");
    assert_eq!(DuckDBType::DuckDBTypeVarchar.value_label(), "String");
    assert_eq!(DuckDBType::DuckDBTypeInvalid.value_label(), "Unknown");
}

#[test]
fn decode_integer() {
    let v = decode(DuckDBType::DuckDBTypeInteger, Some(RawValue::Int32(1))).unwrap();
    assert!(matches!(v, DbType::Integer(1)));
    assert_eq!(v.kind_name(), "Integer");
    assert_eq!(v.text().unwrap(), "1");
}

#[test]
fn decode_each_fixed_width_kind() {
    let b = decode(DuckDBType::DuckDBTypeBoolean, Some(RawValue::Boolean(true))).unwrap();
    assert_eq!(b.text().unwrap(), "true");
    let t = decode(DuckDBType::DuckDBTypeTinyint, Some(RawValue::Int8(-128))).unwrap();
    assert_eq!(t.text().unwrap(), "-128");
    let s = decode(DuckDBType::DuckDBTypeSmallint, Some(RawValue::Int16(300))).unwrap();
    assert_eq!(s.text().unwrap(), "300");
    let g = decode(DuckDBType::DuckDBTypeBigint, Some(RawValue::Int64(i64::MIN))).unwrap();
    assert_eq!(g.text().unwrap(), "-9223372036854775808");
    let f = decode(DuckDBType::DuckDBTypeFloat, Some(RawValue::Float(1.5f32.to_bits()))).unwrap();
    assert!(matches!(f, DbType::Float(bits) if f32::from_bits(bits) == 1.5));
    assert!(f.text().is_none());
    let d = decode(DuckDBType::DuckDBTypeDouble, Some(RawValue::Double(2.25f64.to_bits()))).unwrap();
    assert!(matches!(d, DbType::Double(bits) if f64::from_bits(bits) == 2.25));
    assert_eq!(d.kind_name(), "Double");
}

#[test]
fn decode_date_gives_the_date_variant() {
    let date = duckdb_date::new(2024, 2, 29);
    let v = decode(DuckDBType::DuckDBTypeDate, Some(RawValue::Date(Some(date)))).unwrap();
    assert!(matches!(v, DbType::Date(d) if d == date));
    assert_eq!(v.kind_name(), "Date");
    assert_eq!(v.text().unwrap(), "2024-02-29");
}

#[test]
fn decode_composites() {
    let ts = duckdb_timestamp::new(duckdb_date::new(1996, 8, 7), duckdb_time::new(12, 10, 0, 0));
    let v = decode(DuckDBType::DuckDBTypeTimestamp, Some(RawValue::Timestamp(Some(ts)))).unwrap();
    assert_eq!(v.text().unwrap(), "1996-08-07T12:10:00.0");
    let t = decode(DuckDBType::DuckDBTypeTime, Some(RawValue::Time(Some(duckdb_time::new(9, 5, 1, 0))))).unwrap();
    assert_eq!(t.text().unwrap(), "09:05:01.0");
    let iv = duckdb_interval { months: 1, days: 2, micros: 3 };
    let i = decode(DuckDBType::DuckDBTypeInterval, Some(RawValue::Interval(Some(iv)))).unwrap();
    assert_eq!(i.text().unwrap(), "duckdb_interval { months: 1, days: 2, micros: 3 }");
    let h = decode(
        DuckDBType::DuckDBTypeHugeint,
        Some(RawValue::Hugeint(Some(duckdb_hugeint { lower: 42, upper: 0 }))),
    )
    .unwrap();
    assert_eq!(h.text().unwrap(), "duckdb_hugeint { value: 42 }");
}

#[test]
fn decode_varchar_repairs_invalid_bytes() {
    let v = decode(DuckDBType::DuckDBTypeVarchar, Some(RawValue::Varchar(Some(b"hello".to_vec())))).unwrap();
    assert!(matches!(&v, DbType::String(s) if s == "hello"));
    let bad = decode(DuckDBType::DuckDBTypeVarchar, Some(RawValue::Varchar(Some(vec![0x66, 0xff, 0x67])))).unwrap();
    assert_eq!(bad.text().unwrap(), "f\u{FFFD}g");
    let utf8 = decode(DuckDBType::DuckDBTypeVarchar, Some(RawValue::Varchar(Some("é<".as_bytes().to_vec())))).unwrap();
    assert_eq!(utf8.text().unwrap(), "é<");
}

#[test]
fn decode_blob_owns_the_bytes() {
    let v = decode(DuckDBType::DuckDBTypeBlob, Some(RawValue::Blob(Some(vec![9, 8])))).unwrap();
    match &v {
        DbType::Blob(b) => assert_eq!(b.data(), &[9u8, 8][..]),
        _ => panic!("not a blob"),
    }
    assert_eq!(v.text().unwrap(), "duckdb_blob { size: 2, .. }");
}

#[test]
fn decode_null_pointer_fails() {
    assert_eq!(
        decode(DuckDBType::DuckDBTypeDate, Some(RawValue::Date(None))).unwrap_err(),
        DbError::DecodeError
    );
    assert_eq!(
        decode(DuckDBType::DuckDBTypeVarchar, Some(RawValue::Varchar(None))).unwrap_err(),
        DbError::DecodeError
    );
    assert_eq!(
        decode(DuckDBType::DuckDBTypeBlob, Some(RawValue::Blob(None))).unwrap_err(),
        DbError::DecodeError
    );
}

#[test]
fn decode_mismatched_accessor_fails() {
    assert_eq!(
        decode(DuckDBType::DuckDBTypeInteger, Some(RawValue::Int64(1))).unwrap_err(),
        DbError::DecodeError
    );
    assert_eq!(decode(DuckDBType::DuckDBTypeInteger, None).unwrap_err(), DbError::DecodeError);
}

#[test]
fn decode_invalid_type_is_unknown() {
    let v = decode(DuckDBType::DuckDBTypeInvalid, None).unwrap();
    assert!(matches!(v, DbType::Unknown(DuckDBType::DuckDBTypeInvalid)));
    assert_eq!(v.text().unwrap(), "unknown");
    assert_eq!(v.kind_name(), "Unknown");
}

#[test]
fn state_reads_the_status_word() {
    assert_eq!(DuckDBState::from_code(0), DuckDBState::DuckDBSuccess);
    assert_eq!(DuckDBState::from_code(1), DuckDBState::DuckDBError);
    assert!(DuckDBState::DuckDBSuccess.is_success());
    assert!(!DuckDBState::DuckDBError.is_success());
    assert_eq!(DuckDBState::DuckDBSuccess.into_result(), Ok(DuckDBState::DuckDBSuccess));
    assert_eq!(DuckDBState::DuckDBError.into_result(), Err(DuckDBState::DuckDBError));
}
