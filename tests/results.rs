use duckdb_bridge::{
    c_string, open_path, DbError, DbType, DuckDBColumn, DuckDBState, DuckDBType, RawResult,
    RawValue, ResolvedResult, DB,
};

fn one_integer_column() -> RawResult {
    RawResult {
        column_count: 1,
        row_count: 1,
        columns: vec![DuckDBColumn { type_: DuckDBType::DuckDBTypeInteger, name: "1".to_string() }],
        error_message: None,
    }
}

#[test]
fn select_one_scenario() {
    let db = DB::new(DuckDBState::DuckDBSuccess, 16).unwrap();
    let conn = db.connection(DuckDBState::DuckDBSuccess, 32).unwrap();
    let result = conn.query(DuckDBState::DuckDBSuccess, one_integer_column()).unwrap();
    assert_eq!(result.column_count(), 1);
    assert_eq!(result.row_count(), 1);
    let cell = result.consume(0, 0, Some(RawValue::Int32(1))).unwrap();
    assert!(matches!(cell, DbType::Integer(1)));
}

#[test]
fn failed_query_copies_the_message() {
    let raw = RawResult {
        column_count: 0,
        row_count: 0,
        columns: vec![],
        error_message: Some(b"Parser Error: syntax error at or near \"selec\"".to_vec()),
    };
    let err = ResolvedResult::resolve(DuckDBState::DuckDBError, raw).unwrap_err();
    assert_eq!(
        err,
        DbError::QueryError("Parser Error: syntax error at or near \"selec\"".to_string())
    );
    assert_eq!(err.to_string(), "Parser Error: syntax error at or near \"selec\"");
}

#[test]
fn failed_query_without_message_is_not_empty() {
    let raw = RawResult { column_count: 0, row_count: 0, columns: vec![], error_message: None };
    let err = ResolvedResult::resolve(DuckDBState::DuckDBError, raw).unwrap_err();
    assert_eq!(err, DbError::QueryError("query failed".to_string()));
    let empty = RawResult { column_count: 0, row_count: 0, columns: vec![], error_message: Some(vec![]) };
    let err = ResolvedResult::resolve(DuckDBState::DuckDBError, empty).unwrap_err();
    assert_eq!(err, DbError::QueryError("query failed".to_string()));
}

#[test]
fn repeated_failing_queries_keep_failing_cleanly() {
    let db = DB::new(DuckDBState::DuckDBSuccess, 16).unwrap();
    let conn = db.connection(DuckDBState::DuckDBSuccess, 32).unwrap();
    for _ in 0..3 {
        let raw = RawResult {
            column_count: 0,
            row_count: 0,
            columns: vec![],
            error_message: Some(b"Out of Range Error: division by zero".to_vec()),
        };
        let err = conn.query(DuckDBState::DuckDBError, raw).unwrap_err();
        assert_eq!(err, DbError::QueryError("Out of Range Error: division by zero".to_string()));
    }
    let ok = conn.query(DuckDBState::DuckDBSuccess, one_integer_column());
    assert!(ok.is_ok());
}

#[test]
fn malformed_result_is_a_decode_error() {
    let mut raw = one_integer_column();
    raw.column_count = 2;
    assert_eq!(ResolvedResult::resolve(DuckDBState::DuckDBSuccess, raw).unwrap_err(), DbError::DecodeError);
    let mut raw = one_integer_column();
    raw.row_count = -1;
    assert_eq!(ResolvedResult::resolve(DuckDBState::DuckDBSuccess, raw).unwrap_err(), DbError::DecodeError);
}

#[test]
fn column_out_of_range_is_an_index_error() {
    let result = ResolvedResult::resolve(DuckDBState::DuckDBSuccess, one_integer_column()).unwrap();
    assert_eq!(result.column(0).unwrap().name, "1");
    assert_eq!(result.column(1).unwrap_err(), DbError::IndexError);
    assert_eq!(result.column(-1).unwrap_err(), DbError::IndexError);
    assert_eq!(result.consume(1, 0, Some(RawValue::Int32(1))).unwrap_err(), DbError::IndexError);
    assert_eq!(result.consume(-1, 0, Some(RawValue::Int32(1))).unwrap_err(), DbError::IndexError);
    assert!(matches!(result.consume(0, 1, Some(RawValue::Int32(0))), Ok(DbType::Integer(0))));
    assert_eq!(result.columns().len(), 1);
}

#[test]
fn current_date_round_trip_decodes_to_date() {
    let raw = RawResult {
        column_count: 1,
        row_count: 1,
        columns: vec![DuckDBColumn { type_: DuckDBType::from_tag(9), name: "d".to_string() }],
        error_message: None,
    };
    let result = ResolvedResult::resolve(DuckDBState::DuckDBSuccess, raw).unwrap();
    let today = duckdb_bridge::duckdb_date::new(2026, 10, 19);
    let cell = result.consume(0, 0, Some(RawValue::Date(Some(today)))).unwrap();
    assert!(matches!(cell, DbType::Date(d) if d == today));
}

#[test]
fn open_and_connect_errors() {
    assert_eq!(DB::new(DuckDBState::DuckDBError, 0).unwrap_err(), DbError::OpenError);
    let db = DB::new(DuckDBState::DuckDBSuccess, 8).unwrap();
    assert_eq!(db.handle(), 8);
    assert_eq!(db.connection(DuckDBState::DuckDBError, 0).unwrap_err(), DbError::ConnectError);
    assert_eq!(DbError::OpenError.to_string(), "failed to open the database");
    assert_eq!(DbError::IndexError.to_string(), "column index out of range");
}

#[test]
fn connect_then_disconnect_keeps_the_database() {
    let db = DB::new(DuckDBState::DuckDBSuccess, 8).unwrap();
    let first = db.connection(DuckDBState::DuckDBSuccess, 100).unwrap();
    assert_eq!(first.handle(), 100);
    assert_eq!(first.database().handle(), 8);
    assert_eq!(first.disconnect(), 100);
    let second = db.connection(DuckDBState::DuckDBSuccess, 200).unwrap();
    assert_eq!(second.database().handle(), 8);
    assert_eq!(second.disconnect(), 200);
    assert_eq!(db.close(), 8);
}

#[test]
fn c_strings_end_in_zero() {
    assert_eq!(c_string("abc").unwrap(), vec![97, 98, 99, 0]);
    assert_eq!(c_string("").unwrap(), vec![0]);
    assert!(c_string("a\0b").is_none());
}

#[test]
fn open_path_selects_memory_or_file() {
    assert_eq!(open_path(None).unwrap(), None);
    assert_eq!(open_path(Some("db.db")).unwrap(), Some(b"db.db\0".to_vec()));
    assert_eq!(open_path(Some("bad\0name")).unwrap_err(), DbError::OpenError);
}

#[test]
fn invalid_column_is_unknown_in_any_row() {
    let raw = RawResult {
        column_count: 1,
        row_count: 1,
        columns: vec![DuckDBColumn { type_: DuckDBType::from_tag(0), name: "x".to_string() }],
        error_message: None,
    };
    let result = ResolvedResult::resolve(DuckDBState::DuckDBSuccess, raw).unwrap();
    for row in [-1, 0, 1, 5] {
        let cell = result.consume(0, row, None).unwrap();
        assert!(matches!(cell, DbType::Unknown(DuckDBType::DuckDBTypeInvalid)));
    }
    let date_raw = RawResult {
        column_count: 1,
        row_count: 1,
        columns: vec![DuckDBColumn { type_: DuckDBType::DuckDBTypeDate, name: "d".to_string() }],
        error_message: None,
    };
    let dates = ResolvedResult::resolve(DuckDBState::DuckDBSuccess, date_raw).unwrap();
    assert_eq!(dates.consume(0, 7, Some(RawValue::Date(None))).unwrap_err(), DbError::DecodeError);
}
