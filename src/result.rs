//! The result descriptor: counts and column metadata of a query result,
//! and the decoding of its cells.
use vstd::prelude::*;
use crate::error::DbError;
use crate::state::DuckDBState;
use crate::text::{decode_lossy, lossy_utf8};
use crate::value::{decode, decoded, readable, DbType, DuckDBType, RawValue};

verus! {

/// Metadata of one column: its type tag and its name.
#[derive(Debug, Clone)]
pub struct DuckDBColumn {
    pub type_: DuckDBType,
    pub name: String,
}

/// The native result structure read out as plain values: the counts, the
/// column metadata, and the error message where one was set.
#[derive(Debug, Clone)]
pub struct RawResult {
    pub column_count: i64,
    pub row_count: i64,
    pub columns: Vec<DuckDBColumn>,
    /// Bytes of the error message, without its terminating zero; `None` for
    /// a null pointer.
    pub error_message: Option<Vec<u8>>,
}

/// What a failed query reports: the engine's message, or a fixed text
/// where the engine gave none.
pub open spec fn failure_message(m: Option<Vec<u8>>) -> Seq<char> {
    match m {
        Some(b) => if b@.len() > 0 {
            lossy_utf8(b@)
        } else {
            "query failed"@
        },
        None => "query failed"@,
    }
}

/// Counts that are not negative and a column list as long as the column
/// count.
pub open spec fn raw_well_formed(raw: RawResult) -> bool {
    &&& raw.column_count >= 0
    &&& raw.row_count >= 0
    &&& raw.columns@.len() == raw.column_count
}

/// What a native query call that left `status` and `raw` comes to. On an
/// error status, `QueryError` with the engine's message; on success, the
/// descriptor with the same counts and columns where `raw` is well formed,
/// else `DecodeError`.
pub open spec fn resolves_to(status: DuckDBState, raw: RawResult, r: Result<ResolvedResult, DbError>) -> bool {
    &&& status == DuckDBState::DuckDBError ==> r is Err && r->Err_0 is QueryError
        && r->Err_0->QueryError_0@ == failure_message(raw.error_message)
    &&& status == DuckDBState::DuckDBSuccess ==> (r is Ok <==> raw_well_formed(raw))
    &&& status == DuckDBState::DuckDBSuccess && !raw_well_formed(raw) ==> r
        == Err::<ResolvedResult, DbError>(DbError::DecodeError)
    &&& r is Ok ==> r->Ok_0.spec_column_count() == raw.column_count
        && r->Ok_0.spec_row_count() == raw.row_count
        && r->Ok_0.spec_columns() == raw.columns@
}

/// A successful query result: its counts and column metadata.
#[derive(Debug)]
pub struct ResolvedResult {
    column_count: i64,
    row_count: i64,
    columns: Vec<DuckDBColumn>,
}

impl ResolvedResult {
    #[verifier::type_invariant]
    spec fn inv(self) -> bool {
        &&& self.column_count >= 0
        &&& self.row_count >= 0
        &&& self.columns@.len() == self.column_count
    }

    pub closed spec fn spec_column_count(&self) -> int {
        self.column_count as int
    }

    pub closed spec fn spec_row_count(&self) -> int {
        self.row_count as int
    }

    pub closed spec fn spec_columns(&self) -> Seq<DuckDBColumn> {
        self.columns@
    }

    /// Reads what the native query call left behind. On an error status the
    /// engine's message is copied out into `QueryError`, never empty; on
    /// success a malformed result is a `DecodeError`, and a well-formed one
    /// becomes the descriptor.
    pub fn resolve(status: DuckDBState, raw: RawResult) -> (r: Result<ResolvedResult, DbError>)
        ensures
            resolves_to(status, raw, r),
            r is Err && r->Err_0 is QueryError ==> r->Err_0->QueryError_0@.len() > 0,
    {
        match status {
            DuckDBState::DuckDBError => {
                let message = match &raw.error_message {
                    Some(b) => if b.len() > 0 {
                        decode_lossy(b.as_slice())
                    } else {
                        "query failed".to_string()
                    },
                    None => "query failed".to_string(),
                };
                proof {
                    reveal_strlit("query failed");
                }
                Err(DbError::QueryError(message))
            },
            DuckDBState::DuckDBSuccess => {
                if raw.column_count < 0 || raw.row_count < 0 || raw.columns.len() as u128
                    != raw.column_count as u128 {
                    return Err(DbError::DecodeError);
                }
                Ok(ResolvedResult {
                    column_count: raw.column_count,
                    row_count: raw.row_count,
                    columns: raw.columns,
                })
            },
        }
    }

    pub fn column_count(&self) -> (r: i64)
        ensures
            r == self.spec_column_count(),
            r >= 0,
    {
        proof {
            use_type_invariant(self);
        }
        self.column_count
    }

    pub fn row_count(&self) -> (r: i64)
        ensures
            r == self.spec_row_count(),
            r >= 0,
    {
        proof {
            use_type_invariant(self);
        }
        self.row_count
    }

    pub fn columns(&self) -> (r: &[DuckDBColumn])
        ensures
            r@ == self.spec_columns(),
    {
        self.columns.as_slice()
    }

    /// Metadata of column `col`; `IndexError` outside the columns.
    pub fn column(&self, col: i64) -> (r: Result<&DuckDBColumn, DbError>)
        ensures
            0 <= col < self.spec_column_count() ==> r == Ok::<&DuckDBColumn, DbError>(
                &self.spec_columns()[col as int],
            ),
            !(0 <= col < self.spec_column_count()) ==> r == Err::<&DuckDBColumn, DbError>(
                DbError::IndexError,
            ),
    {
        proof {
            use_type_invariant(self);
        }
        if col < 0 || col >= self.column_count {
            return Err(DbError::IndexError);
        }
        let n: usize = self.columns.len();
        assert(col < n);
        Ok(&self.columns[col as usize])
    }

    /// Decodes the cell at `col`, `row` from `raw`, what the accessor of the
    /// column's type returned for it (`None` where none was called). A column
    /// outside the result is an `IndexError`; otherwise the result is that of
    /// [`decode`] on the column's type. The row is the accessor's to judge:
    /// for a row it does not hold it answers with a zero value or a null
    /// pointer, and a column of the invalid type is `Unknown` in any row.
    pub fn consume(&self, col: i64, row: i64, raw: Option<RawValue>) -> (r: Result<
        DbType,
        DbError,
    >)
        ensures
            !(0 <= col < self.spec_column_count()) ==> r == Err::<DbType, DbError>(
                DbError::IndexError,
            ),
            0 <= col < self.spec_column_count() ==> ({
                let t = self.spec_columns()[col as int].type_;
                &&& t == DuckDBType::DuckDBTypeInvalid ==> r == Ok::<DbType, DbError>(
                    DbType::Unknown(t),
                )
                &&& t != DuckDBType::DuckDBTypeInvalid ==> (r is Ok <==> (raw is Some && readable(
                    t,
                    raw->Some_0,
                )))
                &&& t != DuckDBType::DuckDBTypeInvalid && r is Ok ==> decoded(
                    t,
                    raw->Some_0,
                    r->Ok_0,
                )
                &&& r is Err ==> r == Err::<DbType, DbError>(DbError::DecodeError)
            }),
    {
        match self.column(col) {
            Ok(column) => decode(column.type_, raw),
            Err(e) => Err(e),
        }
    }
}

} // verus!
