use vstd::prelude::*;

verus! {

/// Every way a call across the native boundary can fail.
#[derive(Debug, Clone, PartialEq, Eq)]
pub enum DbError {
    /// The engine refused to open the database; it says nothing more.
    OpenError,
    /// The engine refused a connection.
    ConnectError,
    /// A query failed; the engine's own message, copied out.
    QueryError(String),
    /// A column index at or beyond the column count.
    IndexError,
    /// The engine handed back data that cannot be read as the column's type.
    DecodeError,
}

/// The text that each error shows: a failed query shows the engine's
/// message, the others a fixed sentence.
pub open spec fn error_text(e: DbError) -> Seq<char> {
    match e {
        DbError::OpenError => "failed to open the database"@,
        DbError::ConnectError => "failed to connect to the database"@,
        DbError::QueryError(m) => m@,
        DbError::IndexError => "column index out of range"@,
        DbError::DecodeError => "cannot decode the value"@,
    }
}

impl DbError {
    pub fn to_string(&self) -> (r: String)
        ensures
            r@ == error_text(*self),
    {
        match self {
            DbError::OpenError => "failed to open the database".to_string(),
            DbError::ConnectError => "failed to connect to the database".to_string(),
            DbError::QueryError(m) => m.clone(),
            DbError::IndexError => "column index out of range".to_string(),
            DbError::DecodeError => "cannot decode the value".to_string(),
        }
    }
}

} // verus!
