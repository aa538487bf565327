//! Typed marshalling of column-oriented query results handed across a
//! foreign-function boundary by an embedded analytical database engine.

pub mod db;
pub mod error;
pub mod state;
pub mod rendering;
pub mod result;
pub mod text;
pub mod types;
pub mod value;

pub use db::{c_string, open_path, Connection, DB};
pub use error::DbError;
pub use rendering::{error_page, form, result_page, Container, Hello, Table};
pub use result::{DuckDBColumn, RawResult, ResolvedResult};
pub use state::DuckDBState;
pub use types::{
    duckdb_blob, duckdb_date, duckdb_hugeint, duckdb_interval, duckdb_time, duckdb_timestamp,
};
pub use value::{decode, DbType, DuckDBType, RawValue};
