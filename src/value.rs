//! Column type tags and the decoding of one cell into an owned value.
use vstd::prelude::*;
use crate::error::DbError;
use crate::text::{decode_lossy, int_text, lossy_utf8, push_int};
use crate::types::{
    blob_text, date_text, duckdb_blob, duckdb_date, duckdb_hugeint, duckdb_interval, duckdb_time,
    duckdb_timestamp, hugeint_text, interval_text, time_text, timestamp_text,
};

verus! {

/// The type tag that the engine attaches to each column.
#[derive(Debug, Clone, Copy, PartialEq, Eq, Structural)]
pub enum DuckDBType {
    DuckDBTypeInvalid,
    DuckDBTypeBoolean,
    DuckDBTypeTinyint,
    DuckDBTypeSmallint,
    DuckDBTypeInteger,
    DuckDBTypeBigint,
    DuckDBTypeFloat,
    DuckDBTypeDouble,
    DuckDBTypeTimestamp,
    DuckDBTypeDate,
    DuckDBTypeTime,
    DuckDBTypeInterval,
    DuckDBTypeHugeint,
    DuckDBTypeVarchar,
    DuckDBTypeBlob,
}

/// The number by which the native interface writes each tag.
pub open spec fn tag_number(t: DuckDBType) -> int {
    match t {
        DuckDBType::DuckDBTypeInvalid => 0,
        DuckDBType::DuckDBTypeBoolean => 1,
        DuckDBType::DuckDBTypeTinyint => 2,
        DuckDBType::DuckDBTypeSmallint => 3,
        DuckDBType::DuckDBTypeInteger => 4,
        DuckDBType::DuckDBTypeBigint => 5,
        DuckDBType::DuckDBTypeFloat => 6,
        DuckDBType::DuckDBTypeDouble => 7,
        DuckDBType::DuckDBTypeTimestamp => 8,
        DuckDBType::DuckDBTypeDate => 9,
        DuckDBType::DuckDBTypeTime => 10,
        DuckDBType::DuckDBTypeInterval => 11,
        DuckDBType::DuckDBTypeHugeint => 12,
        DuckDBType::DuckDBTypeVarchar => 13,
        DuckDBType::DuckDBTypeBlob => 14,
    }
}

/// The tag that a native number stands for; numbers that name no tag read
/// as the invalid tag.
pub open spec fn type_of_tag(tag: int) -> DuckDBType {
    if tag == 1 {
        DuckDBType::DuckDBTypeBoolean
    } else if tag == 2 {
        DuckDBType::DuckDBTypeTinyint
    } else if tag == 3 {
        DuckDBType::DuckDBTypeSmallint
    } else if tag == 4 {
        DuckDBType::DuckDBTypeInteger
    } else if tag == 5 {
        DuckDBType::DuckDBTypeBigint
    } else if tag == 6 {
        DuckDBType::DuckDBTypeFloat
    } else if tag == 7 {
        DuckDBType::DuckDBTypeDouble
    } else if tag == 8 {
        DuckDBType::DuckDBTypeTimestamp
    } else if tag == 9 {
        DuckDBType::DuckDBTypeDate
    } else if tag == 10 {
        DuckDBType::DuckDBTypeTime
    } else if tag == 11 {
        DuckDBType::DuckDBTypeInterval
    } else if tag == 12 {
        DuckDBType::DuckDBTypeHugeint
    } else if tag == 13 {
        DuckDBType::DuckDBTypeVarchar
    } else if tag == 14 {
        DuckDBType::DuckDBTypeBlob
    } else {
        DuckDBType::DuckDBTypeInvalid
    }
}

/// The variant name of each tag.
pub open spec fn tag_name(t: DuckDBType) -> Seq<char> {
    match t {
        DuckDBType::DuckDBTypeInvalid => "DuckDBTypeInvalid"@,
        DuckDBType::DuckDBTypeBoolean => "DuckDBTypeBoolean"@,
        DuckDBType::DuckDBTypeTinyint => "DuckDBTypeTinyint"@,
        DuckDBType::DuckDBTypeSmallint => "DuckDBTypeSmallint"@,
        DuckDBType::DuckDBTypeInteger => "DuckDBTypeInteger"@,
        DuckDBType::DuckDBTypeBigint => "DuckDBTypeBigint"@,
        DuckDBType::DuckDBTypeFloat => "DuckDBTypeFloat"@,
        DuckDBType::DuckDBTypeDouble => "DuckDBTypeDouble"@,
        DuckDBType::DuckDBTypeTimestamp => "DuckDBTypeTimestamp"@,
        DuckDBType::DuckDBTypeDate => "DuckDBTypeDate"@,
        DuckDBType::DuckDBTypeTime => "DuckDBTypeTime"@,
        DuckDBType::DuckDBTypeInterval => "DuckDBTypeInterval"@,
        DuckDBType::DuckDBTypeHugeint => "DuckDBTypeHugeint"@,
        DuckDBType::DuckDBTypeVarchar => "DuckDBTypeVarchar"@,
        DuckDBType::DuckDBTypeBlob => "DuckDBTypeBlob"@,
    }
}

/// The name of the decoded variant that a column of type `t` yields.
pub open spec fn value_label(t: DuckDBType) -> Seq<char> {
    match t {
        DuckDBType::DuckDBTypeInvalid => "Unknown"@,
        DuckDBType::DuckDBTypeBoolean => "Boolean"@,
        DuckDBType::DuckDBTypeTinyint => "Tinyint"@,
        DuckDBType::DuckDBTypeSmallint => "Smallint"@,
        DuckDBType::DuckDBTypeInteger => "Integer"@,
        DuckDBType::DuckDBTypeBigint => "Bigint"@,
        DuckDBType::DuckDBTypeFloat => "Float"@,
        DuckDBType::DuckDBTypeDouble => "Double"@,
        DuckDBType::DuckDBTypeTimestamp => "Timestamp"@,
        DuckDBType::DuckDBTypeDate => "Date"@,
        DuckDBType::DuckDBTypeTime => "Time"@,
        DuckDBType::DuckDBTypeInterval => "Interval"@,
        DuckDBType::DuckDBTypeHugeint => "Hugeint"@,
        DuckDBType::DuckDBTypeVarchar => "String"@,
        DuckDBType::DuckDBTypeBlob => "Blob"@,
    }
}

impl DuckDBType {
    pub fn from_tag(tag: i32) -> (r: DuckDBType)
        ensures
            r == type_of_tag(tag as int),
    {
        match tag {
            1 => DuckDBType::DuckDBTypeBoolean,
            2 => DuckDBType::DuckDBTypeTinyint,
            3 => DuckDBType::DuckDBTypeSmallint,
            4 => DuckDBType::DuckDBTypeInteger,
            5 => DuckDBType::DuckDBTypeBigint,
            6 => DuckDBType::DuckDBTypeFloat,
            7 => DuckDBType::DuckDBTypeDouble,
            8 => DuckDBType::DuckDBTypeTimestamp,
            9 => DuckDBType::DuckDBTypeDate,
            10 => DuckDBType::DuckDBTypeTime,
            11 => DuckDBType::DuckDBTypeInterval,
            12 => DuckDBType::DuckDBTypeHugeint,
            13 => DuckDBType::DuckDBTypeVarchar,
            14 => DuckDBType::DuckDBTypeBlob,
            _ => DuckDBType::DuckDBTypeInvalid,
        }
    }

    pub fn tag(&self) -> (r: i32)
        ensures
            r as int == tag_number(*self),
            type_of_tag(r as int) == *self,
    {
        match self {
            DuckDBType::DuckDBTypeInvalid => 0,
            DuckDBType::DuckDBTypeBoolean => 1,
            DuckDBType::DuckDBTypeTinyint => 2,
            DuckDBType::DuckDBTypeSmallint => 3,
            DuckDBType::DuckDBTypeInteger => 4,
            DuckDBType::DuckDBTypeBigint => 5,
            DuckDBType::DuckDBTypeFloat => 6,
            DuckDBType::DuckDBTypeDouble => 7,
            DuckDBType::DuckDBTypeTimestamp => 8,
            DuckDBType::DuckDBTypeDate => 9,
            DuckDBType::DuckDBTypeTime => 10,
            DuckDBType::DuckDBTypeInterval => 11,
            DuckDBType::DuckDBTypeHugeint => 12,
            DuckDBType::DuckDBTypeVarchar => 13,
            DuckDBType::DuckDBTypeBlob => 14,
        }
    }

    pub fn name(&self) -> (r: &'static str)
        ensures
            r@ == tag_name(*self),
    {
        match self {
            DuckDBType::DuckDBTypeInvalid => "DuckDBTypeInvalid",
            DuckDBType::DuckDBTypeBoolean => "DuckDBTypeBoolean",
            DuckDBType::DuckDBTypeTinyint => "DuckDBTypeTinyint",
            DuckDBType::DuckDBTypeSmallint => "DuckDBTypeSmallint",
            DuckDBType::DuckDBTypeInteger => "DuckDBTypeInteger",
            DuckDBType::DuckDBTypeBigint => "DuckDBTypeBigint",
            DuckDBType::DuckDBTypeFloat => "DuckDBTypeFloat",
            DuckDBType::DuckDBTypeDouble => "DuckDBTypeDouble",
            DuckDBType::DuckDBTypeTimestamp => "DuckDBTypeTimestamp",
            DuckDBType::DuckDBTypeDate => "DuckDBTypeDate",
            DuckDBType::DuckDBTypeTime => "DuckDBTypeTime",
            DuckDBType::DuckDBTypeInterval => "DuckDBTypeInterval",
            DuckDBType::DuckDBTypeHugeint => "DuckDBTypeHugeint",
            DuckDBType::DuckDBTypeVarchar => "DuckDBTypeVarchar",
            DuckDBType::DuckDBTypeBlob => "DuckDBTypeBlob",
        }
    }

    /// The name of the decoded variant that a column of this type yields.
    pub fn value_label(&self) -> (r: &'static str)
        ensures
            r@ == value_label(*self),
    {
        match self {
            DuckDBType::DuckDBTypeInvalid => "Unknown",
            DuckDBType::DuckDBTypeBoolean => "Boolean",
            DuckDBType::DuckDBTypeTinyint => "Tinyint",
            DuckDBType::DuckDBTypeSmallint => "Smallint",
            DuckDBType::DuckDBTypeInteger => "Integer",
            DuckDBType::DuckDBTypeBigint => "Bigint",
            DuckDBType::DuckDBTypeFloat => "Float",
            DuckDBType::DuckDBTypeDouble => "Double",
            DuckDBType::DuckDBTypeTimestamp => "Timestamp",
            DuckDBType::DuckDBTypeDate => "Date",
            DuckDBType::DuckDBTypeTime => "Time",
            DuckDBType::DuckDBTypeInterval => "Interval",
            DuckDBType::DuckDBTypeHugeint => "Hugeint",
            DuckDBType::DuckDBTypeVarchar => "String",
            DuckDBType::DuckDBTypeBlob => "Blob",
        }
    }
}

/// One decoded cell. It owns whatever it holds; floating-point values are
/// kept as their IEEE-754 bit patterns.
#[derive(Debug)]
pub enum DbType {
    Boolean(bool),
    Tinyint(i8),
    Smallint(i16),
    Integer(i32),
    Bigint(i64),
    /// Bit pattern of a single-precision value.
    Float(u32),
    Date(duckdb_date),
    Time(duckdb_time),
    Timestamp(duckdb_timestamp),
    /// Bit pattern of a double-precision value.
    Double(u64),
    String(String),
    Interval(duckdb_interval),
    Hugeint(duckdb_hugeint),
    Blob(duckdb_blob),
    Unknown(DuckDBType),
}

/// What the native accessor for a column's type handed back, as plain
/// values. A composite or text accessor answers with a pointer; `None`
/// stands for a null pointer.
#[derive(Debug, Clone)]
pub enum RawValue {
    Boolean(bool),
    Int8(i8),
    Int16(i16),
    Int32(i32),
    Int64(i64),
    /// Bit pattern of a single-precision value.
    Float(u32),
    /// Bit pattern of a double-precision value.
    Double(u64),
    Date(Option<duckdb_date>),
    Time(Option<duckdb_time>),
    Timestamp(Option<duckdb_timestamp>),
    Interval(Option<duckdb_interval>),
    Hugeint(Option<duckdb_hugeint>),
    /// Bytes of the C string, without its terminating zero.
    Varchar(Option<Vec<u8>>),
    /// Bytes of the blob's buffer.
    Blob(Option<Vec<u8>>),
}

/// Whether `v` is the value that `raw`, read for a column of type `t`,
/// stands for. Nothing is, where `raw` is not what that type's accessor
/// returns or holds a null pointer.
pub open spec fn decoded(t: DuckDBType, raw: RawValue, v: DbType) -> bool {
    match (t, raw) {
        (DuckDBType::DuckDBTypeBoolean, RawValue::Boolean(b)) => v == DbType::Boolean(b),
        (DuckDBType::DuckDBTypeTinyint, RawValue::Int8(i)) => v == DbType::Tinyint(i),
        (DuckDBType::DuckDBTypeSmallint, RawValue::Int16(i)) => v == DbType::Smallint(i),
        (DuckDBType::DuckDBTypeInteger, RawValue::Int32(i)) => v == DbType::Integer(i),
        (DuckDBType::DuckDBTypeBigint, RawValue::Int64(i)) => v == DbType::Bigint(i),
        (DuckDBType::DuckDBTypeFloat, RawValue::Float(f)) => v == DbType::Float(f),
        (DuckDBType::DuckDBTypeDouble, RawValue::Double(f)) => v == DbType::Double(f),
        (DuckDBType::DuckDBTypeTimestamp, RawValue::Timestamp(Some(x))) => v == DbType::Timestamp(x),
        (DuckDBType::DuckDBTypeDate, RawValue::Date(Some(x))) => v == DbType::Date(x),
        (DuckDBType::DuckDBTypeTime, RawValue::Time(Some(x))) => v == DbType::Time(x),
        (DuckDBType::DuckDBTypeInterval, RawValue::Interval(Some(x))) => v == DbType::Interval(x),
        (DuckDBType::DuckDBTypeHugeint, RawValue::Hugeint(Some(x))) => v == DbType::Hugeint(x),
        (DuckDBType::DuckDBTypeVarchar, RawValue::Varchar(Some(b))) => match v {
            DbType::String(s) => s@ == lossy_utf8(b@),
            _ => false,
        },
        (DuckDBType::DuckDBTypeBlob, RawValue::Blob(Some(b))) => match v {
            DbType::Blob(x) => x.bytes() == b@,
            _ => false,
        },
        _ => false,
    }
}

/// Whether `raw` is what the accessor of a column of type `t` returns,
/// with a pointer that is not null.
pub open spec fn readable(t: DuckDBType, raw: RawValue) -> bool {
    match (t, raw) {
        (DuckDBType::DuckDBTypeBoolean, RawValue::Boolean(_)) => true,
        (DuckDBType::DuckDBTypeTinyint, RawValue::Int8(_)) => true,
        (DuckDBType::DuckDBTypeSmallint, RawValue::Int16(_)) => true,
        (DuckDBType::DuckDBTypeInteger, RawValue::Int32(_)) => true,
        (DuckDBType::DuckDBTypeBigint, RawValue::Int64(_)) => true,
        (DuckDBType::DuckDBTypeFloat, RawValue::Float(_)) => true,
        (DuckDBType::DuckDBTypeDouble, RawValue::Double(_)) => true,
        (DuckDBType::DuckDBTypeTimestamp, RawValue::Timestamp(x)) => x is Some,
        (DuckDBType::DuckDBTypeDate, RawValue::Date(x)) => x is Some,
        (DuckDBType::DuckDBTypeTime, RawValue::Time(x)) => x is Some,
        (DuckDBType::DuckDBTypeInterval, RawValue::Interval(x)) => x is Some,
        (DuckDBType::DuckDBTypeHugeint, RawValue::Hugeint(x)) => x is Some,
        (DuckDBType::DuckDBTypeVarchar, RawValue::Varchar(x)) => x is Some,
        (DuckDBType::DuckDBTypeBlob, RawValue::Blob(x)) => x is Some,
        _ => false,
    }
}

/// The variant name of a decoded value.
pub open spec fn kind_label(v: DbType) -> Seq<char> {
    match v {
        DbType::Boolean(_) => "Boolean"@,
        DbType::Tinyint(_) => "Tinyint"@,
        DbType::Smallint(_) => "Smallint"@,
        DbType::Integer(_) => "Integer"@,
        DbType::Bigint(_) => "Bigint"@,
        DbType::Float(_) => "Float"@,
        DbType::Date(_) => "Date"@,
        DbType::Time(_) => "Time"@,
        DbType::Timestamp(_) => "Timestamp"@,
        DbType::Double(_) => "Double"@,
        DbType::String(_) => "String"@,
        DbType::Interval(_) => "Interval"@,
        DbType::Hugeint(_) => "Hugeint"@,
        DbType::Blob(_) => "Blob"@,
        DbType::Unknown(_) => "Unknown"@,
    }
}

/// The canonical text of a decoded value; floating-point values have none
/// here, their text is the host's to write.
pub open spec fn value_text(v: DbType) -> Option<Seq<char>> {
    match v {
        DbType::Boolean(b) => Some(if b { "true"@ } else { "false"@ }),
        DbType::Tinyint(i) => Some(int_text(i as int)),
        DbType::Smallint(i) => Some(int_text(i as int)),
        DbType::Integer(i) => Some(int_text(i as int)),
        DbType::Bigint(i) => Some(int_text(i as int)),
        DbType::Float(_) => None,
        DbType::Double(_) => None,
        DbType::Date(x) => Some(date_text(x)),
        DbType::Time(x) => Some(time_text(x)),
        DbType::Timestamp(x) => Some(timestamp_text(x)),
        DbType::String(x) => Some(x@),
        DbType::Interval(x) => Some(interval_text(x)),
        DbType::Hugeint(x) => Some(hugeint_text(x)),
        DbType::Blob(x) => Some(blob_text(x.bytes().len())),
        DbType::Unknown(_) => Some("unknown"@),
    }
}

impl DbType {
    pub fn kind_name(&self) -> (r: &'static str)
        ensures
            r@ == kind_label(*self),
    {
        match self {
            DbType::Boolean(_) => "Boolean",
            DbType::Tinyint(_) => "Tinyint",
            DbType::Smallint(_) => "Smallint",
            DbType::Integer(_) => "Integer",
            DbType::Bigint(_) => "Bigint",
            DbType::Float(_) => "Float",
            DbType::Date(_) => "Date",
            DbType::Time(_) => "Time",
            DbType::Timestamp(_) => "Timestamp",
            DbType::Double(_) => "Double",
            DbType::String(_) => "String",
            DbType::Interval(_) => "Interval",
            DbType::Hugeint(_) => "Hugeint",
            DbType::Blob(_) => "Blob",
            DbType::Unknown(_) => "Unknown",
        }
    }

    /// The canonical text of the value, `None` for a floating-point value.
    pub fn text(&self) -> (r: Option<String>)
        ensures
            r is Some <==> value_text(*self) is Some,
            r is Some ==> r->Some_0@ == value_text(*self)->Some_0,
    {
        match self {
            DbType::Boolean(b) => Some(if *b {
                "true".to_string()
            } else {
                "false".to_string()
            }),
            DbType::Tinyint(i) => Some(int_string(*i as i128)),
            DbType::Smallint(i) => Some(int_string(*i as i128)),
            DbType::Integer(i) => Some(int_string(*i as i128)),
            DbType::Bigint(i) => Some(int_string(*i as i128)),
            DbType::Float(_) => None,
            DbType::Double(_) => None,
            DbType::Date(x) => Some(x.to_string()),
            DbType::Time(x) => Some(x.to_string()),
            DbType::Timestamp(x) => Some(x.to_string()),
            DbType::String(x) => Some(x.clone()),
            DbType::Interval(x) => Some(x.to_string()),
            DbType::Hugeint(x) => Some(x.to_string()),
            DbType::Blob(x) => Some(x.to_string()),
            DbType::Unknown(_) => Some("unknown".to_string()),
        }
    }
}

fn int_string(i: i128) -> (r: String)
    ensures
        r@ == int_text(i as int),
{
    let mut s = String::new();
    push_int(&mut s, i);
    s
}

/// Decodes one cell of a column of type `t`. `raw` is what that type's
/// accessor returned, or `None` where no accessor was called. A column of
/// the invalid type decodes to `Unknown` whatever `raw` is; any other
/// decodes exactly when `raw` is readable for it, else fails with
/// `DecodeError`.
pub fn decode(t: DuckDBType, raw: Option<RawValue>) -> (r: Result<DbType, DbError>)
    ensures
        t == DuckDBType::DuckDBTypeInvalid ==> r == Ok::<DbType, DbError>(DbType::Unknown(t)),
        t != DuckDBType::DuckDBTypeInvalid ==> (r is Ok <==> (raw is Some && readable(
            t,
            raw->Some_0,
        ))),
        t != DuckDBType::DuckDBTypeInvalid && r is Ok ==> decoded(t, raw->Some_0, r->Ok_0),
        r is Err ==> r == Err::<DbType, DbError>(DbError::DecodeError),
        r is Ok ==> kind_label(r->Ok_0) == value_label(t),
{
    if let DuckDBType::DuckDBTypeInvalid = t {
        return Ok(DbType::Unknown(t));
    }
    let raw = match raw {
        Some(raw) => raw,
        None => return Err(DbError::DecodeError),
    };
    match (t, raw) {
        (DuckDBType::DuckDBTypeBoolean, RawValue::Boolean(b)) => Ok(DbType::Boolean(b)),
        (DuckDBType::DuckDBTypeTinyint, RawValue::Int8(i)) => Ok(DbType::Tinyint(i)),
        (DuckDBType::DuckDBTypeSmallint, RawValue::Int16(i)) => Ok(DbType::Smallint(i)),
        (DuckDBType::DuckDBTypeInteger, RawValue::Int32(i)) => Ok(DbType::Integer(i)),
        (DuckDBType::DuckDBTypeBigint, RawValue::Int64(i)) => Ok(DbType::Bigint(i)),
        (DuckDBType::DuckDBTypeFloat, RawValue::Float(f)) => Ok(DbType::Float(f)),
        (DuckDBType::DuckDBTypeDouble, RawValue::Double(f)) => Ok(DbType::Double(f)),
        (DuckDBType::DuckDBTypeTimestamp, RawValue::Timestamp(Some(x))) => Ok(DbType::Timestamp(x)),
        (DuckDBType::DuckDBTypeDate, RawValue::Date(Some(x))) => Ok(DbType::Date(x)),
        (DuckDBType::DuckDBTypeTime, RawValue::Time(Some(x))) => Ok(DbType::Time(x)),
        (DuckDBType::DuckDBTypeInterval, RawValue::Interval(Some(x))) => Ok(DbType::Interval(x)),
        (DuckDBType::DuckDBTypeHugeint, RawValue::Hugeint(Some(x))) => Ok(DbType::Hugeint(x)),
        (DuckDBType::DuckDBTypeVarchar, RawValue::Varchar(Some(b))) => {
            Ok(DbType::String(decode_lossy(b.as_slice())))
        },
        (DuckDBType::DuckDBTypeBlob, RawValue::Blob(Some(b))) => Ok(DbType::Blob(duckdb_blob::new(b))),
        _ => Err(DbError::DecodeError),
    }
}

} // verus!
