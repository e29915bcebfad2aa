//! The column types that each database knows natively.

use vstd::prelude::*;

verus! {

/// A native column type of MySQL.
#[derive(Debug, PartialEq, Eq, Structural, Clone, Copy)]
pub enum MySqlType {
    Int,
    SmallInt,
    TinyInt,
    MediumInt,
    BigInt,
    Decimal(u32, u32),
    Numeric(u32, u32),
    Float,
    Double,
    Bit(u32),
    Char(u32),
    VarChar(u32),
    Binary(u32),
    VarBinary(u32),
    TinyBlob,
    Blob,
    MediumBlob,
    LongBlob,
    TinyText,
    Text,
    MediumText,
    LongText,
    Date,
    Time(Option<u32>),
    DateTime(Option<u32>),
    Timestamp(Option<u32>),
    Year,
    JSON,
}

/// A native column type of PostgreSQL.
#[derive(Debug, PartialEq, Eq, Structural, Clone, Copy)]
pub enum PostgresType {
    SmallInt,
    Integer,
    BigInt,
    Decimal(u32, u32),
    Numeric(u32, u32),
    Real,
    DoublePrecision,
    SmallSerial,
    Serial,
    BigSerial,
    VarChar(u32),
    Char(u32),
    Text,
    ByteA,
    Timestamp(Option<u32>),
    TimestampWithTimeZone(Option<u32>),
    Date,
    Time(Option<u32>),
    TimeWithTimeZone(Option<u32>),
    Interval(Option<u32>),
    Boolean,
    Bit(u32),
    VarBit(u32),
    UUID,
    XML,
    JSON,
    JSONB,
}

/// A native column type, by the database it belongs to.
#[derive(Debug, PartialEq, Eq, Structural, Clone, Copy)]
pub enum NativeType {
    MySql(MySqlType),
    Postgres(PostgresType),
}

} // verus!
