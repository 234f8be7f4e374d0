//! The row-decoding layer: declared column type names, the semantic
//! categories they map to, and the policy that turns what a driver read
//! from each cell into a dynamic value.

use vstd::prelude::*;
use crate::text::{
    date_text, format_date, format_time, format_timestamp, format_uuid, same_text, time_text,
    timestamp_text, uuid_text,
};

verus! {

/// The semantic category of a column, resolved from its declared type name.
#[derive(Debug, Clone, Copy, PartialEq, Eq, Structural)]
pub enum DbType {
    Int8,
    UInt8,
    Int16,
    UInt16,
    Int32,
    UInt32,
    Int64,
    UInt64,
    Float32,
    Float64,
    Text,
    Bool,
    Timestamp,
    Date,
    Time,
    Uuid,
    Bytes,
    Json,
    Null,
    UnsupportedDecimal,
    UnsupportedTimeWithTz,
    Unknown,
}

/// The category of a declared type name: an exact, case-sensitive match
/// against the known names; any other name is `Unknown`.
pub open spec fn type_of_name(n: Seq<char>) -> DbType {
    if n == "INT4"@ || n == "INT"@ || n == "INTEGER"@ || n == "MEDIUMINT"@ {
        DbType::Int32
    } else if n == "INT8"@ || n == "BIGINT"@ {
        DbType::Int64
    } else if n == "INT2"@ || n == "SMALLINT"@ {
        DbType::Int16
    } else if n == "TINYINT"@ {
        DbType::Int8
    } else if n == "FLOAT8"@ || n == "DOUBLE"@ {
        DbType::Float64
    } else if n == "FLOAT4"@ || n == "FLOAT"@ || n == "REAL"@ {
        DbType::Float32
    } else if n == "TEXT"@ || n == "VARCHAR"@ || n == "CHAR"@ || n == "BPCHAR"@ || n == "NAME"@
        || n == "TINYTEXT"@ || n == "MEDIUMTEXT"@ || n == "LONGTEXT"@ || n == "NVARCHAR"@
        || n == "NCHAR"@ {
        DbType::Text
    } else if n == "BOOL"@ || n == "BOOLEAN"@ {
        DbType::Bool
    } else if n == "TIMESTAMP"@ || n == "TIMESTAMPTZ"@ || n == "DATETIME"@ {
        DbType::Timestamp
    } else if n == "DATE"@ {
        DbType::Date
    } else if n == "TIME"@ {
        DbType::Time
    } else if n == "UUID"@ {
        DbType::Uuid
    } else if n == "BYTEA"@ || n == "BLOB"@ || n == "VARBINARY"@ || n == "BINARY"@
        || n == "TINYBLOB"@ || n == "MEDIUMBLOB"@ || n == "LONGBLOB"@ {
        DbType::Bytes
    } else if n == "JSON"@ || n == "JSONB"@ {
        DbType::Json
    } else if n == "NULL"@ {
        DbType::Null
    } else if n == "DECIMAL"@ || n == "NUMERIC"@ || n == "MONEY"@ {
        DbType::UnsupportedDecimal
    } else if n == "TIMETZ"@ {
        DbType::UnsupportedTimeWithTz
    } else if n == "TINYINT UNSIGNED"@ {
        DbType::UInt8
    } else if n == "SMALLINT UNSIGNED"@ {
        DbType::UInt16
    } else if n == "INT UNSIGNED"@ || n == "MEDIUMINT UNSIGNED"@ {
        DbType::UInt32
    } else if n == "BIGINT UNSIGNED"@ {
        DbType::UInt64
    } else {
        DbType::Unknown
    }
}

impl DbType {
    /// The category of a declared type name.
    pub fn from_name(name: &str) -> (r: DbType)
        ensures
            r == type_of_name(name@),
    {
        if same_text(name, "INT4") || same_text(name, "INT") || same_text(name, "INTEGER")
            || same_text(name, "MEDIUMINT") {
            DbType::Int32
        } else if same_text(name, "INT8") || same_text(name, "BIGINT") {
            DbType::Int64
        } else if same_text(name, "INT2") || same_text(name, "SMALLINT") {
            DbType::Int16
        } else if same_text(name, "TINYINT") {
            DbType::Int8
        } else if same_text(name, "FLOAT8") || same_text(name, "DOUBLE") {
            DbType::Float64
        } else if same_text(name, "FLOAT4") || same_text(name, "FLOAT") || same_text(name, "REAL") {
            DbType::Float32
        } else if same_text(name, "TEXT") || same_text(name, "VARCHAR") || same_text(name, "CHAR")
            || same_text(name, "BPCHAR") || same_text(name, "NAME") || same_text(name, "TINYTEXT")
            || same_text(name, "MEDIUMTEXT") || same_text(name, "LONGTEXT")
            || same_text(name, "NVARCHAR") || same_text(name, "NCHAR") {
            DbType::Text
        } else if same_text(name, "BOOL") || same_text(name, "BOOLEAN") {
            DbType::Bool
        } else if same_text(name, "TIMESTAMP") || same_text(name, "TIMESTAMPTZ")
            || same_text(name, "DATETIME") {
            DbType::Timestamp
        } else if same_text(name, "DATE") {
            DbType::Date
        } else if same_text(name, "TIME") {
            DbType::Time
        } else if same_text(name, "UUID") {
            DbType::Uuid
        } else if same_text(name, "BYTEA") || same_text(name, "BLOB") || same_text(name, "VARBINARY")
            || same_text(name, "BINARY") || same_text(name, "TINYBLOB")
            || same_text(name, "MEDIUMBLOB") || same_text(name, "LONGBLOB") {
            DbType::Bytes
        } else if same_text(name, "JSON") || same_text(name, "JSONB") {
            DbType::Json
        } else if same_text(name, "NULL") {
            DbType::Null
        } else if same_text(name, "DECIMAL") || same_text(name, "NUMERIC") || same_text(name, "MONEY") {
            DbType::UnsupportedDecimal
        } else if same_text(name, "TIMETZ") {
            DbType::UnsupportedTimeWithTz
        } else if same_text(name, "TINYINT UNSIGNED") {
            DbType::UInt8
        } else if same_text(name, "SMALLINT UNSIGNED") {
            DbType::UInt16
        } else if same_text(name, "INT UNSIGNED") || same_text(name, "MEDIUMINT UNSIGNED") {
            DbType::UInt32
        } else if same_text(name, "BIGINT UNSIGNED") {
            DbType::UInt64
        } else {
            DbType::Unknown
        }
    }
}

/// A decoded cell: the backend-independent value of one column of one row.
#[derive(Debug)]
pub enum DynamicValue {
    Null,
    Bool(bool),
    Int(i64),
    /// A 64-bit float, held as its IEEE-754 binary64 bit pattern.
    Float(u64),
    Text(String),
    Bytes(Vec<u8>),
}

/// The mathematical value of a `DynamicValue`.
pub enum DynamicModel {
    Null,
    Bool(bool),
    Int(i64),
    Float(u64),
    Text(Seq<char>),
    Bytes(Seq<u8>),
}

impl View for DynamicValue {
    type V = DynamicModel;

    open spec fn view(&self) -> DynamicModel {
        match self {
            DynamicValue::Null => DynamicModel::Null,
            DynamicValue::Bool(b) => DynamicModel::Bool(*b),
            DynamicValue::Int(v) => DynamicModel::Int(*v),
            DynamicValue::Float(bits) => DynamicModel::Float(*bits),
            DynamicValue::Text(s) => DynamicModel::Text(s@),
            DynamicValue::Bytes(b) => DynamicModel::Bytes(b@),
        }
    }
}

/// A calendar date as a driver reports it.
#[derive(Debug, Clone, Copy)]
pub struct DateParts {
    pub year: i32,
    pub month: u32,
    pub day: u32,
}

/// A time of day as a driver reports it, to the second.
#[derive(Debug, Clone, Copy)]
pub struct TimeParts {
    pub hour: u32,
    pub minute: u32,
    pub second: u32,
}

/// A date that the fixed `YYYY-MM-DD` pattern can show.
pub open spec fn date_in_range(d: DateParts) -> bool {
    0 <= d.year <= 9999 && 1 <= d.month <= 12 && 1 <= d.day <= 31
}

/// A time that the fixed `HH:MM:SS` pattern can show.
pub open spec fn time_in_range(t: TimeParts) -> bool {
    t.hour < 24 && t.minute < 60 && t.second < 60
}

/// What a driver produced for one cell, asked to read it as its column's
/// category.
#[derive(Debug)]
pub enum CellRead {
    /// The cell holds a storage-level NULL.
    Null,
    /// The column could not be accessed; the driver's message.
    Unreadable(String),
    /// The value is present but could not be decoded as the category asks.
    Failed,
    Int(i64),
    /// A float, as its IEEE-754 binary64 bit pattern.
    Float(u64),
    Bool(bool),
    Text(String),
    Bytes(Vec<u8>),
    Timestamp(DateParts, TimeParts),
    Date(DateParts),
    Time(TimeParts),
    Uuid([u8; 16]),
}

/// The categories that abort decoding.
#[derive(Debug, Clone, Copy, PartialEq, Eq, Structural)]
pub enum UnsupportedKind {
    Decimal,
    TimeWithTz,
}

/// Why a result set could not be decoded.
#[derive(Debug)]
pub enum DecodeError {
    /// A non-null cell of a category that is not supported.
    Unsupported { column: String, kind: UnsupportedKind },
    /// A column could not be accessed.
    ColumnAccess { column: String, message: String },
}

/// The mathematical value of a `DecodeError`.
pub enum DecodeErrorModel {
    Unsupported { column: Seq<char>, kind: UnsupportedKind },
    ColumnAccess { column: Seq<char>, message: Seq<char> },
}

impl View for DecodeError {
    type V = DecodeErrorModel;

    open spec fn view(&self) -> DecodeErrorModel {
        match self {
            DecodeError::Unsupported { column, kind } => DecodeErrorModel::Unsupported {
                column: column@,
                kind: *kind,
            },
            DecodeError::ColumnAccess { column, message } => DecodeErrorModel::ColumnAccess {
                column: column@,
                message: message@,
            },
        }
    }
}

/// The error that a cell raises, if any: an unreadable column always, a
/// non-null cell of an unsupported category; never a storage NULL.
pub open spec fn cell_error(ty: DbType, cell: CellRead, column: Seq<char>) -> Option<DecodeErrorModel> {
    match cell {
        CellRead::Unreadable(m) => Some(DecodeErrorModel::ColumnAccess { column, message: m@ }),
        CellRead::Null => None,
        _ => match ty {
            DbType::UnsupportedDecimal => Some(
                DecodeErrorModel::Unsupported { column, kind: UnsupportedKind::Decimal },
            ),
            DbType::UnsupportedTimeWithTz => Some(
                DecodeErrorModel::Unsupported { column, kind: UnsupportedKind::TimeWithTz },
            ),
            _ => None,
        },
    }
}

/// The value of a cell that raises no error. A storage NULL is `Null`.
/// Numbers, booleans, text and bytes that could not be decoded take a
/// zero, false or empty default; dates, times and identifiers become
/// `Null`; a JSON column that could not be read as text becomes `{}`; an
/// unknown category keeps its raw bytes, or `Null`.
pub open spec fn cell_value(ty: DbType, cell: CellRead) -> DynamicModel {
    match cell {
        CellRead::Null => DynamicModel::Null,
        _ => match ty {
            DbType::Int8 | DbType::Int16 | DbType::Int32 | DbType::Int64 | DbType::UInt64 => {
                DynamicModel::Int(
                    match cell {
                        CellRead::Int(v) => v,
                        _ => 0,
                    },
                )
            },
            DbType::UInt8 => DynamicModel::Int(
                match cell {
                    CellRead::Int(v) => (v as u8) as i64,
                    _ => 0,
                },
            ),
            DbType::UInt16 => DynamicModel::Int(
                match cell {
                    CellRead::Int(v) => (v as u16) as i64,
                    _ => 0,
                },
            ),
            DbType::UInt32 => DynamicModel::Int(
                match cell {
                    CellRead::Int(v) => (v as u32) as i64,
                    _ => 0,
                },
            ),
            DbType::Float32 | DbType::Float64 => DynamicModel::Float(
                match cell {
                    CellRead::Float(bits) => bits,
                    _ => 0,
                },
            ),
            DbType::Text => DynamicModel::Text(
                match cell {
                    CellRead::Text(s) => s@,
                    _ => Seq::empty(),
                },
            ),
            DbType::Bool => DynamicModel::Bool(
                match cell {
                    CellRead::Bool(b) => b,
                    _ => false,
                },
            ),
            DbType::Timestamp => match cell {
                CellRead::Timestamp(d, t) => if date_in_range(d) && time_in_range(t) {
                    DynamicModel::Text(
                        timestamp_text(
                            d.year as int,
                            d.month as int,
                            d.day as int,
                            t.hour as int,
                            t.minute as int,
                            t.second as int,
                        ),
                    )
                } else {
                    DynamicModel::Null
                },
                _ => DynamicModel::Null,
            },
            DbType::Date => match cell {
                CellRead::Date(d) => if date_in_range(d) {
                    DynamicModel::Text(date_text(d.year as int, d.month as int, d.day as int))
                } else {
                    DynamicModel::Null
                },
                _ => DynamicModel::Null,
            },
            DbType::Time => match cell {
                CellRead::Time(t) => if time_in_range(t) {
                    DynamicModel::Text(time_text(t.hour as int, t.minute as int, t.second as int))
                } else {
                    DynamicModel::Null
                },
                _ => DynamicModel::Null,
            },
            DbType::Uuid => match cell {
                CellRead::Uuid(b) => DynamicModel::Text(uuid_text(b@)),
                _ => DynamicModel::Null,
            },
            DbType::Bytes => DynamicModel::Bytes(
                match cell {
                    CellRead::Bytes(b) => b@,
                    _ => Seq::empty(),
                },
            ),
            DbType::Json => DynamicModel::Text(
                match cell {
                    CellRead::Text(s) => s@,
                    _ => "{}"@,
                },
            ),
            DbType::Unknown => match cell {
                CellRead::Bytes(b) => DynamicModel::Bytes(b@),
                _ => DynamicModel::Null,
            },
            _ => DynamicModel::Null,
        },
    }
}

fn copy_bytes(b: &Vec<u8>) -> (r: Vec<u8>)
    ensures
        r@ == b@,
{
    let r = b.clone();
    proof {
        assert(r@ =~= b@);
    }
    r
}

fn int_value(cell: &CellRead) -> (r: i64)
    ensures
        r == (match *cell {
            CellRead::Int(v) => v,
            _ => 0,
        }),
{
    match cell {
        CellRead::Int(v) => *v,
        _ => 0,
    }
}

/// Decodes one cell of a column of category `ty` named `column`.
pub fn decode_cell(ty: DbType, cell: &CellRead, column: &String) -> (r: Result<DynamicValue, DecodeError>)
    ensures
        match cell_error(ty, *cell, column@) {
            Some(e) => r matches Err(err) && err@ == e,
            None => r matches Ok(v) && v@ == cell_value(ty, *cell),
        },
{
    match cell {
        CellRead::Unreadable(m) => {
            return Err(DecodeError::ColumnAccess { column: column.clone(), message: m.clone() });
        },
        CellRead::Null => {
            return Ok(DynamicValue::Null);
        },
        _ => {},
    }
    match ty {
        DbType::Int8 | DbType::Int16 | DbType::Int32 | DbType::Int64 | DbType::UInt64 => {
            Ok(DynamicValue::Int(int_value(cell)))
        },
        DbType::UInt8 => Ok(DynamicValue::Int((int_value(cell) as u8) as i64)),
        DbType::UInt16 => Ok(DynamicValue::Int((int_value(cell) as u16) as i64)),
        DbType::UInt32 => Ok(DynamicValue::Int((int_value(cell) as u32) as i64)),
        DbType::Float32 | DbType::Float64 => match cell {
            CellRead::Float(bits) => Ok(DynamicValue::Float(*bits)),
            _ => Ok(DynamicValue::Float(0)),
        },
        DbType::Text => match cell {
            CellRead::Text(s) => Ok(DynamicValue::Text(s.clone())),
            _ => Ok(DynamicValue::Text(String::new())),
        },
        DbType::Bool => match cell {
            CellRead::Bool(b) => Ok(DynamicValue::Bool(*b)),
            _ => Ok(DynamicValue::Bool(false)),
        },
        DbType::Timestamp => match cell {
            CellRead::Timestamp(d, t) => {
                if 0 <= d.year && d.year <= 9999 && 1 <= d.month && d.month <= 12 && 1 <= d.day
                    && d.day <= 31 && t.hour < 24 && t.minute < 60 && t.second < 60 {
                    Ok(
                        DynamicValue::Text(
                            format_timestamp(
                                d.year as u32,
                                d.month,
                                d.day,
                                t.hour,
                                t.minute,
                                t.second,
                            ),
                        ),
                    )
                } else {
                    Ok(DynamicValue::Null)
                }
            },
            _ => Ok(DynamicValue::Null),
        },
        DbType::Date => match cell {
            CellRead::Date(d) => {
                if 0 <= d.year && d.year <= 9999 && 1 <= d.month && d.month <= 12 && 1 <= d.day
                    && d.day <= 31 {
                    Ok(DynamicValue::Text(format_date(d.year as u32, d.month, d.day)))
                } else {
                    Ok(DynamicValue::Null)
                }
            },
            _ => Ok(DynamicValue::Null),
        },
        DbType::Time => match cell {
            CellRead::Time(t) => {
                if t.hour < 24 && t.minute < 60 && t.second < 60 {
                    Ok(DynamicValue::Text(format_time(t.hour, t.minute, t.second)))
                } else {
                    Ok(DynamicValue::Null)
                }
            },
            _ => Ok(DynamicValue::Null),
        },
        DbType::Uuid => match cell {
            CellRead::Uuid(b) => Ok(DynamicValue::Text(format_uuid(b))),
            _ => Ok(DynamicValue::Null),
        },
        DbType::Bytes => match cell {
            CellRead::Bytes(b) => Ok(DynamicValue::Bytes(copy_bytes(b))),
            _ => Ok(DynamicValue::Bytes(Vec::new())),
        },
        DbType::Json => match cell {
            CellRead::Text(s) => Ok(DynamicValue::Text(s.clone())),
            _ => Ok(DynamicValue::Text(String::from_str("{}"))),
        },
        DbType::Null => Ok(DynamicValue::Null),
        DbType::UnsupportedDecimal => Err(
            DecodeError::Unsupported { column: column.clone(), kind: UnsupportedKind::Decimal },
        ),
        DbType::UnsupportedTimeWithTz => Err(
            DecodeError::Unsupported { column: column.clone(), kind: UnsupportedKind::TimeWithTz },
        ),
        DbType::Unknown => match cell {
            CellRead::Bytes(b) => Ok(DynamicValue::Bytes(copy_bytes(b))),
            _ => Ok(DynamicValue::Null),
        },
    }
}

/// A column of a result set: its name and its declared type name.
#[derive(Debug)]
pub struct Column {
    pub name: String,
    pub declared_type: String,
}

/// One decoded row: column names with their values, in column order.
pub type DynamicRow = Vec<(String, DynamicValue)>;

/// The category of each column.
pub fn column_types(columns: &Vec<Column>) -> (r: Vec<DbType>)
    ensures
        r@.len() == columns@.len(),
        forall|j: int| 0 <= j < r@.len() ==> r@[j] == type_of_name(#[trigger] columns@[j].declared_type@),
{
    let mut r: Vec<DbType> = Vec::new();
    let mut j: usize = 0;
    while j < columns.len()
        invariant
            j <= columns@.len(),
            r@.len() == j,
            forall|k: int| 0 <= k < j ==> r@[k] == type_of_name(#[trigger] columns@[k].declared_type@),
        decreases columns@.len() - j,
    {
        r.push(DbType::from_name(columns[j].declared_type.as_str()));
        j = j + 1;
    }
    r
}

/// Whether the cell in row `i`, column `j` raises an error.
pub open spec fn cell_fails(columns: Seq<Column>, rows: Seq<Vec<CellRead>>, i: int, j: int) -> bool {
    cell_error(type_of_name(columns[j].declared_type@), rows[i]@[j], columns[j].name@) is Some
}

/// The error that the cell in row `i`, column `j` raises, if any.
pub open spec fn error_at(columns: Seq<Column>, rows: Seq<Vec<CellRead>>, i: int, j: int) -> Option<DecodeErrorModel> {
    cell_error(type_of_name(columns[j].declared_type@), rows[i]@[j], columns[j].name@)
}

/// Whether cell `(i2, j2)` comes before cell `(i, j)` in row-major order.
pub open spec fn cell_before(i2: int, j2: int, i: int, j: int) -> bool {
    i2 < i || (i2 == i && j2 < j)
}

/// A decoded row holds, for each column in order, its name and the value of
/// its cell.
pub open spec fn row_decoded(out: Seq<(String, DynamicValue)>, columns: Seq<Column>, cells: Seq<CellRead>) -> bool {
    out.len() == columns.len() && forall|j: int|
        0 <= j < out.len() ==> (#[trigger] out[j]).0@ == columns[j].name@ && out[j].1@
            == cell_value(type_of_name(columns[j].declared_type@), cells[j])
}

/// Decodes a result set whose rows all follow `columns`. Each column's
/// category is resolved once from its declared type name. The first cell, in
/// row-major order, that raises an error aborts the whole batch with that
/// error; otherwise every cell is decoded.
pub fn decode_rows(columns: &Vec<Column>, rows: &Vec<Vec<CellRead>>) -> (r: Result<Vec<DynamicRow>, DecodeError>)
    requires
        forall|i: int| 0 <= i < rows@.len() ==> (#[trigger] rows@[i])@.len() == columns@.len(),
    ensures
        r is Ok <==> forall|i: int, j: int|
            0 <= i < rows@.len() && 0 <= j < columns@.len() ==> !cell_fails(columns@, rows@, i, j),
        r matches Ok(out) ==> out@.len() == rows@.len() && forall|i: int|
            0 <= i < out@.len() ==> row_decoded((#[trigger] out@[i])@, columns@, rows@[i]@),
        r matches Err(e) ==> exists|i: int, j: int|
            0 <= i < rows@.len() && 0 <= j < columns@.len() && cell_fails(columns@, rows@, i, j)
                && Some(e@) == #[trigger] error_at(columns@, rows@, i, j) && forall|i2: int, j2: int|
                0 <= i2 < rows@.len() && 0 <= j2 < columns@.len() && cell_before(i2, j2, i, j)
                    ==> !cell_fails(columns@, rows@, i2, j2),
{
    let types = column_types(columns);
    let mut out: Vec<DynamicRow> = Vec::new();
    let mut i: usize = 0;
    while i < rows.len()
        invariant
            i <= rows@.len(),
            types@.len() == columns@.len(),
            forall|k: int| 0 <= k < types@.len() ==> types@[k] == type_of_name(#[trigger] columns@[k].declared_type@),
            forall|k: int| 0 <= k < rows@.len() ==> (#[trigger] rows@[k])@.len() == columns@.len(),
            out@.len() == i,
            forall|k: int| 0 <= k < i ==> row_decoded((#[trigger] out@[k])@, columns@, rows@[k]@),
            forall|i2: int, j2: int|
                0 <= i2 < i && 0 <= j2 < columns@.len() ==> !cell_fails(columns@, rows@, i2, j2),
        decreases rows@.len() - i,
    {
        let cells = &rows[i];
        let mut row: DynamicRow = Vec::new();
        let mut j: usize = 0;
        while j < columns.len()
            invariant
                i < rows@.len(),
                j <= columns@.len(),
                cells@ == rows@[i as int]@,
                cells@.len() == columns@.len(),
                types@.len() == columns@.len(),
                forall|k: int| 0 <= k < types@.len() ==> types@[k] == type_of_name(#[trigger] columns@[k].declared_type@),
                row@.len() == j,
                forall|k: int|
                    0 <= k < j ==> (#[trigger] row@[k]).0@ == columns@[k].name@ && row@[k].1@
                        == cell_value(type_of_name(columns@[k].declared_type@), cells@[k]),
                forall|i2: int, j2: int|
                    0 <= i2 < rows@.len() && 0 <= j2 < columns@.len() && cell_before(i2, j2, i as int, j as int)
                        ==> !cell_fails(columns@, rows@, i2, j2),
            decreases columns@.len() - j,
        {
            let column = &columns[j];
            match decode_cell(types[j], &cells[j], &column.name) {
                Ok(v) => {
                    proof {
                        assert(!cell_fails(columns@, rows@, i as int, j as int));
                        assert forall|i2: int, j2: int|
                            0 <= i2 < rows@.len() && 0 <= j2 < columns@.len() && cell_before(
                                i2,
                                j2,
                                i as int,
                                j + 1,
                            ) implies !cell_fails(columns@, rows@, i2, j2) by {
                            if !(i2 == i && j2 == j) {
                                assert(cell_before(i2, j2, i as int, j as int));
                            }
                        }
                    }
                    row.push((column.name.clone(), v));
                },
                Err(e) => {
                    proof {
                        assert(cell_fails(columns@, rows@, i as int, j as int));
                        assert(Some(e@) == error_at(columns@, rows@, i as int, j as int));
                    }
                    return Err(e);
                },
            }
            j = j + 1;
        }
        proof {
            assert(row_decoded(row@, columns@, rows@[i as int]@));
            assert forall|i2: int, j2: int|
                0 <= i2 < i + 1 && 0 <= j2 < columns@.len() implies !cell_fails(columns@, rows@, i2, j2) by {
                assert(cell_before(i2, j2, i as int, columns@.len() as int));
            }
        }
        out.push(row);
        i = i + 1;
    }
    Ok(out)
}

} // verus!
