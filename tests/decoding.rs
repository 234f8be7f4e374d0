use dbgate::decode::{column_types, decode_cell, decode_rows, CellRead, Column, DateParts, DbType, DecodeError, DynamicValue, TimeParts, UnsupportedKind};
use dbgate::reply::{reply_of, FailureKind, Reply, ResultSet, Response};
use dbgate::text::{format_date, format_time, format_timestamp, format_uuid, starts_with};

fn col(name: &str, ty: &str) -> Column {
    Column { name: name.to_string(), declared_type: ty.to_string() }
}

fn text_of(v: &DynamicValue) -> String {
    match v {
        DynamicValue::Text(s) => s.clone(),
        other => panic!("expected text, got {:?}", other),
    }
}

#[test]
fn type_names_resolve_exactly() {
    assert_eq!(DbType::from_name("INT"), DbType::Int32);
    assert_eq!(DbType::from_name("INT4"), DbType::Int32);
    assert_eq!(DbType::from_name("BIGINT"), DbType::Int64);
    assert_eq!(DbType::from_name("SMALLINT"), DbType::Int16);
    assert_eq!(DbType::from_name("TINYINT"), DbType::Int8);
    assert_eq!(DbType::from_name("DOUBLE"), DbType::Float64);
    assert_eq!(DbType::from_name("REAL"), DbType::Float32);
    assert_eq!(DbType::from_name("VARCHAR"), DbType::Text);
    assert_eq!(DbType::from_name("BOOLEAN"), DbType::Bool);
    assert_eq!(DbType::from_name("DATETIME"), DbType::Timestamp);
    assert_eq!(DbType::from_name("DATE"), DbType::Date);
    assert_eq!(DbType::from_name("TIME"), DbType::Time);
    assert_eq!(DbType::from_name("UUID"), DbType::Uuid);
    assert_eq!(DbType::from_name("BYTEA"), DbType::Bytes);
    assert_eq!(DbType::from_name("JSONB"), DbType::Json);
    assert_eq!(DbType::from_name("NULL"), DbType::Null);
    assert_eq!(DbType::from_name("MONEY"), DbType::UnsupportedDecimal);
    assert_eq!(DbType::from_name("TIMETZ"), DbType::UnsupportedTimeWithTz);
    assert_eq!(DbType::from_name("TINYINT UNSIGNED"), DbType::UInt8);
    assert_eq!(DbType::from_name("SMALLINT UNSIGNED"), DbType::UInt16);
    assert_eq!(DbType::from_name("MEDIUMINT UNSIGNED"), DbType::UInt32);
    assert_eq!(DbType::from_name("BIGINT UNSIGNED"), DbType::UInt64);
}

#[test]
fn type_names_are_case_sensitive() {
    assert_eq!(DbType::from_name("int"), DbType::Unknown);
    assert_eq!(DbType::from_name("INT "), DbType::Unknown);
    assert_eq!(DbType::from_name(""), DbType::Unknown);
    assert_eq!(DbType::from_name("GEOMETRY"), DbType::Unknown);
}

#[test]
fn int_column_decodes_to_int() {
    let columns = vec![col("n", "INT")];
    let rows = vec![vec![CellRead::Int(42)]];
    let out = decode_rows(&columns, &rows).unwrap();
    assert_eq!(out.len(), 1);
    assert_eq!(out[0][0].0, "n");
    assert!(matches!(out[0][0].1, DynamicValue::Int(42)));
}

#[test]
fn null_decodes_to_null_for_every_type() {
    for ty in ["INT", "TEXT", "DECIMAL", "TIMETZ", "TIMESTAMP", "UUID", "BLOB", "WHATEVER"] {
        let columns = vec![col("c", ty)];
        let rows = vec![vec![CellRead::Null]];
        let out = decode_rows(&columns, &rows).unwrap();
        assert!(matches!(out[0][0].1, DynamicValue::Null), "type {}", ty);
    }
}

#[test]
fn decimal_column_aborts_the_batch() {
    let columns = vec![col("id", "INT"), col("price", "DECIMAL")];
    let rows = vec![
        vec![CellRead::Int(1), CellRead::Null],
        vec![CellRead::Int(2), CellRead::Text("9.99".to_string())],
    ];
    match decode_rows(&columns, &rows) {
        Err(DecodeError::Unsupported { column, kind }) => {
            assert_eq!(column, "price");
            assert_eq!(kind, UnsupportedKind::Decimal);
        }
        other => panic!("expected an unsupported-type error, got {:?}", other),
    }
}

#[test]
fn undecodable_timestamp_is_null() {
    let columns = vec![col("at", "TIMESTAMP"), col("n", "INT")];
    let rows = vec![vec![CellRead::Failed, CellRead::Int(7)]];
    let out = decode_rows(&columns, &rows).unwrap();
    assert!(matches!(out[0][0].1, DynamicValue::Null));
    assert!(matches!(out[0][1].1, DynamicValue::Int(7)));
}

#[test]
fn failed_scalars_take_defaults() {
    let name = "c".to_string();
    assert!(matches!(decode_cell(DbType::Int32, &CellRead::Failed, &name).unwrap(), DynamicValue::Int(0)));
    assert!(matches!(decode_cell(DbType::Float64, &CellRead::Failed, &name).unwrap(), DynamicValue::Float(0)));
    assert!(matches!(decode_cell(DbType::Bool, &CellRead::Failed, &name).unwrap(), DynamicValue::Bool(false)));
    assert_eq!(text_of(&decode_cell(DbType::Text, &CellRead::Failed, &name).unwrap()), "");
    assert_eq!(text_of(&decode_cell(DbType::Json, &CellRead::Failed, &name).unwrap()), "{}");
    match decode_cell(DbType::Bytes, &CellRead::Failed, &name).unwrap() {
        DynamicValue::Bytes(b) => assert!(b.is_empty()),
        other => panic!("expected bytes, got {:?}", other),
    }
    assert!(matches!(decode_cell(DbType::Unknown, &CellRead::Failed, &name).unwrap(), DynamicValue::Null));
    assert!(matches!(decode_cell(DbType::Uuid, &CellRead::Failed, &name).unwrap(), DynamicValue::Null));
    assert!(matches!(decode_cell(DbType::Date, &CellRead::Failed, &name).unwrap(), DynamicValue::Null));
    assert!(matches!(decode_cell(DbType::Time, &CellRead::Failed, &name).unwrap(), DynamicValue::Null));
}

#[test]
fn unsigned_columns_reinterpret_the_signed_read() {
    let name = "u".to_string();
    assert!(matches!(decode_cell(DbType::UInt8, &CellRead::Int(-1), &name).unwrap(), DynamicValue::Int(255)));
    assert!(matches!(decode_cell(DbType::UInt16, &CellRead::Int(-2), &name).unwrap(), DynamicValue::Int(65534)));
    assert!(matches!(decode_cell(DbType::UInt32, &CellRead::Int(-1), &name).unwrap(), DynamicValue::Int(4294967295)));
    assert!(matches!(decode_cell(DbType::UInt8, &CellRead::Int(200), &name).unwrap(), DynamicValue::Int(200)));
    assert!(matches!(decode_cell(DbType::UInt64, &CellRead::Int(-5), &name).unwrap(), DynamicValue::Int(-5)));
}

#[test]
fn values_pass_through() {
    let name = "v".to_string();
    let bits = 2.5f64.to_bits();
    assert!(matches!(decode_cell(DbType::Float32, &CellRead::Float(bits), &name).unwrap(), DynamicValue::Float(b) if b == bits));
    assert!(matches!(decode_cell(DbType::Bool, &CellRead::Bool(true), &name).unwrap(), DynamicValue::Bool(true)));
    assert_eq!(text_of(&decode_cell(DbType::Text, &CellRead::Text("héllo".to_string()), &name).unwrap()), "héllo");
    assert_eq!(text_of(&decode_cell(DbType::Json, &CellRead::Text("[1]".to_string()), &name).unwrap()), "[1]");
    match decode_cell(DbType::Unknown, &CellRead::Bytes(vec![1, 2, 3]), &name).unwrap() {
        DynamicValue::Bytes(b) => assert_eq!(b, vec![1, 2, 3]),
        other => panic!("expected bytes, got {:?}", other),
    }
}

#[test]
fn dates_and_times_use_fixed_patterns() {
    let name = "t".to_string();
    let d = DateParts { year: 2024, month: 3, day: 9 };
    let t = TimeParts { hour: 7, minute: 5, second: 0 };
    assert_eq!(text_of(&decode_cell(DbType::Timestamp, &CellRead::Timestamp(d, t), &name).unwrap()), "2024-03-09 07:05:00");
    assert_eq!(text_of(&decode_cell(DbType::Date, &CellRead::Date(DateParts { year: 33, month: 12, day: 31 }), &name).unwrap()), "0033-12-31");
    assert_eq!(text_of(&decode_cell(DbType::Time, &CellRead::Time(TimeParts { hour: 23, minute: 59, second: 58 }), &name).unwrap()), "23:59:58");
    let far = DateParts { year: 12000, month: 1, day: 1 };
    assert!(matches!(decode_cell(DbType::Date, &CellRead::Date(far), &name).unwrap(), DynamicValue::Null));
}

#[test]
fn formatting_helpers() {
    assert_eq!(format_date(1999, 1, 2), "1999-01-02");
    assert_eq!(format_time(0, 0, 9), "00:00:09");
    assert_eq!(format_timestamp(5, 10, 20, 13, 45, 30), "0005-10-20 13:45:30");
    let id: [u8; 16] = [0x55, 0x0e, 0x84, 0x00, 0xe2, 0x9b, 0x41, 0xd4, 0xa7, 0x16, 0x44, 0x66, 0x55, 0x44, 0x00, 0x00];
    assert_eq!(format_uuid(&id), "550e8400-e29b-41d4-a716-446655440000");
    assert!(starts_with("mysql://x", "mysql://"));
    assert!(!starts_with("my", "mysql://"));
}

#[test]
fn uuid_cell_is_hyphenated_text() {
    let id: [u8; 16] = [0xff; 16];
    let name = "id".to_string();
    assert_eq!(text_of(&decode_cell(DbType::Uuid, &CellRead::Uuid(id), &name).unwrap()), "ffffffff-ffff-ffff-ffff-ffffffffffff");
}

#[test]
fn column_access_error_aborts_and_names_the_column() {
    let columns = vec![col("a", "INT"), col("b", "TEXT")];
    let rows = vec![vec![CellRead::Int(1), CellRead::Unreadable("index out of bounds".to_string())]];
    match decode_rows(&columns, &rows) {
        Err(e) => {
            assert!(matches!(e, DecodeError::ColumnAccess { .. }));
            assert_eq!(e.message(), "b decode error: index out of bounds");
        }
        Ok(_) => panic!("expected an access error"),
    }
}

#[test]
fn first_failing_cell_in_row_order_wins() {
    let columns = vec![col("x", "TIMETZ"), col("y", "NUMERIC")];
    let rows = vec![
        vec![CellRead::Null, CellRead::Text("1".to_string())],
        vec![CellRead::Text("t".to_string()), CellRead::Text("2".to_string())],
    ];
    match decode_rows(&columns, &rows) {
        Err(e) => assert_eq!(e.message(), "Unsupported decimal type for column 'y'"),
        Ok(_) => panic!("expected an unsupported-type error"),
    }
}

#[test]
fn empty_result_set_decodes_to_no_rows() {
    let columns = vec![col("a", "INT")];
    let rows: Vec<Vec<CellRead>> = Vec::new();
    assert_eq!(decode_rows(&columns, &rows).unwrap().len(), 0);
}

#[test]
fn column_types_follow_columns() {
    let columns = vec![col("a", "INT"), col("b", "JSON"), col("c", "odd")];
    assert_eq!(column_types(&columns), vec![DbType::Int32, DbType::Json, DbType::Unknown]);
}

#[test]
fn result_set_checks_row_shape() {
    assert!(ResultSet::new(vec![col("a", "INT")], vec![vec![]]).is_none());
    let rs = ResultSet::new(vec![col("a", "INT")], vec![vec![CellRead::Int(3)], vec![CellRead::Null]]).unwrap();
    assert_eq!(rs.len(), 2);
}

#[test]
fn replies_take_their_shapes() {
    match reply_of(Response::Connected) {
        Reply::Message(m) => assert_eq!(m, "success"),
        other => panic!("unexpected {:?}", other),
    }
    match reply_of(Response::Committed) {
        Reply::Message(m) => assert_eq!(m, "ok"),
        other => panic!("unexpected {:?}", other),
    }
    assert!(matches!(reply_of(Response::Affected(3)), Reply::Affected(3)));
    match reply_of(Response::DbError("duplicate key".to_string())) {
        Reply::Failure(FailureKind::Db, m) => assert_eq!(m, "duplicate key"),
        other => panic!("unexpected {:?}", other),
    }
    match reply_of(Response::Error("pool closed".to_string())) {
        Reply::Failure(FailureKind::Error, m) => assert_eq!(m, "pool closed"),
        other => panic!("unexpected {:?}", other),
    }
    match reply_of(Response::Timeout("refused".to_string())) {
        Reply::Failure(FailureKind::Timeout, m) => assert_eq!(m, "refused"),
        other => panic!("unexpected {:?}", other),
    }
}

#[test]
fn rows_reply_decodes_or_reports() {
    let rs = ResultSet::new(vec![col("n", "BIGINT")], vec![vec![CellRead::Int(-9)]]).unwrap();
    match reply_of(Response::Rows(rs)) {
        Reply::Rows(rows) => assert!(matches!(rows[0][0].1, DynamicValue::Int(-9))),
        other => panic!("unexpected {:?}", other),
    }
    let bad = ResultSet::new(vec![col("tz", "TIMETZ")], vec![vec![CellRead::Failed]]).unwrap();
    match reply_of(Response::Rows(bad)) {
        Reply::Failure(FailureKind::Error, m) => assert_eq!(m, "Unsupported time with time zone type for column 'tz'"),
        other => panic!("unexpected {:?}", other),
    }
}
