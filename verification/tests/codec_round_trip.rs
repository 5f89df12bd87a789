//! The host call convention: encoding, decoding, and their round trip
//! through a stub host that echoes its input losslessly.

use driver_adapters::codec::{decode_query, decode_result_set, decode_row_count, decode_transaction, decode_unit, encode_query, HostScalar, HostValue};
use driver_adapters::types::{CallError, ColumnType, Query, ResultSet, SqlValue};

fn sample_query() -> Query {
    Query::new(
        String::from("SELECT * FROM users WHERE id = ? AND name = ? AND active = ?"),
        vec![
            SqlValue::Int32(42),
            SqlValue::Text(String::from("ada")),
            SqlValue::Boolean(true),
            SqlValue::Int64(-7),
            SqlValue::Bytes(vec![1, 2, 3]),
            SqlValue::Null,
        ],
        vec![
            ColumnType::Int32,
            ColumnType::Text,
            ColumnType::Boolean,
            ColumnType::Int64,
            ColumnType::Bytes,
            ColumnType::Text,
        ],
    )
    .unwrap()
}

#[test]
fn query_round_trip_through_echoing_stub_host() {
    let original = sample_query();
    let wire = encode_query(original.clone());
    // The stub host echoes the wire value losslessly.
    let echoed = wire.clone();
    let decoded = decode_query(echoed).unwrap();
    assert_eq!(decoded, original);
}

#[test]
fn empty_query_round_trip() {
    let original = Query::new(String::from("SELECT 1"), vec![], vec![]).unwrap();
    let decoded = decode_query(encode_query(original.clone())).unwrap();
    assert_eq!(decoded, original);
}

#[test]
fn query_new_rejects_mismatched_parameters() {
    let r = Query::new(
        String::from("SELECT ?"),
        vec![SqlValue::Boolean(true)],
        vec![ColumnType::Int32],
    );
    assert!(matches!(r, Err(CallError::Conversion(_))));
    let r = Query::new(String::from("SELECT ?"), vec![SqlValue::Null], vec![]);
    assert!(matches!(r, Err(CallError::Conversion(_))));
}

#[test]
fn decode_query_rejects_non_query_shape() {
    let r = decode_query(HostValue::Scalar(HostScalar::Int(3)));
    assert!(matches!(r, Err(CallError::Conversion(_))));
}

#[test]
fn decode_query_rejects_unknown_type_code() {
    let r = decode_query(HostValue::Query {
        sql: String::from("SELECT ?"),
        arg_types: vec![9],
        args: vec![HostScalar::Int(1)],
    });
    assert!(matches!(r, Err(CallError::Conversion(_))));
}

#[test]
fn decode_query_rejects_out_of_range_int32() {
    let r = decode_query(HostValue::Query {
        sql: String::from("SELECT ?"),
        arg_types: vec![1],
        args: vec![HostScalar::Int(i64::MAX)],
    });
    assert!(matches!(r, Err(CallError::Conversion(_))));
}

#[test]
fn decode_result_set_exact_value() {
    let wire = HostValue::ResultSet {
        columns: vec![String::from("id"), String::from("name")],
        column_types: vec![1, 4],
        rows: vec![
            vec![HostScalar::Int(1), HostScalar::Text(String::from("ada"))],
            vec![HostScalar::Int(2), HostScalar::Null],
        ],
    };
    let rs = decode_result_set(wire).unwrap();
    let expected = ResultSet {
        columns: vec![String::from("id"), String::from("name")],
        column_types: vec![ColumnType::Int32, ColumnType::Text],
        rows: vec![
            vec![SqlValue::Int32(1), SqlValue::Text(String::from("ada"))],
            vec![SqlValue::Int32(2), SqlValue::Null],
        ],
    };
    assert_eq!(rs, expected);
}

#[test]
fn decode_result_set_rejects_misaligned_row() {
    let wire = HostValue::ResultSet {
        columns: vec![String::from("id")],
        column_types: vec![1],
        rows: vec![vec![HostScalar::Int(1), HostScalar::Int(2)]],
    };
    assert!(matches!(decode_result_set(wire), Err(CallError::Conversion(_))));
}

#[test]
fn decode_result_set_rejects_cell_of_wrong_category() {
    let wire = HostValue::ResultSet {
        columns: vec![String::from("flag")],
        column_types: vec![3],
        rows: vec![vec![HostScalar::Text(String::from("yes"))]],
    };
    assert!(matches!(decode_result_set(wire), Err(CallError::Conversion(_))));
}

#[test]
fn decode_row_count_exact_and_range_checked() {
    assert_eq!(decode_row_count(HostValue::Scalar(HostScalar::Int(3))).unwrap(), 3);
    assert_eq!(
        decode_row_count(HostValue::Scalar(HostScalar::Int(u32::MAX as i64))).unwrap(),
        u32::MAX
    );
    assert!(matches!(
        decode_row_count(HostValue::Scalar(HostScalar::Int(-1))),
        Err(CallError::Conversion(_))
    ));
    assert!(matches!(
        decode_row_count(HostValue::Scalar(HostScalar::Int(u32::MAX as i64 + 1))),
        Err(CallError::Conversion(_))
    ));
    assert!(matches!(decode_row_count(HostValue::Unit), Err(CallError::Conversion(_))));
}

#[test]
fn decode_unit_accepts_only_unit() {
    assert!(decode_unit(HostValue::Unit).is_ok());
    assert!(matches!(
        decode_unit(HostValue::Scalar(HostScalar::Int(0))),
        Err(CallError::Conversion(_))
    ));
}

#[test]
fn decode_transaction_reads_handle_and_options() {
    let wire = HostValue::Transaction {
        id: 11,
        isolation: HostScalar::Text(String::from("SERIALIZABLE")),
        phantom: HostScalar::Bool(true),
    };
    let (handle, options) = decode_transaction(wire).unwrap();
    assert_eq!(handle, 11);
    assert_eq!(options.isolation_level, Some(String::from("SERIALIZABLE")));
    assert!(options.use_phantom_query);

    let wire = HostValue::Transaction {
        id: 0,
        isolation: HostScalar::Null,
        phantom: HostScalar::Bool(false),
    };
    let (handle, options) = decode_transaction(wire).unwrap();
    assert_eq!(handle, 0);
    assert_eq!(options.isolation_level, None);
    assert!(!options.use_phantom_query);
}

#[test]
fn decode_transaction_rejects_bad_shapes() {
    let negative = HostValue::Transaction {
        id: -1,
        isolation: HostScalar::Null,
        phantom: HostScalar::Bool(false),
    };
    assert!(matches!(decode_transaction(negative), Err(CallError::Conversion(_))));
    let bad_phantom = HostValue::Transaction {
        id: 1,
        isolation: HostScalar::Null,
        phantom: HostScalar::Int(1),
    };
    assert!(matches!(decode_transaction(bad_phantom), Err(CallError::Conversion(_))));
    let bad_isolation = HostValue::Transaction {
        id: 1,
        isolation: HostScalar::Bool(true),
        phantom: HostScalar::Bool(false),
    };
    assert!(matches!(decode_transaction(bad_isolation), Err(CallError::Conversion(_))));
}
