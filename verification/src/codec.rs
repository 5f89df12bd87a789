//! The host call convention: the typed wire shapes that cross the runtime
//! boundary, and the verified encoding and decoding between them and the
//! native data model.
//!
//! Encoding never fails. Decoding a settled host value checks its shape
//! exactly and reports a conversion error on any mismatch: that error is
//! local and non-retryable.

use vstd::prelude::*;
use vstd::string::StringExecFns;

use crate::types::{
    value_matches_type, CallError, ColumnType, Query, ResultSet, TransactionOptions, SqlValue,
};

verus! {

/// A single wire value: the scalar shapes the host call convention knows.
#[derive(Clone, PartialEq, Eq, Debug)]
pub enum HostScalar {
    Null,
    Bool(bool),
    Int(i64),
    Text(String),
    Bytes(Vec<u8>),
}

/// A complete value crossing the boundary in either direction: the argument
/// handed to a host callable, or the value its deferred result settled to.
#[derive(Clone, PartialEq, Eq, Debug)]
pub enum HostValue {
    /// The unit argument or unit answer of a call.
    Unit,
    /// A single scalar answer, such as an affected-row count.
    Scalar(HostScalar),
    /// An encoded query: statement text, declared parameter type codes, and
    /// the parameters themselves.
    Query { sql: String, arg_types: Vec<i64>, args: Vec<HostScalar> },
    /// An encoded result set: column names, column type codes, and rows of
    /// cells aligned with the columns.
    ResultSet { columns: Vec<String>, column_types: Vec<i64>, rows: Vec<Vec<HostScalar>> },
    /// An opened remote transaction: its handle and its configuration.
    Transaction { id: i64, isolation: HostScalar, phantom: HostScalar },
}

/// The wire code a value category travels under.
pub open spec fn type_code(t: ColumnType) -> i64 {
    match t {
        ColumnType::Int32 => 1,
        ColumnType::Int64 => 2,
        ColumnType::Boolean => 3,
        ColumnType::Text => 4,
        ColumnType::Bytes => 5,
    }
}

/// The value category a wire code names, if any.
pub open spec fn type_of_code(c: i64) -> Option<ColumnType> {
    if c == 1 {
        Some(ColumnType::Int32)
    } else if c == 2 {
        Some(ColumnType::Int64)
    } else if c == 3 {
        Some(ColumnType::Boolean)
    } else if c == 4 {
        Some(ColumnType::Text)
    } else if c == 5 {
        Some(ColumnType::Bytes)
    } else {
        None
    }
}

/// How a native value travels on the wire.
pub open spec fn value_to_wire(v: SqlValue) -> HostScalar {
    match v {
        SqlValue::Null => HostScalar::Null,
        SqlValue::Int32(i) => HostScalar::Int(i as i64),
        SqlValue::Int64(i) => HostScalar::Int(i),
        SqlValue::Boolean(b) => HostScalar::Bool(b),
        SqlValue::Text(s) => HostScalar::Text(s),
        SqlValue::Bytes(b) => HostScalar::Bytes(b),
    }
}

/// The native value a wire scalar denotes under a declared category, if its
/// shape fits that category.
pub open spec fn wire_to_value(s: HostScalar, t: ColumnType) -> Option<SqlValue> {
    match s {
        HostScalar::Null => Some(SqlValue::Null),
        HostScalar::Int(i) => match t {
            ColumnType::Int32 => if i32::MIN <= i <= i32::MAX {
                Some(SqlValue::Int32(i as i32))
            } else {
                None
            },
            ColumnType::Int64 => Some(SqlValue::Int64(i)),
            _ => None,
        },
        HostScalar::Bool(b) => if t is Boolean {
            Some(SqlValue::Boolean(b))
        } else {
            None
        },
        HostScalar::Text(x) => if t is Text {
            Some(SqlValue::Text(x))
        } else {
            None
        },
        HostScalar::Bytes(x) => if t is Bytes {
            Some(SqlValue::Bytes(x))
        } else {
            None
        },
    }
}

/// A wire slot is decodable when its type code names a category and its
/// scalar fits that category.
pub open spec fn query_slot_ok(code: i64, s: HostScalar) -> bool {
    &&& type_of_code(code) is Some
    &&& wire_to_value(s, type_of_code(code)->Some_0) is Some
}

/// The wire value `v` is exactly the encoding of the query `q`.
pub open spec fn encodes_query(q: Query, v: HostValue) -> bool {
    &&& v matches HostValue::Query { sql, arg_types, args }
    &&& sql == q.sql
    &&& arg_types@ == q.arg_types@.map_values(|t: ColumnType| type_code(t))
    &&& args@ == q.args@.map_values(|x: SqlValue| value_to_wire(x))
}

/// All slots of an encoded parameter list line up and decode.
pub open spec fn query_slots_ok(codes: Seq<i64>, ws: Seq<HostScalar>) -> bool {
    &&& codes.len() == ws.len()
    &&& forall|i: int| 0 <= i < ws.len() ==> #[trigger] query_slot_ok(codes[i], ws[i])
}

/// The shape check the query decoder applies: a query-shaped wire value whose
/// slots all line up and decode.
pub open spec fn wire_query_ok(v: HostValue) -> bool {
    match v {
        HostValue::Query { sql, arg_types, args } => query_slots_ok(arg_types@, args@),
        _ => false,
    }
}

/// Decoding under the declared category undoes encoding, for every value
/// that matches the category.
pub proof fn lemma_value_wire_round_trip(x: SqlValue, t: ColumnType)
    requires
        value_matches_type(x, t),
    ensures
        wire_to_value(value_to_wire(x), t) == Some(x),
{
}

/// A decodable wire scalar decodes to a value that matches the declared
/// category and encodes back to the very same scalar.
pub proof fn lemma_wire_value_inverse(s: HostScalar, t: ColumnType)
    requires
        wire_to_value(s, t) is Some,
    ensures
        value_matches_type(wire_to_value(s, t)->Some_0, t),
        value_to_wire(wire_to_value(s, t)->Some_0) == s,
{
}

/// A category's wire code always names that category back.
pub proof fn lemma_type_code_inverse(t: ColumnType)
    ensures
        type_of_code(type_code(t)) == Some(t),
{
}

/// Translates one value category to its wire code.
fn encode_column_type(t: ColumnType) -> (c: i64)
    ensures
        c == type_code(t),
{
    match t {
        ColumnType::Int32 => 1,
        ColumnType::Int64 => 2,
        ColumnType::Boolean => 3,
        ColumnType::Text => 4,
        ColumnType::Bytes => 5,
    }
}

/// Reads a wire code back into a value category.
fn decode_column_type(c: i64) -> (r: Option<ColumnType>)
    ensures
        r == type_of_code(c),
{
    if c == 1 {
        Some(ColumnType::Int32)
    } else if c == 2 {
        Some(ColumnType::Int64)
    } else if c == 3 {
        Some(ColumnType::Boolean)
    } else if c == 4 {
        Some(ColumnType::Text)
    } else if c == 5 {
        Some(ColumnType::Bytes)
    } else {
        None
    }
}

/// Puts one native value on the wire.
fn encode_value(v: SqlValue) -> (s: HostScalar)
    ensures
        s == value_to_wire(v),
{
    match v {
        SqlValue::Null => HostScalar::Null,
        SqlValue::Int32(i) => HostScalar::Int(i as i64),
        SqlValue::Int64(i) => HostScalar::Int(i),
        SqlValue::Boolean(b) => HostScalar::Bool(b),
        SqlValue::Text(s) => HostScalar::Text(s),
        SqlValue::Bytes(b) => HostScalar::Bytes(b),
    }
}

/// Reads one wire scalar back under its declared category.
fn decode_value(s: HostScalar, t: ColumnType) -> (r: Option<SqlValue>)
    ensures
        r == wire_to_value(s, t),
{
    match s {
        HostScalar::Null => Some(SqlValue::Null),
        HostScalar::Int(i) => match t {
            ColumnType::Int32 => {
                if i32::MIN as i64 <= i && i <= i32::MAX as i64 {
                    Some(SqlValue::Int32(i as i32))
                } else {
                    None
                }
            },
            ColumnType::Int64 => Some(SqlValue::Int64(i)),
            _ => None,
        },
        HostScalar::Bool(b) => if matches!(t, ColumnType::Boolean) {
            Some(SqlValue::Boolean(b))
        } else {
            None
        },
        HostScalar::Text(x) => if matches!(t, ColumnType::Text) {
            Some(SqlValue::Text(x))
        } else {
            None
        },
        HostScalar::Bytes(x) => if matches!(t, ColumnType::Bytes) {
            Some(SqlValue::Bytes(x))
        } else {
            None
        },
    }
}

/// The conversion error reported when a settled host value does not match
/// the expected typed shape.
pub(crate) fn shape_error() -> (e: CallError)
    ensures
        e is Conversion,
{
    CallError::Conversion(String::from_str("settled host value does not match the expected shape"))
}

/// Serializes a query into the host call convention.
pub fn encode_query(q: Query) -> (v: HostValue)
    ensures
        encodes_query(q, v),
{
    let Query { sql, args, arg_types } = q;
    let ghost args0 = args@;
    let ghost types0 = arg_types@;

    let mut codes: Vec<i64> = Vec::new();
    let mut i: usize = 0;
    while i < arg_types.len()
        invariant
            i <= arg_types.len(),
            arg_types@ == types0,
            codes@ == types0.subrange(0, i as int).map_values(|t: ColumnType| type_code(t)),
        decreases arg_types.len() - i,
    {
        codes.push(encode_column_type(arg_types[i]));
        i = i + 1;
        proof {
            assert(codes@ =~= types0.subrange(0, i as int).map_values(
                |t: ColumnType| type_code(t),
            ));
        }
    }
    proof {
        assert(types0.subrange(0, types0.len() as int) =~= types0);
    }

    let mut rest = args;
    let mut wire_args: Vec<HostScalar> = Vec::new();
    while rest.len() > 0
        invariant
            wire_args@.len() + rest@.len() == args0.len(),
            wire_args@ == args0.subrange(0, wire_args@.len() as int).map_values(
                |x: SqlValue| value_to_wire(x),
            ),
            rest@ == args0.subrange(wire_args@.len() as int, args0.len() as int),
        decreases rest.len(),
    {
        let e = rest.remove(0);
        wire_args.push(encode_value(e));
        proof {
            assert(wire_args@ =~= args0.subrange(0, wire_args@.len() as int).map_values(
                |x: SqlValue| value_to_wire(x),
            ));
            assert(rest@ =~= args0.subrange(wire_args@.len() as int, args0.len() as int));
        }
    }
    proof {
        assert(args0.subrange(0, args0.len() as int) =~= args0);
    }

    HostValue::Query { sql, arg_types: codes, args: wire_args }
}

/// Deserializes a query from the host call convention, checking its shape.
///
/// Succeeds exactly on wire values that pass the shape check, and then
/// returns a well-formed query whose encoding is the input itself.
pub fn decode_query(v: HostValue) -> (r: Result<Query, CallError>)
    ensures
        r is Ok <==> wire_query_ok(v),
        r matches Ok(q) ==> q.wf() && encodes_query(q, v),
        r matches Err(e) ==> e is Conversion,
{
    match v {
        HostValue::Query { sql, arg_types, args } => {
            if args.len() != arg_types.len() {
                return Err(shape_error());
            }
            let ghost codes0 = arg_types@;
            let ghost wire0 = args@;
            proof {
                assert(wire_query_ok(v) == query_slots_ok(codes0, wire0));
            }
            let n = args.len();
            let mut rest_codes = arg_types;
            let mut rest_args = args;
            let mut tys: Vec<ColumnType> = Vec::new();
            let mut vals: Vec<SqlValue> = Vec::new();
            while rest_args.len() > 0
                invariant
                    wire_query_ok(v) == query_slots_ok(codes0, wire0),
                    vals@.len() == tys@.len(),
                    vals@.len() + rest_args@.len() == n,
                    rest_codes@.len() == rest_args@.len(),
                    codes0.len() == n && wire0.len() == n,
                    rest_codes@ == codes0.subrange(vals@.len() as int, n as int),
                    rest_args@ == wire0.subrange(vals@.len() as int, n as int),
                    forall|j: int|
                        0 <= j < vals@.len() ==> {
                            &&& #[trigger] query_slot_ok(codes0[j], wire0[j])
                            &&& type_of_code(codes0[j]) == Some(tys@[j])
                            &&& wire_to_value(wire0[j], tys@[j]) == Some(vals@[j])
                        },
                decreases rest_args.len(),
            {
                let ghost k = vals@.len() as int;
                let code = rest_codes.remove(0);
                let s = rest_args.remove(0);
                proof {
                    assert(code == codes0[k]);
                    assert(s == wire0[k]);
                }
                let t = match decode_column_type(code) {
                    Some(t) => t,
                    None => {
                        proof {
                            assert(0 <= k < n);
                            assert(!query_slot_ok(codes0[k], wire0[k]));
                            assert(!query_slots_ok(codes0, wire0));
                        }
                        return Err(shape_error());
                    },
                };
                let x = match decode_value(s, t) {
                    Some(x) => x,
                    None => {
                        proof {
                            assert(0 <= k < n);
                            assert(!query_slot_ok(codes0[k], wire0[k]));
                            assert(!query_slots_ok(codes0, wire0));
                        }
                        return Err(shape_error());
                    },
                };
                tys.push(t);
                vals.push(x);
                proof {
                    assert(rest_codes@ =~= codes0.subrange(vals@.len() as int, n as int));
                    assert(rest_args@ =~= wire0.subrange(vals@.len() as int, n as int));
                }
            }
            proof {
                assert(vals@.len() == n && tys@.len() == n);
                assert forall|j: int| 0 <= j < n implies #[trigger] type_code(tys@[j])
                    == codes0[j] by {
                    assert(query_slot_ok(codes0[j], wire0[j]));
                    lemma_code_of_named_type(codes0[j]);
                }
                assert forall|j: int| 0 <= j < n implies #[trigger] value_to_wire(vals@[j])
                    == wire0[j] by {
                    assert(query_slot_ok(codes0[j], wire0[j]));
                    lemma_wire_value_inverse(wire0[j], tys@[j]);
                }
                assert forall|j: int| 0 <= j < n implies value_matches_type(
                    #[trigger] vals@[j],
                    tys@[j],
                ) by {
                    assert(query_slot_ok(codes0[j], wire0[j]));
                    lemma_wire_value_inverse(wire0[j], tys@[j]);
                }
                assert(codes0 =~= tys@.map_values(|t: ColumnType| type_code(t)));
                assert(wire0 =~= vals@.map_values(|x: SqlValue| value_to_wire(x)));
                assert(query_slots_ok(codes0, wire0));
            }
            let q = Query { sql, args: vals, arg_types: tys };
            proof {
                assert(q.wf());
                assert(encodes_query(q, v));
            }
            Ok(q)
        },
        _ => Err(shape_error()),
    }
}

/// A wire code that names a category is that category's own code.
proof fn lemma_code_of_named_type(c: i64)
    requires
        type_of_code(c) is Some,
    ensures
        type_code(type_of_code(c)->Some_0) == c,
{
}

/// Law: the encoding of a well-formed query always passes the decoder's
/// shape check, so a host that echoes the wire value losslessly always hands
/// the decoder something it accepts.
pub proof fn lemma_encoded_query_decodes(q: Query, v: HostValue)
    requires
        q.wf(),
        encodes_query(q, v),
    ensures
        wire_query_ok(v),
{
    let codes = q.arg_types@.map_values(|t: ColumnType| type_code(t));
    let ws = q.args@.map_values(|x: SqlValue| value_to_wire(x));
    assert forall|i: int| 0 <= i < ws.len() implies #[trigger] query_slot_ok(
        codes[i],
        ws[i],
    ) by {
        lemma_type_code_inverse(q.arg_types@[i]);
        assert(value_matches_type(q.args@[i], q.arg_types@[i]));
        lemma_value_wire_round_trip(q.args@[i], q.arg_types@[i]);
    }
    assert(query_slots_ok(codes, ws));
}

/// Law: encoding loses nothing — two well-formed queries with the same wire
/// encoding are the same query. Together with the shape-check law above and
/// the decoder's contract, encoding a well-formed query and decoding the
/// echo of its wire value yields an equal query.
pub proof fn lemma_query_encoding_injective(q1: Query, q2: Query, v: HostValue)
    requires
        q1.wf(),
        q2.wf(),
        encodes_query(q1, v),
        encodes_query(q2, v),
    ensures
        q1@ == q2@,
{
    let c1 = q1.arg_types@.map_values(|t: ColumnType| type_code(t));
    let c2 = q2.arg_types@.map_values(|t: ColumnType| type_code(t));
    assert(c1 == c2);
    assert(c1.len() == q1.arg_types@.len());
    assert(c2.len() == q2.arg_types@.len());
    assert forall|i: int| 0 <= i < q1.arg_types@.len() implies #[trigger] q1.arg_types@[i]
        == q2.arg_types@[i] by {
        assert(c1[i] == type_code(q1.arg_types@[i]));
        assert(c2[i] == type_code(q2.arg_types@[i]));
    }
    let w1 = q1.args@.map_values(|x: SqlValue| value_to_wire(x));
    let w2 = q2.args@.map_values(|x: SqlValue| value_to_wire(x));
    assert(w1 == w2);
    assert(w1.len() == q1.args@.len());
    assert(w2.len() == q2.args@.len());
    assert forall|i: int| 0 <= i < q1.args@.len() implies #[trigger] q1.args@[i]
        == q2.args@[i] by {
        assert(w1[i] == value_to_wire(q1.args@[i]));
        assert(w2[i] == value_to_wire(q2.args@[i]));
        let t = q1.arg_types@[i];
        assert(q1.arg_types@[i] == q2.arg_types@[i]);
        assert(value_matches_type(q1.args@[i], t));
        assert(value_matches_type(q2.args@[i], t));
        lemma_value_wire_round_trip(q1.args@[i], t);
        lemma_value_wire_round_trip(q2.args@[i], t);
    }
    assert(q1.arg_types@ =~= q2.arg_types@);
    assert(q1.args@ =~= q2.args@);
}

/// The wire value `v` is exactly the encoding of the result set `rs`.
pub open spec fn encodes_result_set(rs: ResultSet, v: HostValue) -> bool {
    &&& v matches HostValue::ResultSet { columns, column_types, rows }
    &&& columns == rs.columns
    &&& column_types@ == rs.column_types@.map_values(|t: ColumnType| type_code(t))
    &&& rows@.len() == rs.rows@.len()
    &&& forall|r: int|
        0 <= r < rows@.len() ==> (#[trigger] rows@[r])@ == rs.rows@[r]@.map_values(
            |x: SqlValue| value_to_wire(x),
        )
}

/// All rows are aligned with the declared columns and every cell decodes
/// under its column's code.
pub open spec fn result_rows_ok(codes: Seq<i64>, rows: Seq<Vec<HostScalar>>) -> bool {
    &&& forall|r: int| 0 <= r < rows.len() ==> (#[trigger] rows[r])@.len() == codes.len()
    &&& forall|r: int, c: int|
        0 <= r < rows.len() && 0 <= c < codes.len() ==> #[trigger] query_slot_ok(
            codes[c],
            rows[r]@[c],
        )
}

/// The pieces of a result-set-shaped wire value pass the decoder's checks.
pub open spec fn result_set_pieces_ok(
    cols_len: int,
    codes: Seq<i64>,
    rows: Seq<Vec<HostScalar>>,
) -> bool {
    &&& codes.len() == cols_len
    &&& forall|c: int| 0 <= c < codes.len() ==> #[trigger] type_of_code(codes[c]) is Some
    &&& result_rows_ok(codes, rows)
}

/// The shape check the result-set decoder applies.
pub open spec fn wire_result_set_ok(v: HostValue) -> bool {
    match v {
        HostValue::ResultSet { columns, column_types, rows } => result_set_pieces_ok(
            columns@.len() as int,
            column_types@,
            rows@,
        ),
        _ => false,
    }
}

/// Deserializes a result set from the host call convention, checking its
/// shape exactly: every row must line up with the declared columns and every
/// cell must fit its column's category.
pub fn decode_result_set(v: HostValue) -> (r: Result<ResultSet, CallError>)
    ensures
        r is Ok <==> wire_result_set_ok(v),
        r matches Ok(rs) ==> rs.wf() && encodes_result_set(rs, v),
        r matches Err(e) ==> e is Conversion,
{
    match v {
        HostValue::ResultSet { columns, column_types, rows } => {
            let ghost cols_len = columns@.len() as int;
            let ghost codes0 = column_types@;
            let ghost rows0 = rows@;
            proof {
                assert(wire_result_set_ok(v) == result_set_pieces_ok(cols_len, codes0, rows0));
            }
            if column_types.len() != columns.len() {
                return Err(shape_error());
            }
            let ncols = columns.len();

            let mut tys: Vec<ColumnType> = Vec::new();
            let mut c: usize = 0;
            while c < ncols
                invariant
                    wire_result_set_ok(v) == result_set_pieces_ok(cols_len, codes0, rows0),
                    c <= ncols,
                    codes0.len() == ncols && cols_len == ncols,
                    column_types@ == codes0,
                    ncols <= column_types.len(),
                    tys@.len() == c,
                    forall|j: int|
                        0 <= j < c ==> #[trigger] type_of_code(codes0[j]) == Some(tys@[j]),
                decreases ncols - c,
            {
                match decode_column_type(column_types[c]) {
                    Some(t) => tys.push(t),
                    None => {
                        proof {
                            assert(!result_set_pieces_ok(cols_len, codes0, rows0));
                        }
                        return Err(shape_error());
                    },
                }
                c = c + 1;
            }

            let mut rest_rows = rows;
            let mut out_rows: Vec<Vec<SqlValue>> = Vec::new();
            while rest_rows.len() > 0
                invariant
                    wire_result_set_ok(v) == result_set_pieces_ok(cols_len, codes0, rows0),
                    codes0.len() == ncols && cols_len == ncols,
                    tys@.len() == ncols,
                    forall|j: int|
                        0 <= j < ncols ==> #[trigger] type_of_code(codes0[j]) == Some(tys@[j]),
                    out_rows@.len() + rest_rows@.len() == rows0.len(),
                    rest_rows@ == rows0.subrange(out_rows@.len() as int, rows0.len() as int),
                    forall|r: int|
                        0 <= r < out_rows@.len() ==> {
                            &&& (#[trigger] out_rows@[r])@.len() == ncols
                            &&& rows0[r]@ == out_rows@[r]@.map_values(|x: SqlValue| value_to_wire(x))
                            &&& forall|cc: int|
                                0 <= cc < ncols ==> {
                                    &&& #[trigger] query_slot_ok(codes0[cc], rows0[r]@[cc])
                                    &&& value_matches_type(out_rows@[r]@[cc], tys@[cc])
                                }
                        },
                decreases rest_rows.len(),
            {
                let ghost k = out_rows@.len() as int;
                let row = rest_rows.remove(0);
                let ghost row0 = row@;
                proof {
                    assert(row == rows0[k]);
                }
                if row.len() != ncols {
                    proof {
                        assert((rows0[k])@.len() != codes0.len());
                        assert(!result_rows_ok(codes0, rows0));
                    }
                    return Err(shape_error());
                }
                let mut rest_cells = row;
                let mut out_cells: Vec<SqlValue> = Vec::new();
                while rest_cells.len() > 0
                    invariant
                        wire_result_set_ok(v) == result_set_pieces_ok(cols_len, codes0, rows0),
                        codes0.len() == ncols && cols_len == ncols,
                        tys@.len() == ncols,
                        row0.len() == ncols,
                        0 <= k < rows0.len(),
                        rows0[k]@ == row0,
                        forall|j: int|
                            0 <= j < ncols ==> #[trigger] type_of_code(codes0[j]) == Some(tys@[j]),
                        out_cells@.len() + rest_cells@.len() == ncols,
                        rest_cells@ == row0.subrange(out_cells@.len() as int, ncols as int),
                        forall|cc: int|
                            0 <= cc < out_cells@.len() ==> {
                                &&& #[trigger] wire_to_value(row0[cc], tys@[cc]) == Some(
                                    out_cells@[cc],
                                )
                                &&& query_slot_ok(codes0[cc], row0[cc])
                                &&& value_matches_type(out_cells@[cc], tys@[cc])
                                &&& value_to_wire(out_cells@[cc]) == row0[cc]
                            },
                    decreases rest_cells.len(),
                {
                    let ghost cc = out_cells@.len() as int;
                    let cell = rest_cells.remove(0);
                    proof {
                        assert(cell == row0[cc]);
                    }
                    let t = tys[out_cells.len()];
                    match decode_value(cell, t) {
                        Some(x) => {
                            proof {
                                lemma_wire_value_inverse(row0[cc], tys@[cc]);
                            }
                            out_cells.push(x);
                        },
                        None => {
                            proof {
                                assert(!query_slot_ok(codes0[cc], rows0[k]@[cc]));
                                assert(!result_rows_ok(codes0, rows0));
                            }
                            return Err(shape_error());
                        },
                    }
                    proof {
                        assert(rest_cells@ =~= row0.subrange(out_cells@.len() as int,
                        ncols as int));
                    }
                }
                proof {
                    assert(row0.subrange(0, ncols as int) =~= row0);
                    assert forall|cc: int| 0 <= cc < ncols implies #[trigger] value_to_wire(
                        out_cells@[cc],
                    ) == row0[cc] by {
                        assert(wire_to_value(row0[cc], tys@[cc]) == Some(out_cells@[cc]));
                    }
                    assert(rows0[k]@ =~= out_cells@.map_values(|x: SqlValue| value_to_wire(x)));
                }
                out_rows.push(out_cells);
                proof {
                    assert(rest_rows@ =~= rows0.subrange(out_rows@.len() as int,
                    rows0.len() as int));
                }
            }
            proof {
                assert(out_rows@.len() == rows0.len());
                assert forall|r: int, cc: int|
                    0 <= r < rows0.len() && 0 <= cc < ncols implies #[trigger] query_slot_ok(
                    codes0[cc],
                    rows0[r]@[cc],
                ) by {
                    assert(out_rows@[r]@.len() == ncols);
                    assert(query_slot_ok(codes0[cc], rows0[r]@[cc]));
                }
                assert forall|r: int| 0 <= r < rows0.len() implies (#[trigger] rows0[r])@.len()
                    == ncols by {
                    assert(out_rows@[r]@.len() == ncols);
                    assert(rows0[r]@ == out_rows@[r]@.map_values(|x: SqlValue| value_to_wire(x)));
                }
                assert(result_rows_ok(codes0, rows0));
                assert(result_set_pieces_ok(cols_len, codes0, rows0));
                assert(codes0 =~= tys@.map_values(|t: ColumnType| type_code(t))) by {
                    assert forall|j: int| 0 <= j < ncols implies #[trigger] type_code(tys@[j])
                        == codes0[j] by {
                        lemma_code_of_named_type(codes0[j]);
                    }
                }
                assert forall|r: int, cc: int|
                    0 <= r < out_rows@.len() && 0 <= cc < ncols implies value_matches_type(
                    #[trigger] out_rows@[r]@[cc],
                    tys@[cc],
                ) by {
                    assert(out_rows@[r]@.len() == ncols);
                    assert(query_slot_ok(codes0[cc], rows0[r]@[cc]));
                }
            }
            let rs = ResultSet { columns, column_types: tys, rows: out_rows };
            proof {
                assert(rs.wf());
                assert(encodes_result_set(rs, v));
            }
            Ok(rs)
        },
        _ => Err(shape_error()),
    }
}

/// The affected-row count a wire value carries, if it is count-shaped.
pub open spec fn wire_row_count(v: HostValue) -> Option<u32> {
    match v {
        HostValue::Scalar(HostScalar::Int(i)) => if 0 <= i <= u32::MAX {
            Some(i as u32)
        } else {
            None
        },
        _ => None,
    }
}

/// Reads an affected-row count from a settled host value: exactly the
/// integer the host reported, rejected unless it fits the count's range.
pub fn decode_row_count(v: HostValue) -> (r: Result<u32, CallError>)
    ensures
        r is Ok <==> wire_row_count(v) is Some,
        r matches Ok(n) ==> wire_row_count(v) == Some(n),
        r matches Err(e) ==> e is Conversion,
{
    match v {
        HostValue::Scalar(HostScalar::Int(i)) => {
            if 0 <= i && i <= u32::MAX as i64 {
                Ok(i as u32)
            } else {
                Err(shape_error())
            }
        },
        _ => Err(shape_error()),
    }
}

/// Reads the unit answer of a call that settles with no payload.
pub fn decode_unit(v: HostValue) -> (r: Result<(), CallError>)
    ensures
        r is Ok <==> v is Unit,
        r matches Err(e) ==> e is Conversion,
{
    match v {
        HostValue::Unit => Ok(()),
        _ => Err(shape_error()),
    }
}

/// The wire value `v` is exactly the encoding of an open transaction with
/// handle `handle` and configuration `opts`.
pub open spec fn encodes_transaction(handle: u64, opts: TransactionOptions, v: HostValue) -> bool {
    &&& v matches HostValue::Transaction { id, isolation, phantom }
    &&& id >= 0 && handle == id as u64
    &&& match opts.isolation_level {
        Option::None => isolation is Null,
        Option::Some(s) => isolation == HostScalar::Text(s),
    }
    &&& phantom == HostScalar::Bool(opts.use_phantom_query)
}

/// The shape check the transaction decoder applies.
pub open spec fn wire_transaction_ok(v: HostValue) -> bool {
    match v {
        HostValue::Transaction { id, isolation, phantom } => {
            &&& id >= 0
            &&& isolation is Null || isolation is Text
            &&& phantom is Bool
        },
        _ => false,
    }
}

/// Reads an opened transaction from a settled host value: its opaque handle
/// and the configuration captured at transaction start.
pub fn decode_transaction(v: HostValue) -> (r: Result<(u64, TransactionOptions), CallError>)
    ensures
        r is Ok <==> wire_transaction_ok(v),
        r matches Ok(p) ==> encodes_transaction(p.0, p.1, v),
        r matches Err(e) ==> e is Conversion,
{
    match v {
        HostValue::Transaction { id, isolation, phantom } => {
            if id < 0 {
                return Err(shape_error());
            }
            let isolation_level = match isolation {
                HostScalar::Null => None,
                HostScalar::Text(s) => Some(s),
                _ => {
                    return Err(shape_error());
                },
            };
            let use_phantom_query = match phantom {
                HostScalar::Bool(b) => b,
                _ => {
                    return Err(shape_error());
                },
            };
            Ok((id as u64, TransactionOptions { isolation_level, use_phantom_query }))
        },
        _ => Err(shape_error()),
    }
}

} // verus!

