//! Plain data crossing the bridge: queries, result sets, transaction
//! configuration, and the error taxonomy surfaced to native callers.

use vstd::prelude::*;
use vstd::string::StringExecFns;

verus! {

/// Closed set of native value categories, used both to declare bind
/// parameters and to describe result columns.
#[derive(Clone, Copy, PartialEq, Eq, Structural, Debug)]
pub enum ColumnType {
    Int32,
    Int64,
    Boolean,
    Text,
    Bytes,
}

/// A concrete bind-parameter or result-cell value.
#[derive(Clone, PartialEq, Eq, Debug)]
pub enum SqlValue {
    Null,
    Int32(i32),
    Int64(i64),
    Boolean(bool),
    Text(String),
    Bytes(Vec<u8>),
}

/// Whether a value belongs to the category a column or parameter declares.
/// A null is admitted under every category.
pub open spec fn value_matches_type(v: SqlValue, t: ColumnType) -> bool {
    match v {
        SqlValue::Null => true,
        SqlValue::Int32(_) => t is Int32,
        SqlValue::Int64(_) => t is Int64,
        SqlValue::Boolean(_) => t is Boolean,
        SqlValue::Text(_) => t is Text,
        SqlValue::Bytes(_) => t is Bytes,
    }
}

/// An SQL-like statement with its ordered bind parameters and their declared
/// value types. Immutable once constructed; passed by value into a call.
#[derive(Clone, PartialEq, Eq, Debug)]
pub struct Query {
    pub sql: String,
    pub args: Vec<SqlValue>,
    pub arg_types: Vec<ColumnType>,
}

/// The mathematical content of a query: what "the same query" means.
pub ghost struct QueryModel {
    pub sql: Seq<char>,
    pub args: Seq<SqlValue>,
    pub arg_types: Seq<ColumnType>,
}

impl View for Query {
    type V = QueryModel;

    open spec fn view(&self) -> QueryModel {
        QueryModel { sql: self.sql@, args: self.args@, arg_types: self.arg_types@ }
    }
}

impl Query {
    /// A query is well formed when every bind parameter lines up with a
    /// declared type it matches.
    pub open spec fn wf(self) -> bool {
        &&& self.args.len() == self.arg_types.len()
        &&& forall|i: int|
            0 <= i < self.args.len() ==> value_matches_type(
                #[trigger] self.args@[i],
                self.arg_types@[i],
            )
    }

    /// Builds a query, rejecting parameter lists that do not line up with
    /// their declared types.
    pub fn new(sql: String, args: Vec<SqlValue>, arg_types: Vec<ColumnType>) -> (r: Result<
        Query,
        CallError,
    >)
        ensures
            r matches Ok(q) ==> q.wf() && q.sql == sql && q.args == args && q.arg_types
                == arg_types,
            r is Ok <==> (Query { sql, args, arg_types }).wf(),
            r matches Err(e) ==> e is Conversion,
    {
        if args.len() != arg_types.len() {
            return Err(CallError::Conversion(mismatch_message()));
        }
        let mut i: usize = 0;
        while i < args.len()
            invariant
                0 <= i <= args.len(),
                args.len() == arg_types.len(),
                forall|j: int|
                    0 <= j < i ==> value_matches_type(#[trigger] args@[j], arg_types@[j]),
            decreases args.len() - i,
        {
            let ok = match (&args[i], &arg_types[i]) {
                (SqlValue::Null, _) => true,
                (SqlValue::Int32(_), ColumnType::Int32) => true,
                (SqlValue::Int64(_), ColumnType::Int64) => true,
                (SqlValue::Boolean(_), ColumnType::Boolean) => true,
                (SqlValue::Text(_), ColumnType::Text) => true,
                (SqlValue::Bytes(_), ColumnType::Bytes) => true,
                _ => false,
            };
            if !ok {
                return Err(CallError::Conversion(mismatch_message()));
            }
            i = i + 1;
        }
        Ok(Query { sql, args, arg_types })
    }
}

/// The message carried by errors about parameters that contradict their
/// declared types.
fn mismatch_message() -> String {
    String::from_str("bind parameter does not line up with its declared type")
}

/// An ordered sequence of named, typed columns and the rows aligned with
/// them. Produced once per successful query call; never mutated afterwards.
#[derive(Clone, PartialEq, Eq, Debug)]
pub struct ResultSet {
    pub columns: Vec<String>,
    pub column_types: Vec<ColumnType>,
    pub rows: Vec<Vec<SqlValue>>,
}

impl ResultSet {
    /// Every row is positionally aligned with the columns and every cell
    /// matches the declared type of its column.
    pub open spec fn wf(self) -> bool {
        &&& self.columns.len() == self.column_types.len()
        &&& forall|r: int|
            0 <= r < self.rows.len() ==> (#[trigger] self.rows@[r]).len() == self.columns.len()
        &&& forall|r: int, c: int|
            0 <= r < self.rows.len() && 0 <= c < self.columns.len() ==> value_matches_type(
                #[trigger] self.rows@[r]@[c],
                self.column_types@[c],
            )
    }
}

/// Configuration captured at transaction start; immutable for the
/// transaction's lifetime and owned by its proxy.
#[derive(Clone, PartialEq, Eq, Debug)]
pub struct TransactionOptions {
    pub isolation_level: Option<String>,
    pub use_phantom_query: bool,
}

/// What a bridge call can surface to the native caller.
///
/// A failure to notify the host during cleanup is deliberately absent: that
/// failure is swallowed on the release path and never reaches a caller.
#[derive(Clone, PartialEq, Eq, Debug)]
pub enum CallError {
    /// A settled host value did not match the expected typed shape. Local and
    /// non-retryable.
    Conversion(String),
    /// The host callable itself reported a failure; the host's message is
    /// carried through unchanged.
    Host(String),
}

} // verus!
