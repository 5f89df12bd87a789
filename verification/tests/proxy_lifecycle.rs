//! Transaction lifecycle and gauge behavior, driven through stub host
//! replies.

use driver_adapters::codec::{HostScalar, HostValue};
use driver_adapters::proxy::{
    ActiveTransactionGauge, CallTarget, CommonProxy, DriverProxy, HostReply, TransactionProxy,
    TxState,
};
use driver_adapters::types::{CallError, ColumnType, Query, SqlValue, TransactionOptions};

fn begin_reply(id: i64) -> HostReply {
    HostReply::Resolved(HostValue::Transaction {
        id,
        isolation: HostScalar::Null,
        phantom: HostScalar::Bool(false),
    })
}

#[test]
fn begin_then_commit_is_gauge_neutral() {
    let driver = DriverProxy::new();
    let mut gauge = ActiveTransactionGauge::new();

    let call = driver.start_transaction();
    assert_eq!(call.target, CallTarget::StartTransaction);

    let mut tx = driver.complete_start_transaction(&mut gauge, begin_reply(7)).unwrap();
    assert_eq!(gauge.count(), 1);
    assert_eq!(tx.state(), TxState::Open);
    assert_eq!(tx.handle(), 7);

    let call = tx.commit();
    assert_eq!(call.target, CallTarget::Commit);
    tx.complete_commit(&mut gauge, HostReply::Resolved(HostValue::Unit)).unwrap();
    assert_eq!(tx.state(), TxState::Committed);
    assert_eq!(gauge.count(), 0);
}

#[test]
fn begin_then_failed_rollback_still_decrements_once() {
    let driver = DriverProxy::new();
    let mut gauge = ActiveTransactionGauge::new();
    let mut tx = driver.complete_start_transaction(&mut gauge, begin_reply(3)).unwrap();
    assert_eq!(gauge.count(), 1);

    let r = tx.complete_rollback(&mut gauge, HostReply::Failed(String::from("disk on fire")));
    match r {
        Err(CallError::Host(m)) => assert_eq!(m, "disk on fire"),
        other => panic!("expected a host error, got {:?}", other),
    }
    // The failure surfaced, but the transaction still left the open state
    // and released its gauge share exactly once.
    assert_eq!(tx.state(), TxState::RolledBack);
    assert_eq!(gauge.count(), 0);
}

#[test]
fn commit_then_release_decrements_only_once_and_raises_nothing() {
    let driver = DriverProxy::new();
    let mut gauge = ActiveTransactionGauge::new();
    let mut tx = driver.complete_start_transaction(&mut gauge, begin_reply(9)).unwrap();
    tx.complete_commit(&mut gauge, HostReply::Resolved(HostValue::Unit)).unwrap();
    assert_eq!(gauge.count(), 0);

    // Releasing after an explicit commit sends the one dispose notification
    // and touches the gauge no further. Release returns no error by
    // construction, so even a host-side dispose failure cannot surface.
    let dispose = tx.release(&mut gauge);
    assert_eq!(dispose.target, CallTarget::Dispose);
    assert_eq!(gauge.count(), 0);
}

#[test]
fn failed_begin_leaves_gauge_untouched() {
    let driver = DriverProxy::new();
    let mut gauge = ActiveTransactionGauge::new();

    let r = driver.complete_start_transaction(&mut gauge, HostReply::Failed(String::from("no")));
    match r {
        Err(CallError::Host(m)) => assert_eq!(m, "no"),
        Err(e) => panic!("expected a host error, got {:?}", e),
        Ok(_) => panic!("expected a host error, got a transaction"),
    }
    assert_eq!(gauge.count(), 0);

    let malformed = HostReply::Resolved(HostValue::Scalar(HostScalar::Int(1)));
    let r = driver.complete_start_transaction(&mut gauge, malformed);
    assert!(matches!(r, Err(CallError::Conversion(_))));
    assert_eq!(gauge.count(), 0);
}

#[test]
fn abandoned_transaction_disposes_and_decrements_once() {
    let driver = DriverProxy::new();
    let mut gauge = ActiveTransactionGauge::new();
    let tx = driver.complete_start_transaction(&mut gauge, begin_reply(5)).unwrap();
    assert_eq!(gauge.count(), 1);

    // Dropped without commit or rollback: the release path is the one and
    // only dispose notification and the one and only decrement.
    let dispose = tx.release(&mut gauge);
    assert_eq!(dispose.target, CallTarget::Dispose);
    assert_eq!(gauge.count(), 0);
}

#[test]
fn run_statement_reports_the_hosts_count_or_its_failure() {
    let common = CommonProxy::new(String::from("sqlite"));
    assert_eq!(common.flavour(), "sqlite");

    let query = Query::new(
        String::from("DELETE FROM logs WHERE level = ?"),
        vec![SqlValue::Text(String::from("debug"))],
        vec![ColumnType::Text],
    )
    .unwrap();

    let call = common.execute_raw(query);
    assert_eq!(call.target, CallTarget::ExecuteRaw);

    // Stub host: the statement affected 3 rows.
    let n = common
        .complete_execute_raw(HostReply::Resolved(HostValue::Scalar(HostScalar::Int(3))))
        .unwrap();
    assert_eq!(n, 3);

    // Stub host: the call threw.
    let r = common.complete_execute_raw(HostReply::Failed(String::from("table is locked")));
    match r {
        Err(CallError::Host(m)) => assert_eq!(m, "table is locked"),
        other => panic!("expected a host error, got {:?}", other),
    }
}

#[test]
fn run_query_decodes_the_hosts_result_set() {
    let common = CommonProxy::new(String::from("postgres"));
    let query =
        Query::new(String::from("SELECT id FROM users"), vec![], vec![]).unwrap();
    let call = common.query_raw(query);
    assert_eq!(call.target, CallTarget::QueryRaw);

    let reply = HostReply::Resolved(HostValue::ResultSet {
        columns: vec![String::from("id")],
        column_types: vec![2],
        rows: vec![vec![HostScalar::Int(10)], vec![HostScalar::Int(20)]],
    });
    let rs = common.complete_query_raw(reply).unwrap();
    assert_eq!(rs.columns, vec![String::from("id")]);
    assert_eq!(rs.rows, vec![vec![SqlValue::Int64(10)], vec![SqlValue::Int64(20)]]);

    let r = common.complete_query_raw(HostReply::Failed(String::from("boom")));
    assert!(matches!(r, Err(CallError::Host(_))));
}

#[test]
fn two_transactions_are_independent() {
    let driver = DriverProxy::new();
    let mut gauge = ActiveTransactionGauge::new();

    let mut first = driver.complete_start_transaction(&mut gauge, begin_reply(1)).unwrap();
    let second = driver.complete_start_transaction(&mut gauge, begin_reply(2)).unwrap();
    assert_eq!(gauge.count(), 2);
    assert_ne!(first.handle(), second.handle());

    // Committing the first does not affect the second's contribution.
    first.complete_commit(&mut gauge, HostReply::Resolved(HostValue::Unit)).unwrap();
    assert_eq!(gauge.count(), 1);
    assert_eq!(second.state(), TxState::Open);

    let dispose = second.release(&mut gauge);
    assert_eq!(dispose.target, CallTarget::Dispose);
    assert_eq!(gauge.count(), 0);
}

#[test]
fn hand_wrapped_transaction_holds_no_gauge_share() {
    let mut gauge = ActiveTransactionGauge::new();
    let options = TransactionOptions {
        isolation_level: Some(String::from("READ COMMITTED")),
        use_phantom_query: true,
    };
    let tx = TransactionProxy::new(99, options.clone());
    assert_eq!(tx.state(), TxState::Open);
    assert_eq!(tx.handle(), 99);
    assert!(!tx.is_counted());
    assert_eq!(tx.options(), &options);

    // Released while open, but it never incremented, so it never decrements.
    let dispose = tx.release(&mut gauge);
    assert_eq!(dispose.target, CallTarget::Dispose);
    assert_eq!(gauge.count(), 0);
}
