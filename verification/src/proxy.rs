//! The proxies native callers hold, and the transaction-lifecycle rules they
//! guarantee.
//!
//! Every host operation is split in two verified halves. A request builder
//! says exactly which host callable to invoke and with what argument; the
//! unverified rim performs the call and waits for the deferred value to
//! settle. A completion function then takes the settled reply and produces
//! the typed result, performing the state transition and the gauge
//! bookkeeping that the operation owes — so the guarantees hold whatever the
//! host answered.
//!
//! Proxies are not safe to share: each one must be driven by one logical
//! owner at a time, which exclusive borrows enforce inside verified code and
//! the embedding environment must guarantee beyond it.

use vstd::prelude::*;

use crate::codec::{
    decode_result_set, decode_row_count, decode_transaction, decode_unit, encode_query,
    encodes_query, encodes_result_set, encodes_transaction, wire_result_set_ok, wire_row_count,
    wire_transaction_ok, HostValue,
};
use crate::types::{CallError, Query, ResultSet, TransactionOptions};

verus! {

/// The host callable a request is addressed to.
#[derive(Clone, Copy, PartialEq, Eq, Structural, Debug)]
pub enum CallTarget {
    QueryRaw,
    ExecuteRaw,
    StartTransaction,
    Commit,
    Rollback,
    Dispose,
}

/// One request into the host runtime: which callable to invoke, and the
/// argument to hand it.
#[derive(Clone, PartialEq, Eq, Debug)]
pub struct HostCall {
    pub target: CallTarget,
    pub payload: HostValue,
}

/// What a deferred host value settled to: the resolved value, or the failure
/// the host reported, carrying its message.
#[derive(Clone, PartialEq, Eq, Debug)]
pub enum HostReply {
    Resolved(HostValue),
    Failed(String),
}

/// Process-wide count of transactions currently open. Observability only:
/// nothing reads it for control flow.
///
/// Exclusive borrows make every update a race-free increment or decrement
/// inside verified code; the embedding environment owes the same atomicity
/// wherever it mirrors this count outward.
pub struct ActiveTransactionGauge {
    count: u64,
}

impl ActiveTransactionGauge {
    /// The current count, for contracts.
    pub closed spec fn spec_count(self) -> u64 {
        self.count
    }

    /// A gauge with nothing open yet.
    pub fn new() -> (g: Self)
        ensures
            g.spec_count() == 0,
    {
        ActiveTransactionGauge { count: 0 }
    }

    /// Reads the current count.
    pub fn count(&self) -> (c: u64)
        ensures
            c == self.spec_count(),
    {
        self.count
    }

    /// Counts one more open transaction.
    fn increment(&mut self)
        requires
            old(self).spec_count() < u64::MAX,
        ensures
            final(self).spec_count() == old(self).spec_count() + 1,
    {
        self.count = self.count + 1;
    }

    /// Counts one transaction fewer.
    fn decrement(&mut self)
        requires
            old(self).spec_count() > 0,
        ensures
            final(self).spec_count() == old(self).spec_count() - 1,
    {
        self.count = self.count - 1;
    }
}

/// A proxy for the host driver object's basic querying primitives, bound to
/// one database family for its whole lifetime.
pub struct CommonProxy {
    flavour: String,
}

impl CommonProxy {
    /// The database family this proxy is bound to, for contracts.
    pub closed spec fn spec_flavour(self) -> String {
        self.flavour
    }

    /// Binds a proxy to the database family of the underlying host object.
    pub fn new(flavour: String) -> (p: Self)
        ensures
            p.spec_flavour() == flavour,
    {
        CommonProxy { flavour }
    }

    /// The database family this proxy is bound to; fixed at construction.
    pub fn flavour(&self) -> (f: &String)
        ensures
            *f == self.spec_flavour(),
    {
        &self.flavour
    }

    /// Issues "execute a query": the request addressed to the host's query
    /// callable, carrying exactly the encoding of `params`.
    pub fn query_raw(&self, params: Query) -> (c: HostCall)
        requires
            params.wf(),
        ensures
            c.target is QueryRaw,
            encodes_query(params, c.payload),
    {
        HostCall { target: CallTarget::QueryRaw, payload: encode_query(params) }
    }

    /// Completes "execute a query" once its deferred value settled: a host
    /// failure surfaces unchanged in meaning, a resolved value is decoded
    /// exactly, and a malformed one is a conversion error.
    pub fn complete_query_raw(&self, reply: HostReply) -> (r: Result<ResultSet, CallError>)
        ensures
            reply matches HostReply::Failed(m) ==> r == Err::<ResultSet, CallError>(
                CallError::Host(m),
            ),
            reply matches HostReply::Resolved(val) ==> {
                &&& r is Ok <==> wire_result_set_ok(val)
                &&& r matches Ok(rs) ==> rs.wf() && encodes_result_set(rs, val)
                &&& r matches Err(e) ==> e is Conversion
            },
    {
        match reply {
            HostReply::Failed(m) => Err(CallError::Host(m)),
            HostReply::Resolved(val) => decode_result_set(val),
        }
    }

    /// Issues "execute a statement and count affected rows": the request
    /// addressed to the host's execute callable, carrying exactly the
    /// encoding of `params`.
    pub fn execute_raw(&self, params: Query) -> (c: HostCall)
        requires
            params.wf(),
        ensures
            c.target is ExecuteRaw,
            encodes_query(params, c.payload),
    {
        HostCall { target: CallTarget::ExecuteRaw, payload: encode_query(params) }
    }

    /// Completes "execute a statement": the affected-row count is exactly
    /// the integer the host reported, a host failure surfaces unchanged, and
    /// anything not count-shaped is a conversion error.
    pub fn complete_execute_raw(&self, reply: HostReply) -> (r: Result<u32, CallError>)
        ensures
            reply matches HostReply::Failed(m) ==> r == Err::<u32, CallError>(CallError::Host(m)),
            reply matches HostReply::Resolved(val) ==> {
                &&& r is Ok <==> wire_row_count(val) is Some
                &&& r matches Ok(n) ==> wire_row_count(val) == Some(n)
                &&& r matches Err(e) ==> e is Conversion
            },
    {
        match reply {
            HostReply::Failed(m) => Err(CallError::Host(m)),
            HostReply::Resolved(val) => decode_row_count(val),
        }
    }
}

/// Where a transaction proxy stands in its life.
#[derive(Clone, Copy, PartialEq, Eq, Structural, Debug)]
pub enum TxState {
    /// Created on a successful begin; the only state that may issue commit
    /// or rollback.
    Open,
    /// A commit was completed, whatever the host answered.
    Committed,
    /// A rollback was completed, whatever the host answered.
    RolledBack,
}

/// The gauge share a transaction step releases: one share if the proxy was
/// counted at begin and is still open, none otherwise. A terminal step
/// releases the share exactly once, because it also leaves the open state.
pub open spec fn open_decrement(counted: bool, state: TxState) -> int {
    if counted && state is Open {
        1
    } else {
        0
    }
}

/// A proxy owning one open remote transaction: its opaque handle, the
/// configuration captured at start, and the lifecycle bookkeeping.
pub struct TransactionProxy {
    options: TransactionOptions,
    handle: u64,
    state: TxState,
    counted: bool,
}

/// A proxy for the host driver object's transaction control: it can begin a
/// transaction, producing a transaction proxy.
pub struct DriverProxy {
}

impl DriverProxy {
    /// A proxy over the host driver object's begin-transaction callable.
    pub fn new() -> Self {
        DriverProxy {  }
    }

    /// Issues "begin a transaction": a unit-argument request addressed to
    /// the host's begin callable.
    pub fn start_transaction(&self) -> (c: HostCall)
        ensures
            c.target is StartTransaction,
            c.payload is Unit,
    {
        HostCall { target: CallTarget::StartTransaction, payload: HostValue::Unit }
    }

    /// Completes "begin a transaction". The gauge counts the transaction
    /// only after the host confirmed it began: on success it rises by
    /// exactly one and the returned proxy holds that share; on any failure
    /// it is untouched.
    pub fn complete_start_transaction(
        &self,
        gauge: &mut ActiveTransactionGauge,
        reply: HostReply,
    ) -> (r: Result<TransactionProxy, CallError>)
        requires
            old(gauge).spec_count() < u64::MAX,
        ensures
            r matches Ok(tx) ==> {
                &&& final(gauge).spec_count() == old(gauge).spec_count() + 1
                &&& tx.spec_state() is Open
                &&& tx.spec_counted()
                &&& reply matches HostReply::Resolved(val) && encodes_transaction(
                    tx.spec_handle(),
                    tx.spec_options(),
                    val,
                )
            },
            r is Err ==> final(gauge).spec_count() == old(gauge).spec_count(),
            reply matches HostReply::Failed(m) ==> r == Err::<TransactionProxy, CallError>(
                CallError::Host(m),
            ),
            reply matches HostReply::Resolved(val) ==> {
                &&& r is Ok <==> wire_transaction_ok(val)
                &&& r matches Err(e) ==> e is Conversion
            },
    {
        match reply {
            HostReply::Failed(m) => Err(CallError::Host(m)),
            HostReply::Resolved(val) => match decode_transaction(val) {
                Ok((handle, options)) => {
                    gauge.increment();
                    Ok(TransactionProxy { options, handle, state: TxState::Open, counted: true })
                },
                Err(e) => Err(e),
            },
        }
    }
}

impl TransactionProxy {
    /// Where the proxy stands in its life, for contracts.
    pub closed spec fn spec_state(self) -> TxState {
        self.state
    }

    /// Whether this proxy still owes the gauge a decrement, for contracts.
    pub closed spec fn spec_counted(self) -> bool {
        self.counted
    }

    /// The opaque remote handle, for contracts.
    pub closed spec fn spec_handle(self) -> u64 {
        self.handle
    }

    /// The configuration captured at start, for contracts.
    pub closed spec fn spec_options(self) -> TransactionOptions {
        self.options
    }

    /// Wraps an already-open remote transaction handle. A proxy built this
    /// way holds no gauge share: only a begin completed through the driver
    /// proxy counts, so such a proxy never decrements the gauge either.
    pub fn new(handle: u64, options: TransactionOptions) -> (t: Self)
        ensures
            t.spec_state() is Open,
            !t.spec_counted(),
            t.spec_handle() == handle,
            t.spec_options() == options,
    {
        TransactionProxy { options, handle, state: TxState::Open, counted: false }
    }

    /// The configuration captured at transaction start; readable in any
    /// state and immutable for the transaction's lifetime.
    pub fn options(&self) -> (o: &TransactionOptions)
        ensures
            *o == self.spec_options(),
    {
        &self.options
    }

    /// Where the proxy stands in its life.
    pub fn state(&self) -> (s: TxState)
        ensures
            s == self.spec_state(),
    {
        self.state
    }

    /// The opaque handle of the remote transaction this proxy owns.
    pub fn handle(&self) -> (h: u64)
        ensures
            h == self.spec_handle(),
    {
        self.handle
    }

    /// Whether this proxy's begin raised the gauge and the decrement is
    /// still owed.
    pub fn is_counted(&self) -> (b: bool)
        ensures
            b == self.spec_counted(),
    {
        self.counted
    }

    /// Issues "commit": a unit-argument request, available only while open.
    pub fn commit(&self) -> (c: HostCall)
        requires
            self.spec_state() is Open,
        ensures
            c.target is Commit,
            c.payload is Unit,
    {
        HostCall { target: CallTarget::Commit, payload: HostValue::Unit }
    }

    /// Completes "commit". On any outcome the proxy leaves the open state
    /// for the committed state, and its gauge share — if it held one — is
    /// released here and never again. A host failure still surfaces to the
    /// caller.
    pub fn complete_commit(&mut self, gauge: &mut ActiveTransactionGauge, reply: HostReply) -> (r:
        Result<(), CallError>)
        requires
            old(self).spec_state() is Open,
            old(self).spec_counted() ==> old(gauge).spec_count() > 0,
        ensures
            final(self).spec_state() is Committed,
            final(self).spec_counted() == old(self).spec_counted(),
            final(self).spec_handle() == old(self).spec_handle(),
            final(self).spec_options() == old(self).spec_options(),
            final(gauge).spec_count() == old(gauge).spec_count() - open_decrement(
                old(self).spec_counted(),
                old(self).spec_state(),
            ),
            reply matches HostReply::Failed(m) ==> r == Err::<(), CallError>(CallError::Host(m)),
            reply matches HostReply::Resolved(val) ==> {
                &&& r is Ok <==> val is Unit
                &&& r matches Err(e) ==> e is Conversion
            },
    {
        self.state = TxState::Committed;
        if self.counted {
            gauge.decrement();
        }
        match reply {
            HostReply::Failed(m) => Err(CallError::Host(m)),
            HostReply::Resolved(val) => decode_unit(val),
        }
    }

    /// Issues "rollback": a unit-argument request, available only while
    /// open.
    pub fn rollback(&self) -> (c: HostCall)
        requires
            self.spec_state() is Open,
        ensures
            c.target is Rollback,
            c.payload is Unit,
    {
        HostCall { target: CallTarget::Rollback, payload: HostValue::Unit }
    }

    /// Completes "rollback". On any outcome the proxy leaves the open state
    /// for the rolled-back state, and its gauge share — if it held one — is
    /// released here and never again. A host failure still surfaces to the
    /// caller.
    pub fn complete_rollback(&mut self, gauge: &mut ActiveTransactionGauge, reply: HostReply) -> (r:
        Result<(), CallError>)
        requires
            old(self).spec_state() is Open,
            old(self).spec_counted() ==> old(gauge).spec_count() > 0,
        ensures
            final(self).spec_state() is RolledBack,
            final(self).spec_counted() == old(self).spec_counted(),
            final(self).spec_handle() == old(self).spec_handle(),
            final(self).spec_options() == old(self).spec_options(),
            final(gauge).spec_count() == old(gauge).spec_count() - open_decrement(
                old(self).spec_counted(),
                old(self).spec_state(),
            ),
            reply matches HostReply::Failed(m) ==> r == Err::<(), CallError>(CallError::Host(m)),
            reply matches HostReply::Resolved(val) ==> {
                &&& r is Ok <==> val is Unit
                &&& r matches Err(e) ==> e is Conversion
            },
    {
        self.state = TxState::RolledBack;
        if self.counted {
            gauge.decrement();
        }
        match reply {
            HostReply::Failed(m) => Err(CallError::Host(m)),
            HostReply::Resolved(val) => decode_unit(val),
        }
    }

    /// Releases the proxy, whatever state it reached. Consuming the proxy
    /// here is what makes the dispose notification leave exactly once per
    /// instance: the one returned request is it, it is fire-and-forget, and
    /// no failure of it can ever surface — this function returns no error
    /// and the request awaits no result. The gauge share is released here
    /// only for a proxy abandoned while still open; after a completed commit
    /// or rollback there is no share left, and none is touched.
    pub fn release(self, gauge: &mut ActiveTransactionGauge) -> (c: HostCall)
        requires
            self.spec_counted() && self.spec_state() is Open ==> old(gauge).spec_count() > 0,
        ensures
            c.target is Dispose,
            c.payload is Unit,
            final(gauge).spec_count() == old(gauge).spec_count() - open_decrement(
                self.spec_counted(),
                self.spec_state(),
            ),
    {
        if self.counted && matches!(self.state, TxState::Open) {
            gauge.decrement();
        }
        HostCall { target: CallTarget::Dispose, payload: HostValue::Unit }
    }
}

/// Law: a complete transaction lifecycle is gauge-neutral. A successful
/// begin adds one share, and the first step that leaves the open state —
/// completing a commit or rollback, or releasing a still-open proxy —
/// releases exactly that share, so the count returns to where it started.
pub proof fn lemma_lifecycle_gauge_neutral(g: int)
    ensures
        (g + 1) - open_decrement(true, TxState::Open) == g,
{
}

/// Law: after a completed commit or rollback the proxy holds no gauge
/// share, so the release that follows such a terminal call releases nothing
/// — one decrement in total per transaction, made by the terminal call.
pub proof fn lemma_terminal_then_release_decrements_once(counted: bool, g: int, terminal: TxState)
    requires
        terminal !is Open,
    ensures
        ({
            let after_terminal = g - open_decrement(counted, TxState::Open);
            let after_release = after_terminal - open_decrement(counted, terminal);
            &&& open_decrement(counted, terminal) == 0
            &&& after_release == after_terminal
            &&& counted ==> after_release == g - 1
        }),
{
}

/// Law: a proxy abandoned while still open — released without an explicit
/// commit or rollback — releases its share exactly once, at release time,
/// and the count returns to where it stood before its begin.
pub proof fn lemma_abandonment_releases_once(g: int)
    ensures
        (g + 1) - open_decrement(true, TxState::Open) == g,
        open_decrement(true, TxState::Open) == 1,
{
}

} // verus!
