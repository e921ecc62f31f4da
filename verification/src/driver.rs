//! The driver contract: every operation a backend must support, each as a
//! two-phase start/poll pair, expressed over an abstract model of the
//! driver's visible state.

use vstd::multiset::Multiset;
use vstd::prelude::*;

use crate::error::DbError;
use crate::value::ColumnType;
use crate::value::ColumnTypeModel;
use crate::value::SqlValue;
use crate::value::SqlValueModel;

verus! {

/// The concrete kind of resource an opaque [`Handle`] stands for.
///
/// A handle's kind is fixed at creation and checked, not assumed, at every
/// access; a failed check is a programming-contract violation
/// ([`DbError::HandleKindMismatch`]), not a normal error.
#[derive(Clone, Copy, Debug, PartialEq, Eq, Structural)]
pub enum HandleKind {
    /// An in-flight or established connection.
    Connection,
    /// An in-progress transaction.
    Transaction,
    /// A prepared statement.
    Statement,
    /// A forward-only cursor over query results.
    ResultSet,
    /// An in-flight non-row-returning execution.
    Exec,
}

/// An opaque reference to a driver-owned resource.
///
/// The identifier is issued by the driver; the façade never looks inside the
/// resource it names. A handle may be duplicated cheaply; the underlying
/// resource is released exactly once, by the one [`Database::close`] call
/// the owning façade object makes when it is dropped.
#[derive(Clone, Copy, Debug, PartialEq, Eq, Structural)]
pub struct Handle {
    /// The kind of resource the handle stands for.
    pub kind: HandleKind,
    /// The driver-issued identity of the resource.
    pub id: u64,
}

/// The outcome of one poll of a non-blocking operation: either the operation
/// has not completed yet, or it is ready with its result.
///
/// A caller abandoning a pending operation simply stops polling and releases
/// the handle; the driver must treat reclamation of a handle it never saw
/// reach completion as equivalent to closing it.
pub enum DbPoll<T> {
    /// The operation has not completed; poll again later.
    Pending,
    /// The operation completed with the given result.
    Ready(T),
}

/// The abstract state of one forward-only cursor.
pub ghost struct RsModel {
    /// Per-column metadata, in positional order.
    pub cols: Seq<ColumnTypeModel>,
    /// The row the cursor currently stands on, if any.
    pub row: Option<Seq<SqlValueModel>>,
    /// The rows the cursor has not reached yet, front first.
    pub remaining: Seq<Seq<SqlValueModel>>,
}

impl RsModel {
    /// Every row, current or not yet reached, has one value per column.
    pub open spec fn wf(self) -> bool {
        &&& (self.row matches Some(r) ==> r.len() == self.cols.len())
        &&& (forall|i: int|
            0 <= i < self.remaining.len() ==> (#[trigger] self.remaining[i]).len()
                == self.cols.len())
    }
}

/// The abstract, driver-visible state the contract is stated over: which
/// handles exist, what their cursors hold, and which operations have been
/// reported complete.
pub ghost struct DbModel {
    /// The identifiers of every handle the driver has issued and not yet
    /// released, of any kind.
    pub live: Set<u64>,
    /// The cursor state of each live result-set handle.
    pub cursors: Map<u64, RsModel>,
    /// How many times each identifier's release hook has fired.
    pub released: Multiset<u64>,
    /// The connection handles whose connect attempt has reported success.
    pub connected: Set<u64>,
    /// The statement handles whose preparation has reported success.
    pub prepared: Set<u64>,
    /// How many times each transaction handle's commit has reported
    /// success.
    pub committed: Multiset<u64>,
    /// How many times each transaction handle's rollback has reported
    /// success.
    pub rolled_back: Multiset<u64>,
    /// The reported outcome — last insert id and rows affected — of each
    /// execution handle whose run has reported completion.
    pub exec_results: Map<u64, (i64, i64)>,
}

/// No operation outcome was recorded in the step: what was reported
/// complete before is exactly what is reported complete after.
pub open spec fn same_outcomes(pre: DbModel, post: DbModel) -> bool {
    &&& post.connected == pre.connected
    &&& post.prepared == pre.prepared
    &&& post.committed == pre.committed
    &&& post.rolled_back == pre.rolled_back
    &&& post.exec_results == pre.exec_results
}

/// The identifier has never been issued nor released: the driver may issue
/// it for a new handle.
pub open spec fn fresh_id(m: DbModel, id: u64) -> bool {
    &&& !m.live.contains(id)
    &&& !m.cursors.contains_key(id)
    &&& m.released.count(id) == 0
    &&& !m.connected.contains(id)
    &&& !m.prepared.contains(id)
    &&& m.committed.count(id) == 0
    &&& m.rolled_back.count(id) == 0
    &&& !m.exec_results.contains_key(id)
}

/// One fresh non-cursor handle was issued; nothing else changed.
pub open spec fn allocates(pre: DbModel, post: DbModel, id: u64) -> bool {
    &&& fresh_id(pre, id)
    &&& post.live == pre.live.insert(id)
    &&& post.cursors == pre.cursors
    &&& post.released == pre.released
    &&& same_outcomes(pre, post)
}

/// One fresh cursor handle `id` was issued; nothing else changed. The new
/// cursor stands before its first row, with one value per column in every
/// row it will serve.
pub open spec fn allocates_cursor(pre: DbModel, post: DbModel, id: u64) -> bool {
    &&& fresh_id(pre, id)
    &&& post.live == pre.live.insert(id)
    &&& post.released == pre.released
    &&& same_outcomes(pre, post)
    &&& post.cursors.contains_key(id)
    &&& post.cursors == pre.cursors.insert(id, post.cursors[id])
    &&& post.cursors[id].row is None
    &&& post.cursors[id].wf()
}

/// The cursor named `id` moved from its state in `pre` to `rs`; every other
/// part of the model is unchanged.
pub open spec fn cursor_steps(pre: DbModel, post: DbModel, id: u64, rs: RsModel) -> bool {
    &&& pre.cursors.contains_key(id)
    &&& post.live == pre.live
    &&& post.cursors == pre.cursors.insert(id, rs)
    &&& post.released == pre.released
    &&& same_outcomes(pre, post)
}

/// The handle named `id` was released: it left the live set, its cursor
/// state (if any) is gone, and its release hook fired once more. Recorded
/// outcomes are history and survive the release.
pub open spec fn releases(pre: DbModel, post: DbModel, id: u64) -> bool {
    &&& post.live == pre.live.remove(id)
    &&& post.cursors == pre.cursors.remove(id)
    &&& post.released == pre.released.insert(id)
    &&& same_outcomes(pre, post)
}

/// The connect attempt behind handle `id` reported success; nothing else
/// moved.
pub open spec fn records_connect(pre: DbModel, post: DbModel, id: u64) -> bool {
    &&& post.live == pre.live
    &&& post.cursors == pre.cursors
    &&& post.released == pre.released
    &&& post.connected == pre.connected.insert(id)
    &&& post.prepared == pre.prepared
    &&& post.committed == pre.committed
    &&& post.rolled_back == pre.rolled_back
    &&& post.exec_results == pre.exec_results
}

/// The preparation behind statement handle `id` reported success; nothing
/// else moved.
pub open spec fn records_prepare(pre: DbModel, post: DbModel, id: u64) -> bool {
    &&& post.live == pre.live
    &&& post.cursors == pre.cursors
    &&& post.released == pre.released
    &&& post.connected == pre.connected
    &&& post.prepared == pre.prepared.insert(id)
    &&& post.committed == pre.committed
    &&& post.rolled_back == pre.rolled_back
    &&& post.exec_results == pre.exec_results
}

/// The commit of transaction handle `id` reported success; nothing else
/// moved.
pub open spec fn records_commit(pre: DbModel, post: DbModel, id: u64) -> bool {
    &&& post.live == pre.live
    &&& post.cursors == pre.cursors
    &&& post.released == pre.released
    &&& post.connected == pre.connected
    &&& post.prepared == pre.prepared
    &&& post.committed == pre.committed.insert(id)
    &&& post.rolled_back == pre.rolled_back
    &&& post.exec_results == pre.exec_results
}

/// The rollback of transaction handle `id` reported success; nothing else
/// moved.
pub open spec fn records_rollback(pre: DbModel, post: DbModel, id: u64) -> bool {
    &&& post.live == pre.live
    &&& post.cursors == pre.cursors
    &&& post.released == pre.released
    &&& post.connected == pre.connected
    &&& post.prepared == pre.prepared
    &&& post.committed == pre.committed
    &&& post.rolled_back == pre.rolled_back.insert(id)
    &&& post.exec_results == pre.exec_results
}

/// The execution behind handle `id` reported completion with `outcome` —
/// its last insert id and rows affected; nothing else moved.
pub open spec fn records_exec(pre: DbModel, post: DbModel, id: u64, outcome: (i64, i64)) -> bool {
    &&& post.live == pre.live
    &&& post.cursors == pre.cursors
    &&& post.released == pre.released
    &&& post.connected == pre.connected
    &&& post.prepared == pre.prepared
    &&& post.committed == pre.committed
    &&& post.rolled_back == pre.rolled_back
    &&& post.exec_results == pre.exec_results.insert(id, outcome)
}

/// The composite step of [`Registry::open`](crate::registry::Registry::open)
/// on success: a fresh connection handle was issued and its connect attempt
/// reported success.
pub open spec fn opens_connection(pre: DbModel, post: DbModel, id: u64) -> bool {
    &&& fresh_id(pre, id)
    &&& post.live == pre.live.insert(id)
    &&& post.cursors == pre.cursors
    &&& post.released == pre.released
    &&& post.connected == pre.connected.insert(id)
    &&& post.prepared == pre.prepared
    &&& post.committed == pre.committed
    &&& post.rolled_back == pre.rolled_back
    &&& post.exec_results == pre.exec_results
}

/// The composite step of a successful prepare: a fresh statement handle was
/// issued and its preparation reported success.
pub open spec fn prepares(pre: DbModel, post: DbModel, id: u64) -> bool {
    &&& fresh_id(pre, id)
    &&& post.live == pre.live.insert(id)
    &&& post.cursors == pre.cursors
    &&& post.released == pre.released
    &&& post.connected == pre.connected
    &&& post.prepared == pre.prepared.insert(id)
    &&& post.committed == pre.committed
    &&& post.rolled_back == pre.rolled_back
    &&& post.exec_results == pre.exec_results
}

/// The composite step of a successful [`Tx::commit`](crate::facade::Tx::commit):
/// the driver reported the commit complete and the handle was released.
pub open spec fn commits_and_releases(pre: DbModel, post: DbModel, id: u64) -> bool {
    &&& post.live == pre.live.remove(id)
    &&& post.cursors == pre.cursors.remove(id)
    &&& post.released == pre.released.insert(id)
    &&& post.connected == pre.connected
    &&& post.prepared == pre.prepared
    &&& post.committed == pre.committed.insert(id)
    &&& post.rolled_back == pre.rolled_back
    &&& post.exec_results == pre.exec_results
}

/// The composite step of a successful [`Tx::rollback`](crate::facade::Tx::rollback):
/// the driver reported the rollback complete and the handle was released.
pub open spec fn rolls_back_and_releases(pre: DbModel, post: DbModel, id: u64) -> bool {
    &&& post.live == pre.live.remove(id)
    &&& post.cursors == pre.cursors.remove(id)
    &&& post.released == pre.released.insert(id)
    &&& post.connected == pre.connected
    &&& post.prepared == pre.prepared
    &&& post.committed == pre.committed
    &&& post.rolled_back == pre.rolled_back.insert(id)
    &&& post.exec_results == pre.exec_results
}

/// The composite step of a successful [`Stmt::exec`](crate::facade::Stmt::exec):
/// a fresh execution handle was issued, its run reported completion with
/// `outcome`, and the handle was released again.
pub open spec fn performs_exec(pre: DbModel, post: DbModel, id: u64, outcome: (i64, i64)) -> bool {
    &&& fresh_id(pre, id)
    &&& post.live == pre.live
    &&& post.cursors == pre.cursors
    &&& post.released == pre.released.insert(id)
    &&& post.connected == pre.connected
    &&& post.prepared == pre.prepared
    &&& post.committed == pre.committed
    &&& post.rolled_back == pre.rolled_back
    &&& post.exec_results == pre.exec_results.insert(id, outcome)
}

/// The capability contract every backend implements.
///
/// Every potentially-slow operation is split into an immediate `start_*`,
/// which may fail synchronously, and a repeatable `poll_*`, which never
/// blocks: a cooperative scheduler can interleave many in-flight operations,
/// while a driver backed by a blocking native library may complete the work
/// inside `start_*` and have `poll_*` report immediate readiness.
///
/// A driver instance is expected to be shareable between threads; result
/// sets, by contrast, are single-owner forward-only cursors, and the façade
/// issues operations on any one handle strictly sequentially.
pub trait Database: Sized {
    /// The internal well-formedness of this driver instance, preserved by
    /// every operation.
    spec fn inv(&self) -> bool;

    /// The driver's visible state: live handles, cursor states, and release
    /// events.
    spec fn model(&self) -> DbModel;

    /// An upper bound on how many more times the driver may report
    /// [`DbPoll::Pending`] before some in-flight operation completes: every
    /// pending poll strictly lowers it. This is the driver's cooperative
    /// progress obligation; it is what lets a caller drive any operation to
    /// completion by polling. A driver that completes synchronously simply
    /// keeps it at zero.
    spec fn pending_bound(&self) -> nat;

    /// Begins establishing a connection described by an opaque,
    /// driver-specific source name. Returns immediately with a fresh
    /// connection handle, or fails synchronously (for example on a malformed
    /// source name) leaving the visible state unchanged.
    fn start_connect(&mut self, source_name: &str) -> (r: Result<Handle, DbError>)
        requires
            old(self).inv(),
        ensures
            final(self).inv(),
            match r {
                Ok(h) => h.kind == HandleKind::Connection && allocates(
                    old(self).model(),
                    final(self).model(),
                    h.id,
                ),
                Err(_) => final(self).model() == old(self).model(),
            },
    ;

    /// Advances or checks the connection attempt begun by
    /// [`start_connect`](Database::start_connect). Safe to call repeatedly
    /// until it reports completion; a ready error leaves the connection
    /// unusable (its handle is still released by the owner).
    fn poll_connect(&mut self, conn: &Handle) -> (r: DbPoll<Result<(), DbError>>)
        requires
            old(self).inv(),
        ensures
            final(self).inv(),
            r is Pending ==> final(self).pending_bound() < old(self).pending_bound(),
            match r {
                DbPoll::Ready(Ok(_)) => records_connect(
                    old(self).model(),
                    final(self).model(),
                    conn.id,
                ),
                _ => final(self).model() == old(self).model(),
            },
    ;

    /// Starts a transaction via one connection; the isolation level is the
    /// driver's default. On readiness with success, yields a fresh
    /// transaction handle.
    fn begin(&mut self, conn: &Handle) -> (r: DbPoll<Result<Handle, DbError>>)
        requires
            old(self).inv(),
        ensures
            final(self).inv(),
            r is Pending ==> final(self).pending_bound() < old(self).pending_bound(),
            match r {
                DbPoll::Ready(Ok(h)) => h.kind == HandleKind::Transaction && allocates(
                    old(self).model(),
                    final(self).model(),
                    h.id,
                ),
                _ => final(self).model() == old(self).model(),
            },
    ;

    /// Commits the transaction: on ready success the commit is recorded as
    /// this transaction's reported outcome. After it reports ready, with or
    /// without error, the transaction handle must not be reused.
    fn commit(&mut self, tx: &Handle) -> (r: DbPoll<Result<(), DbError>>)
        requires
            old(self).inv(),
        ensures
            final(self).inv(),
            r is Pending ==> final(self).pending_bound() < old(self).pending_bound(),
            match r {
                DbPoll::Ready(Ok(_)) => records_commit(
                    old(self).model(),
                    final(self).model(),
                    tx.id,
                ),
                _ => final(self).model() == old(self).model(),
            },
    ;

    /// Aborts the transaction: on ready success the rollback is recorded as
    /// this transaction's reported outcome. After it reports ready, with or
    /// without error, the transaction handle must not be reused.
    fn rollback(&mut self, tx: &Handle) -> (r: DbPoll<Result<(), DbError>>)
        requires
            old(self).inv(),
        ensures
            final(self).inv(),
            r is Pending ==> final(self).pending_bound() < old(self).pending_bound(),
            match r {
                DbPoll::Ready(Ok(_)) => records_rollback(
                    old(self).model(),
                    final(self).model(),
                    tx.id,
                ),
                _ => final(self).model() == old(self).model(),
            },
    ;

    /// Begins compiling a query against either a bare connection or an open
    /// transaction: the driver accepts either handle kind and dispatches on
    /// its concrete identity. On success, returns a fresh statement handle
    /// whose readiness [`poll_prepare`](Database::poll_prepare) reports.
    fn start_prepare(&mut self, conn_or_tx: &Handle, query: &str) -> (r: Result<Handle, DbError>)
        requires
            old(self).inv(),
        ensures
            final(self).inv(),
            match r {
                Ok(h) => h.kind == HandleKind::Statement && (conn_or_tx.kind
                    == HandleKind::Connection || conn_or_tx.kind == HandleKind::Transaction)
                    && allocates(old(self).model(), final(self).model(), h.id),
                Err(_) => final(self).model() == old(self).model(),
            },
    ;

    /// Advances or checks the preparation begun by
    /// [`start_prepare`](Database::start_prepare): on ready success the
    /// statement is recorded as prepared.
    fn poll_prepare(&mut self, stmt: &Handle) -> (r: DbPoll<Result<(), DbError>>)
        requires
            old(self).inv(),
        ensures
            final(self).inv(),
            r is Pending ==> final(self).pending_bound() < old(self).pending_bound(),
            match r {
                DbPoll::Ready(Ok(_)) => records_prepare(
                    old(self).model(),
                    final(self).model(),
                    stmt.id,
                ),
                _ => final(self).model() == old(self).model(),
            },
    ;

    /// Binds `values` positionally to a prepared statement and begins a
    /// row-returning query. On success, returns a fresh result-set handle
    /// whose cursor stands before the first row.
    fn start_query(&mut self, stmt: &Handle, values: &[SqlValue]) -> (r: Result<Handle, DbError>)
        requires
            old(self).inv(),
        ensures
            final(self).inv(),
            match r {
                Ok(h) => h.kind == HandleKind::ResultSet && allocates_cursor(
                    old(self).model(),
                    final(self).model(),
                    h.id,
                ),
                Err(_) => final(self).model() == old(self).model(),
            },
    ;

    /// Moves the cursor to the next available row of the result set, if one
    /// exists, and reports whether it does. `false` means exhausted: once
    /// the remaining rows are out, every further poll keeps reporting
    /// `false`, never an error and never a row.
    fn poll_next(&mut self, result_set: &Handle) -> (r: DbPoll<Result<bool, DbError>>)
        requires
            old(self).inv(),
        ensures
            final(self).inv(),
            r is Pending ==> final(self).pending_bound() < old(self).pending_bound(),
            match r {
                DbPoll::Ready(Ok(b)) => {
                    let pre = old(self).model().cursors[result_set.id];
                    &&& old(self).model().cursors.contains_key(result_set.id)
                    &&& if b {
                        &&& pre.remaining.len() > 0
                        &&& cursor_steps(
                            old(self).model(),
                            final(self).model(),
                            result_set.id,
                            RsModel {
                                cols: pre.cols,
                                row: Some(pre.remaining[0]),
                                remaining: pre.remaining.drop_first(),
                            },
                        )
                    } else {
                        &&& pre.remaining.len() == 0
                        &&& cursor_steps(
                            old(self).model(),
                            final(self).model(),
                            result_set.id,
                            RsModel { cols: pre.cols, row: None, remaining: pre.remaining },
                        )
                    }
                },
                _ => final(self).model() == old(self).model(),
            },
            result_set.kind == HandleKind::ResultSet && old(self).model().cursors.contains_key(
                result_set.id,
            ) && old(self).model().cursors[result_set.id].remaining.len() == 0 ==> !(r
                matches DbPoll::Ready(Err(_))),
    ;

    /// Fetches one field of the current row; `col` is zero-based. Never
    /// moves the cursor. An index at or past the column count is an error,
    /// never undefined behavior, as is a fetch while the cursor stands on no
    /// row.
    fn poll_value(&mut self, result_set: &Handle, col: usize) -> (r: DbPoll<
        Result<SqlValue, DbError>,
    >)
        requires
            old(self).inv(),
        ensures
            final(self).inv(),
            r is Pending ==> final(self).pending_bound() < old(self).pending_bound(),
            final(self).model() == old(self).model(),
            match r {
                DbPoll::Ready(Ok(v)) => {
                    let rs = final(self).model().cursors[result_set.id];
                    &&& final(self).model().cursors.contains_key(result_set.id)
                    &&& rs.row matches Some(row) && col < row.len() && v@ == row[col as int]
                },
                _ => true,
            },
    ;

    /// Binds `values` positionally and begins a non-row-returning execution.
    /// On success, returns a fresh handle whose completion
    /// [`poll_exec`](Database::poll_exec) reports.
    fn start_exec(&mut self, stmt: &Handle, values: &[SqlValue]) -> (r: Result<Handle, DbError>)
        requires
            old(self).inv(),
        ensures
            final(self).inv(),
            match r {
                Ok(h) => h.kind == HandleKind::Exec && allocates(
                    old(self).model(),
                    final(self).model(),
                    h.id,
                ),
                Err(_) => final(self).model() == old(self).model(),
            },
    ;

    /// Advances or checks the execution begun by
    /// [`start_exec`](Database::start_exec). On ready success, yields the
    /// last insert id and the number of rows affected, and that very pair is
    /// recorded as the handle's reported outcome.
    fn poll_exec(&mut self, result: &Handle) -> (r: DbPoll<Result<(i64, i64), DbError>>)
        requires
            old(self).inv(),
        ensures
            final(self).inv(),
            r is Pending ==> final(self).pending_bound() < old(self).pending_bound(),
            match r {
                DbPoll::Ready(Ok(outcome)) => records_exec(
                    old(self).model(),
                    final(self).model(),
                    result.id,
                    outcome,
                ),
                _ => final(self).model() == old(self).model(),
            },
    ;

    /// Reports the column names of the result set, in positional order.
    /// Fails if the result set has been closed.
    fn poll_cols(&mut self, result_set: &Handle) -> (r: DbPoll<Result<Vec<String>, DbError>>)
        requires
            old(self).inv(),
        ensures
            final(self).inv(),
            r is Pending ==> final(self).pending_bound() < old(self).pending_bound(),
            final(self).model() == old(self).model(),
            match r {
                DbPoll::Ready(Ok(names)) => {
                    let rs = final(self).model().cursors[result_set.id];
                    &&& final(self).model().cursors.contains_key(result_set.id)
                    &&& names@.len() == rs.cols.len()
                    &&& forall|i: int|
                        0 <= i < names@.len() ==> (#[trigger] names@[i])@ == rs.cols[i].name
                },
                _ => true,
            },
    ;

    /// Reports the column descriptors of the result set, in positional
    /// order. Fails if the result set has been closed.
    fn poll_col_types(&mut self, result_set: &Handle) -> (r: DbPoll<
        Result<Vec<ColumnType>, DbError>,
    >)
        requires
            old(self).inv(),
        ensures
            final(self).inv(),
            r is Pending ==> final(self).pending_bound() < old(self).pending_bound(),
            final(self).model() == old(self).model(),
            match r {
                DbPoll::Ready(Ok(types)) => {
                    let rs = final(self).model().cursors[result_set.id];
                    &&& final(self).model().cursors.contains_key(result_set.id)
                    &&& types@.len() == rs.cols.len()
                    &&& forall|i: int| 0 <= i < types@.len() ==> (#[trigger] types@[i])@
                        == rs.cols[i]
                },
                _ => true,
            },
    ;

    /// Releases the resource behind a live handle: the one place a release
    /// hook fires. Reclaiming a handle whose operation never reached
    /// completion is equivalent to closing it; driver-specific cleanup runs
    /// exactly once per handle, because a released identifier never becomes
    /// live again.
    fn close(&mut self, handle: Handle)
        requires
            old(self).inv(),
            old(self).model().live.contains(handle.id),
        ensures
            final(self).inv(),
            releases(old(self).model(), final(self).model(), handle.id),
    ;
}

} // verus!
