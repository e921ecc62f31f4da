//! The client façade: the four cooperating lifecycle objects that sequence
//! contract calls into safe, linear lifecycles and hide the start/poll
//! protocol behind one request-and-wait operation per logical action.
//!
//! A façade object holds only the opaque handle of the resource it owns; the
//! driver instance is handed to each operation. Terminal operations take the
//! object by value, so a handle can neither be used after release nor
//! released twice: the release hook behind [`Database::close`] fires exactly
//! once per handle, whether the lifecycle ends normally, early, or in error.
//!
//! Release is explicit: the verifier checks no `Drop` implementations, so
//! the exactly-once guarantee covers every lifecycle that ends in one of
//! the `close`, `commit`, or `rollback` calls. A caller that drops a façade
//! object without its terminal call leaks the driver-side resource — it is
//! never released twice, but that release is the caller's to trigger (a
//! host may wrap these objects in its own release-on-drop guards).

use vstd::prelude::*;

use crate::driver::allocates;
use crate::driver::allocates_cursor;
use crate::driver::commits_and_releases;
use crate::driver::cursor_steps;
use crate::driver::fresh_id;
use crate::driver::performs_exec;
use crate::driver::prepares;
use crate::driver::releases;
use crate::driver::same_outcomes;
use crate::driver::Database;
use crate::driver::DbModel;
use crate::driver::DbPoll;
use crate::driver::Handle;
use crate::driver::HandleKind;
use crate::driver::rolls_back_and_releases;
use crate::driver::RsModel;
use crate::error::DbError;
use crate::text::str_eq;
use crate::value::ColumnType;
use crate::value::ColumnTypeModel;
use crate::value::SqlValue;

verus! {

/// Every handle the driver held before still stands, no cursor state moved,
/// and no release hook fired: the step at most issued new handles.
pub open spec fn preserves(pre: DbModel, post: DbModel) -> bool {
    &&& post.released == pre.released
    &&& post.cursors == pre.cursors
    &&& forall|i: u64| pre.live.contains(i) ==> post.live.contains(i)
}

/// A fresh handle `id` was issued and released again within the step: the
/// live set and the cursors are back where they were, and exactly one new
/// release event, for `id`, was recorded.
pub open spec fn spends(pre: DbModel, post: DbModel, id: u64) -> bool {
    &&& fresh_id(pre, id)
    &&& post.live == pre.live
    &&& post.cursors == pre.cursors
    &&& post.released == pre.released.insert(id)
    &&& same_outcomes(pre, post)
}

/// Law: while a façade object is usable, its handle's release hook has
/// never fired, and no step another façade object can cause — issuing
/// handles ([`preserves`]), spending an internal handle ([`spends`]),
/// moving a cursor ([`cursor_steps`]), or completing and releasing some
/// other handle (any step whose one new release event names another
/// identifier) — fires it either: the hook of a live, unreleased handle
/// stays unfired until its own release.
pub proof fn lemma_open_handle_stays_unreleased(
    pre: DbModel,
    post: DbModel,
    id: u64,
    eid: u64,
    rs: RsModel,
)
    requires
        pre.live.contains(id),
        pre.released.count(id) == 0,
        preserves(pre, post) || spends(pre, post, eid) || cursor_steps(pre, post, eid, rs) || (eid
            != id && post.released == pre.released.insert(eid) && (post.live == pre.live
            || post.live == pre.live.remove(eid))),
    ensures
        post.live.contains(id),
        post.released.count(id) == 0,
{
    if spends(pre, post, eid) {
        assert(eid != id);
    }
}

/// Law: handle release is exactly-once. Releasing a handle whose hook has
/// never fired — every usable façade object's handle, by
/// [`lemma_open_handle_stays_unreleased`] — fires the hook exactly once,
/// and the handle leaves the live set for good, so no façade operation,
/// release included, can ever apply to it again.
pub proof fn lemma_release_fires_exactly_once(pre: DbModel, post: DbModel, id: u64)
    requires
        pre.released.count(id) == 0,
        releases(pre, post, id),
    ensures
        post.released.count(id) == 1,
        !post.live.contains(id),
{
}

/// Law: cursor exhaustion is idempotent. The step [`ResultSet::next`] takes
/// when it answers `Ok(false)` leaves the cursor exhausted again — no rows
/// remaining and no current row — so by the contract of `next` every later
/// call on the same result set keeps answering `Ok(false)`, and by the
/// contract of [`ResultSet::get`] every fetch on it stays rejected.
pub proof fn lemma_exhaustion_idempotent(pre: DbModel, post: DbModel, id: u64)
    requires
        pre.cursors.contains_key(id),
        pre.cursors[id].remaining.len() == 0,
        cursor_steps(
            pre,
            post,
            id,
            RsModel {
                cols: pre.cursors[id].cols,
                row: None,
                remaining: pre.cursors[id].remaining,
            },
        ),
    ensures
        post.cursors.contains_key(id),
        post.cursors[id].remaining.len() == 0,
        post.cursors[id].row is None,
{
}

/// The columns of `cols`, as their mathematical images.
pub open spec fn cols_model(cols: Seq<ColumnType>) -> Seq<ColumnTypeModel> {
    cols.map_values(|c: ColumnType| c@)
}

/// `i` names the first descriptor in `cols` whose name is `name`.
pub open spec fn is_first_match(cols: Seq<ColumnTypeModel>, name: Seq<char>, i: int) -> bool {
    &&& 0 <= i < cols.len()
    &&& cols[i].name == name
    &&& forall|j: int| 0 <= j < i ==> (#[trigger] cols[j]).name != name
}

/// Some descriptor in `cols` is named `name`.
pub open spec fn has_col(cols: Seq<ColumnTypeModel>, name: Seq<char>) -> bool {
    exists|i: int| 0 <= i < cols.len() && (#[trigger] cols[i]).name == name
}

/// Represents a database connection.
pub struct DbConn {
    /// The connection handle issued by the driver.
    pub handle: Handle,
}

/// Tx is an in-progress database transaction.
pub struct Tx {
    /// The transaction handle issued by the driver.
    pub handle: Handle,
}

/// Represents a prepared statement.
pub struct Stmt {
    /// The statement handle issued by the driver.
    pub handle: Handle,
}

/// Represents a query result set: a forward-only cursor over rows, owned by
/// one caller, which must issue its operations sequentially.
pub struct ResultSet {
    /// The result-set handle issued by the driver.
    pub handle: Handle,
}

impl DbConn {
    /// The connection is usable against a driver in state `m`: its handle is
    /// live, its connect attempt reported success, and its release hook has
    /// never fired. A connection whose connect reported a ready error never
    /// satisfies this, so it cannot be handed out or used.
    pub open spec fn wf(&self, m: DbModel) -> bool {
        &&& self.handle.kind == HandleKind::Connection
        &&& m.live.contains(self.handle.id)
        &&& m.released.count(self.handle.id) == 0
        &&& m.connected.contains(self.handle.id)
    }

    /// Creates a prepared statement for later queries or executions: starts
    /// the preparation and drives it to completion against this connection.
    ///
    /// On success the fresh statement is usable; on failure every handle the
    /// driver held before is untouched, and at most one fresh statement
    /// handle was issued and already released again.
    pub fn prepare<D: Database>(&self, db: &mut D, query: &str) -> (r: Result<Stmt, DbError>)
        requires
            old(db).inv(),
            self.wf(old(db).model()),
        ensures
            final(db).inv(),
            self.wf(final(db).model()),
            match r {
                Ok(stmt) => {
                    &&& stmt.wf(final(db).model())
                    &&& prepares(old(db).model(), final(db).model(), stmt.handle.id)
                },
                Err(_) => final(db).model() == old(db).model() || (exists|eid: u64|
                    spends(old(db).model(), final(db).model(), eid)),
            },
    {
        prepare_on(&self.handle, db, query)
    }

    /// Starts a transaction and drives it to completion. On failure no
    /// handle was issued and the driver's visible state is untouched.
    #[verifier::loop_isolation(false)]
    pub fn begin<D: Database>(&self, db: &mut D) -> (r: Result<Tx, DbError>)
        requires
            old(db).inv(),
            self.wf(old(db).model()),
        ensures
            final(db).inv(),
            self.wf(final(db).model()),
            match r {
                Ok(tx) => {
                    &&& tx.wf(final(db).model())
                    &&& fresh_id(old(db).model(), tx.handle.id)
                    &&& allocates(old(db).model(), final(db).model(), tx.handle.id)
                },
                Err(_) => final(db).model() == old(db).model(),
            },
    {
        let ghost m0 = db.model();
        loop
            invariant
                db.inv(),
                db.model() == m0,
            decreases db.pending_bound(),
        {
            match db.begin(&self.handle) {
                DbPoll::Pending => {},
                DbPoll::Ready(Ok(tx_handle)) => {
                    return Ok(Tx { handle: tx_handle });
                },
                DbPoll::Ready(Err(e)) => {
                    return Err(e);
                },
            }
        }
    }

    /// Releases the connection's underlying resource. The one release hook
    /// for this handle fires here, exactly once.
    pub fn close<D: Database>(self, db: &mut D)
        requires
            old(db).inv(),
            self.wf(old(db).model()),
        ensures
            final(db).inv(),
            releases(old(db).model(), final(db).model(), self.handle.id),
            final(db).model().released.count(self.handle.id) == 1,
    {
        db.close(self.handle);
    }
}

/// Shared body of `DbConn::prepare` and `Tx::prepare`: the contract accepts
/// either handle kind and dispatches on its concrete identity.
#[verifier::loop_isolation(false)]
fn prepare_on<D: Database>(conn_or_tx: &Handle, db: &mut D, query: &str) -> (r: Result<
    Stmt,
    DbError,
>)
    requires
        old(db).inv(),
        old(db).model().live.contains(conn_or_tx.id),
        old(db).model().released.count(conn_or_tx.id) == 0,
    ensures
        final(db).inv(),
        final(db).model().live.contains(conn_or_tx.id),
        final(db).model().released.count(conn_or_tx.id) == 0,
        match r {
            Ok(stmt) => {
                &&& stmt.wf(final(db).model())
                &&& prepares(old(db).model(), final(db).model(), stmt.handle.id)
            },
            Err(_) => final(db).model() == old(db).model() || (exists|eid: u64|
                spends(old(db).model(), final(db).model(), eid)),
        },
{
    let ghost m0 = db.model();
    let stmt_handle = match db.start_prepare(conn_or_tx, query) {
        Ok(h) => h,
        Err(e) => {
            return Err(e);
        },
    };
    loop
        invariant
            db.inv(),
            stmt_handle.kind == HandleKind::Statement,
            allocates(m0, db.model(), stmt_handle.id),
        decreases db.pending_bound(),
    {
        match db.poll_prepare(&stmt_handle) {
            DbPoll::Pending => {},
            DbPoll::Ready(Ok(())) => {
                proof {
                    assert(prepares(m0, db.model(), stmt_handle.id));
                }
                return Ok(Stmt { handle: stmt_handle });
            },
            DbPoll::Ready(Err(e)) => {
                db.close(stmt_handle);
                proof {
                    assert(db.model().live =~= m0.live);
                    assert(db.model().cursors =~= m0.cursors);
                    assert(spends(m0, db.model(), stmt_handle.id));
                }
                return Err(e);
            },
        }
    }
}

impl Tx {
    /// The transaction is usable against a driver in state `m`: its handle
    /// is live, neither commit nor rollback has completed for it, and its
    /// release hook has never fired.
    pub open spec fn wf(&self, m: DbModel) -> bool {
        &&& self.handle.kind == HandleKind::Transaction
        &&& m.live.contains(self.handle.id)
        &&& m.released.count(self.handle.id) == 0
        &&& m.committed.count(self.handle.id) == 0
        &&& m.rolled_back.count(self.handle.id) == 0
    }

    /// Creates a prepared statement for later queries or executions,
    /// compiled against this transaction rather than a bare connection.
    pub fn prepare<D: Database>(&self, db: &mut D, query: &str) -> (r: Result<Stmt, DbError>)
        requires
            old(db).inv(),
            self.wf(old(db).model()),
        ensures
            final(db).inv(),
            self.wf(final(db).model()),
            match r {
                Ok(stmt) => {
                    &&& stmt.wf(final(db).model())
                    &&& prepares(old(db).model(), final(db).model(), stmt.handle.id)
                },
                Err(_) => final(db).model() == old(db).model() || (exists|eid: u64|
                    spends(old(db).model(), final(db).model(), eid)),
            },
    {
        prepare_on(&self.handle, db, query)
    }

    /// Commits the transaction — drives the driver's commit operation to
    /// completion and returns its outcome verbatim — then releases the
    /// handle. Commit is valid exactly once per transaction; on success the
    /// commit is recorded as this transaction's one terminal outcome, and
    /// the release hook fires exactly once whatever the backend answered.
    #[verifier::loop_isolation(false)]
    pub fn commit<D: Database>(self, db: &mut D) -> (r: Result<(), DbError>)
        requires
            old(db).inv(),
            self.wf(old(db).model()),
        ensures
            final(db).inv(),
            final(db).model().released.count(self.handle.id) == 1,
            final(db).model().rolled_back.count(self.handle.id) == 0,
            match r {
                Ok(_) => {
                    &&& commits_and_releases(old(db).model(), final(db).model(), self.handle.id)
                    &&& final(db).model().committed.count(self.handle.id) == 1
                },
                Err(_) => releases(old(db).model(), final(db).model(), self.handle.id),
            },
    {
        let ghost m0 = db.model();
        loop
            invariant
                db.inv(),
                db.model() == m0,
                self.wf(db.model()),
            decreases db.pending_bound(),
        {
            match db.commit(&self.handle) {
                DbPoll::Pending => {},
                DbPoll::Ready(Ok(())) => {
                    db.close(self.handle);
                    return Ok(());
                },
                DbPoll::Ready(Err(e)) => {
                    db.close(self.handle);
                    return Err(e);
                },
            }
        }
    }

    /// Rolls the transaction back — drives the driver's rollback operation
    /// to completion and returns its outcome verbatim — then releases the
    /// handle. Rollback is valid exactly once per transaction; on success
    /// the rollback is recorded as this transaction's one terminal outcome
    /// (never a commit), and the release hook fires exactly once whatever
    /// the backend answered.
    #[verifier::loop_isolation(false)]
    pub fn rollback<D: Database>(self, db: &mut D) -> (r: Result<(), DbError>)
        requires
            old(db).inv(),
            self.wf(old(db).model()),
        ensures
            final(db).inv(),
            final(db).model().released.count(self.handle.id) == 1,
            final(db).model().committed.count(self.handle.id) == 0,
            match r {
                Ok(_) => {
                    &&& rolls_back_and_releases(old(db).model(), final(db).model(), self.handle.id)
                    &&& final(db).model().rolled_back.count(self.handle.id) == 1
                },
                Err(_) => releases(old(db).model(), final(db).model(), self.handle.id),
            },
    {
        let ghost m0 = db.model();
        loop
            invariant
                db.inv(),
                db.model() == m0,
                self.wf(db.model()),
            decreases db.pending_bound(),
        {
            match db.rollback(&self.handle) {
                DbPoll::Pending => {},
                DbPoll::Ready(Ok(())) => {
                    db.close(self.handle);
                    return Ok(());
                },
                DbPoll::Ready(Err(e)) => {
                    db.close(self.handle);
                    return Err(e);
                },
            }
        }
    }

    /// Releases the transaction's handle without committing or rolling
    /// back; the logical outcome is the driver's default. The release hook
    /// fires exactly once.
    pub fn close<D: Database>(self, db: &mut D)
        requires
            old(db).inv(),
            self.wf(old(db).model()),
        ensures
            final(db).inv(),
            releases(old(db).model(), final(db).model(), self.handle.id),
            final(db).model().released.count(self.handle.id) == 1,
    {
        db.close(self.handle);
    }
}

impl Stmt {
    /// The statement is usable against a driver in state `m`: its handle is
    /// live, its preparation reported success, and its release hook has
    /// never fired.
    pub open spec fn wf(&self, m: DbModel) -> bool {
        &&& self.handle.kind == HandleKind::Statement
        &&& m.live.contains(self.handle.id)
        &&& m.released.count(self.handle.id) == 0
        &&& m.prepared.contains(self.handle.id)
    }

    /// Executes a prepared query statement with the given arguments and
    /// returns the query results.
    ///
    /// Only the start operation runs here — a synchronous failure surfaces
    /// immediately and leaves the driver's visible state untouched — and the
    /// returned result set is lazy until iterated: its fresh cursor stands
    /// before the first row.
    pub fn query<D: Database>(&self, db: &mut D, values: &[SqlValue]) -> (r: Result<
        ResultSet,
        DbError,
    >)
        requires
            old(db).inv(),
            self.wf(old(db).model()),
        ensures
            final(db).inv(),
            self.wf(final(db).model()),
            match r {
                Ok(rs) => {
                    &&& rs.wf(final(db).model())
                    &&& fresh_id(old(db).model(), rs.handle.id)
                    &&& allocates_cursor(old(db).model(), final(db).model(), rs.handle.id)
                },
                Err(_) => final(db).model() == old(db).model(),
            },
    {
        match db.start_query(&self.handle, values) {
            Ok(h) => Ok(ResultSet { handle: h }),
            Err(e) => Err(e),
        }
    }

    /// Executes a prepared statement with the given arguments and drives it
    /// to completion: the pair it returns on success — the last insert id
    /// and the number of rows affected — is exactly the outcome the
    /// driver's execution reported.
    ///
    /// The in-flight execution handle is internal: it is released here,
    /// exactly once, whether the execution succeeded or failed.
    #[verifier::loop_isolation(false)]
    pub fn exec<D: Database>(&self, db: &mut D, values: &[SqlValue]) -> (r: Result<
        (i64, i64),
        DbError,
    >)
        requires
            old(db).inv(),
            self.wf(old(db).model()),
        ensures
            final(db).inv(),
            self.wf(final(db).model()),
            match r {
                Ok(outcome) => exists|eid: u64|
                    performs_exec(old(db).model(), final(db).model(), eid, outcome),
                Err(_) => final(db).model() == old(db).model() || (exists|eid: u64|
                    spends(old(db).model(), final(db).model(), eid)),
            },
    {
        let ghost m0 = db.model();
        let result_handle = match db.start_exec(&self.handle, values) {
            Ok(h) => h,
            Err(e) => {
                return Err(e);
            },
        };
        loop
            invariant
                db.inv(),
                allocates(m0, db.model(), result_handle.id),
            decreases db.pending_bound(),
        {
            match db.poll_exec(&result_handle) {
                DbPoll::Pending => {},
                DbPoll::Ready(Ok(outcome)) => {
                    db.close(result_handle);
                    proof {
                        assert(db.model().live =~= m0.live);
                        assert(db.model().cursors =~= m0.cursors);
                        assert(performs_exec(m0, db.model(), result_handle.id, outcome));
                    }
                    return Ok(outcome);
                },
                DbPoll::Ready(Err(e)) => {
                    db.close(result_handle);
                    proof {
                        assert(db.model().live =~= m0.live);
                        assert(db.model().cursors =~= m0.cursors);
                        assert(spends(m0, db.model(), result_handle.id));
                    }
                    return Err(e);
                },
            }
        }
    }

    /// Releases the statement's underlying resource. The one release hook
    /// for this handle fires here, exactly once.
    pub fn close<D: Database>(self, db: &mut D)
        requires
            old(db).inv(),
            self.wf(old(db).model()),
        ensures
            final(db).inv(),
            releases(old(db).model(), final(db).model(), self.handle.id),
            final(db).model().released.count(self.handle.id) == 1,
    {
        db.close(self.handle);
    }
}

impl ResultSet {
    /// The result set is usable against a driver in state `m`: its handle is
    /// live with cursor state, and its release hook has never fired.
    pub open spec fn wf(&self, m: DbModel) -> bool {
        &&& self.handle.kind == HandleKind::ResultSet
        &&& m.live.contains(self.handle.id)
        &&& m.released.count(self.handle.id) == 0
        &&& m.cursors.contains_key(self.handle.id)
        &&& m.cursors[self.handle.id].wf()
    }

    /// The cursor state of this result set in driver state `m`.
    pub open spec fn cursor(&self, m: DbModel) -> RsModel {
        m.cursors[self.handle.id]
    }

    /// Prepares the next result row for reading, if one exists, and reports
    /// whether it does.
    ///
    /// `false` means exhausted, idempotently: once the rows are out, every
    /// further call keeps answering `Ok(false)`.
    #[verifier::loop_isolation(false)]
    pub fn next<D: Database>(&self, db: &mut D) -> (r: Result<bool, DbError>)
        requires
            old(db).inv(),
            self.wf(old(db).model()),
        ensures
            final(db).inv(),
            self.wf(final(db).model()),
            match r {
                Ok(true) => {
                    let pre = self.cursor(old(db).model());
                    &&& pre.remaining.len() > 0
                    &&& cursor_steps(
                        old(db).model(),
                        final(db).model(),
                        self.handle.id,
                        RsModel {
                            cols: pre.cols,
                            row: Some(pre.remaining[0]),
                            remaining: pre.remaining.drop_first(),
                        },
                    )
                },
                Ok(false) => {
                    let pre = self.cursor(old(db).model());
                    &&& pre.remaining.len() == 0
                    &&& cursor_steps(
                        old(db).model(),
                        final(db).model(),
                        self.handle.id,
                        RsModel { cols: pre.cols, row: None, remaining: pre.remaining },
                    )
                },
                Err(_) => final(db).model() == old(db).model(),
            },
            self.cursor(old(db).model()).remaining.len() == 0 ==> r == Result::<
                bool,
                DbError,
            >::Ok(false),
    {
        let ghost m0 = db.model();
        loop
            invariant
                db.inv(),
                db.model() == m0,
                self.wf(db.model()),
            decreases db.pending_bound(),
        {
            match db.poll_next(&self.handle) {
                DbPoll::Pending => {},
                DbPoll::Ready(res) => {
                    return res;
                },
            }
        }
    }

    /// Get column value by col number (zero-based). Never moves the cursor.
    ///
    /// An index at or past the column count is rejected with
    /// [`DbError::ColumnOutOfRange`]-style failure by the driver, and a
    /// fetch while the cursor stands on no row — before the first `next`,
    /// or after exhaustion — is rejected too: neither ever yields a value.
    #[verifier::loop_isolation(false)]
    pub fn get<D: Database>(&self, db: &mut D, col: usize) -> (r: Result<SqlValue, DbError>)
        requires
            old(db).inv(),
            self.wf(old(db).model()),
        ensures
            final(db).inv(),
            final(db).model() == old(db).model(),
            match r {
                Ok(v) => {
                    let rs = self.cursor(old(db).model());
                    &&& rs.row matches Some(row) && col < row.len() && v@ == row[col as int]
                    &&& col < rs.cols.len()
                },
                Err(_) => true,
            },
            self.cursor(old(db).model()).row is None ==> r is Err,
            col >= self.cursor(old(db).model()).cols.len() ==> r is Err,
    {
        let ghost m0 = db.model();
        loop
            invariant
                db.inv(),
                db.model() == m0,
                self.wf(db.model()),
            decreases db.pending_bound(),
        {
            match db.poll_value(&self.handle, col) {
                DbPoll::Pending => {},
                DbPoll::Ready(res) => {
                    return res;
                },
            }
        }
    }

    /// Get col value by col name or col alias.
    ///
    /// The name is resolved against the supplied descriptor list by linear
    /// scan, first match wins, and the fetch is delegated to [`get`](Self::get)
    /// at the matched position; an unmatched name is rejected with
    /// [`DbError::UnknownColumn`] without touching the driver.
    #[verifier::loop_isolation(false)]
    pub fn get_by_col_name<D: Database>(
        &self,
        db: &mut D,
        col_name: &str,
        col_types: &[ColumnType],
    ) -> (r: Result<SqlValue, DbError>)
        requires
            old(db).inv(),
            self.wf(old(db).model()),
        ensures
            final(db).inv(),
            final(db).model() == old(db).model(),
            !has_col(cols_model(col_types@), col_name@) ==> r == Result::<
                SqlValue,
                DbError,
            >::Err(DbError::UnknownColumn),
            match r {
                Ok(v) => {
                    let rs = self.cursor(old(db).model());
                    exists|i: int|
                        {
                            &&& #[trigger] is_first_match(cols_model(col_types@), col_name@, i)
                            &&& rs.row matches Some(row) && i < row.len() && v@ == row[i]
                        }
                },
                Err(_) => true,
            },
    {
        let ghost cols = cols_model(col_types@);
        let mut i: usize = 0;
        while i < col_types.len()
            invariant
                db.inv(),
                self.wf(db.model()),
                db.model() == old(db).model(),
                i <= col_types@.len(),
                forall|j: int| 0 <= j < i ==> (#[trigger] cols[j]).name != col_name@,
                cols == cols_model(col_types@),
            decreases col_types@.len() - i,
        {
            if str_eq(col_types[i].name.as_str(), col_name) {
                proof {
                    assert(is_first_match(cols, col_name@, i as int));
                }
                return self.get(db, i);
            }
            i = i + 1;
        }
        proof {
            assert(forall|j: int| 0 <= j < cols.len() ==> (#[trigger] cols[j]).name != col_name@);
        }
        Err(DbError::UnknownColumn)
    }

    /// Returns the column names, in positional order. Fails if the result
    /// set has been closed.
    #[verifier::loop_isolation(false)]
    pub fn columns<D: Database>(&self, db: &mut D) -> (r: Result<Vec<String>, DbError>)
        requires
            old(db).inv(),
            self.wf(old(db).model()),
        ensures
            final(db).inv(),
            final(db).model() == old(db).model(),
            match r {
                Ok(names) => {
                    let rs = self.cursor(old(db).model());
                    &&& names@.len() == rs.cols.len()
                    &&& forall|i: int|
                        0 <= i < names@.len() ==> (#[trigger] names@[i])@ == rs.cols[i].name
                },
                Err(_) => true,
            },
    {
        let ghost m0 = db.model();
        loop
            invariant
                db.inv(),
                db.model() == m0,
                self.wf(db.model()),
            decreases db.pending_bound(),
        {
            match db.poll_cols(&self.handle) {
                DbPoll::Pending => {},
                DbPoll::Ready(res) => {
                    return res;
                },
            }
        }
    }

    /// Returns column information such as column type, length, and
    /// nullable, in positional order. Fails if the result set has been
    /// closed.
    #[verifier::loop_isolation(false)]
    pub fn column_types<D: Database>(&self, db: &mut D) -> (r: Result<Vec<ColumnType>, DbError>)
        requires
            old(db).inv(),
            self.wf(old(db).model()),
        ensures
            final(db).inv(),
            final(db).model() == old(db).model(),
            match r {
                Ok(types) => {
                    let rs = self.cursor(old(db).model());
                    &&& types@.len() == rs.cols.len()
                    &&& forall|i: int| 0 <= i < types@.len() ==> (#[trigger] types@[i])@
                        == rs.cols[i]
                },
                Err(_) => true,
            },
    {
        let ghost m0 = db.model();
        loop
            invariant
                db.inv(),
                db.model() == m0,
                self.wf(db.model()),
            decreases db.pending_bound(),
        {
            match db.poll_col_types(&self.handle) {
                DbPoll::Pending => {},
                DbPoll::Ready(res) => {
                    return res;
                },
            }
        }
    }

    /// Releases the result set's underlying cursor. The one release hook
    /// for this handle fires here, exactly once, whether or not the cursor
    /// was ever iterated to exhaustion.
    pub fn close<D: Database>(self, db: &mut D)
        requires
            old(db).inv(),
            self.wf(old(db).model()),
        ensures
            final(db).inv(),
            releases(old(db).model(), final(db).model(), self.handle.id),
            final(db).model().released.count(self.handle.id) == 1,
    {
        db.close(self.handle);
    }
}

} // verus!
