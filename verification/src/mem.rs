//! An in-memory driver: a complete, synchronous implementation of the
//! [`Database`] contract that serves one fixed table.
//!
//! It exists so the layer can be exercised without a backend — a fake driver
//! for tests and examples — and it doubles as the reference implementation
//! showing the contract is satisfiable: every operation completes inside
//! `start_*`, so every `poll_*` reports immediate readiness. It serves one
//! result set at a time and logs every release-hook invocation.

use vstd::multiset::Multiset;
use vstd::prelude::*;
use vstd::string::StringExecFns;

use crate::driver::allocates_cursor;
use crate::driver::records_commit;
use crate::driver::records_connect;
use crate::driver::records_exec;
use crate::driver::records_prepare;
use crate::driver::records_rollback;
use crate::driver::Database;
use crate::driver::DbModel;
use crate::driver::DbPoll;
use crate::driver::Handle;
use crate::driver::HandleKind;
use crate::driver::RsModel;
use crate::error::DbError;
use crate::value::ColumnType;
use crate::value::ColumnTypeModel;
use crate::value::SqlValue;
use crate::value::SqlValueModel;

verus! {

/// The single forward-only cursor a [`MemDriver`] serves at a time.
struct MemCursor {
    /// The identifier of the result-set handle.
    id: u64,
    /// The index of the row the cursor stands on, if any.
    at: Option<usize>,
    /// The index of the next row to visit.
    next_row: usize,
}

/// Reports whether `ids` holds `x`.
fn contains_id(ids: &Vec<u64>, x: u64) -> (r: bool)
    ensures
        r == ids@.contains(x),
{
    let mut i: usize = 0;
    while i < ids.len()
        invariant
            i <= ids@.len(),
            forall|j: int| 0 <= j < i ==> ids@[j] != x,
        decreases ids@.len() - i,
    {
        if ids[i] == x {
            return true;
        }
        i = i + 1;
    }
    false
}

/// A driver that serves one fixed table from memory.
pub struct MemDriver {
    /// The next handle identifier to issue; identifiers are never reused.
    next_id: u64,
    /// Every release-hook invocation, in order: one entry per closed handle.
    released: Vec<u64>,
    /// The cursor of the one open result set, if any.
    cursor: Option<MemCursor>,
    /// The rows served to every query.
    table: Vec<Vec<SqlValue>>,
    /// The column descriptors of the table.
    cols: Vec<ColumnType>,
    /// When set, every `start_query` and `start_exec` reports a backend
    /// failure, for exercising error paths.
    fail_queries: bool,
    /// When set, every `poll_connect` reports a backend failure, for
    /// exercising the connect error path.
    fail_connects: bool,
    /// The connection handles whose connect attempt reported success.
    connected: Vec<u64>,
    /// The statement handles whose preparation reported success.
    prepared: Vec<u64>,
    /// Every reported commit, in order: one entry per transaction handle.
    committed: Vec<u64>,
    /// Every reported rollback, in order: one entry per transaction handle.
    rolled_back: Vec<u64>,
    /// The execution handles whose run reported completion; this driver
    /// always reports a zero last insert id and zero rows affected.
    exec_done: Vec<u64>,
}

impl MemDriver {
    /// The rows of the served table, as their mathematical images.
    pub closed spec fn spec_rows(&self) -> Seq<Seq<SqlValueModel>> {
        self.table@.map_values(|r: Vec<SqlValue>| r@.map_values(|v: SqlValue| v@))
    }

    /// The column descriptors of the served table, as their images.
    pub closed spec fn spec_cols(&self) -> Seq<ColumnTypeModel> {
        self.cols@.map_values(|c: ColumnType| c@)
    }

    /// Whether the driver has been told to refuse queries and executions.
    pub closed spec fn spec_fail_queries(&self) -> bool {
        self.fail_queries
    }

    /// Whether the driver has been told to refuse connection polls.
    pub closed spec fn spec_fail_connects(&self) -> bool {
        self.fail_connects
    }

    /// Whether a result set is currently open: the driver serves one at a
    /// time.
    pub closed spec fn spec_busy(&self) -> bool {
        self.cursor is Some
    }

    /// Whether the driver can still issue a fresh handle identifier.
    pub closed spec fn spec_can_allocate(&self) -> bool {
        self.next_id < u64::MAX
    }

    /// The abstract cursor state behind `c`.
    closed spec fn cursor_model(&self, c: MemCursor) -> RsModel {
        RsModel {
            cols: self.spec_cols(),
            row: match c.at {
                Some(i) => Some(self.spec_rows()[i as int]),
                None => None,
            },
            remaining: self.spec_rows().skip(c.next_row as int),
        }
    }

    /// Creates a driver serving `table` with column descriptors `cols`.
    /// Every row must carry one value per descriptor.
    pub fn new(cols: Vec<ColumnType>, table: Vec<Vec<SqlValue>>) -> (r: MemDriver)
        requires
            forall|i: int| 0 <= i < table@.len() ==> (#[trigger] table@[i])@.len() == cols@.len(),
        ensures
            r.inv(),
            r.model() == (DbModel {
                live: Set::<u64>::empty(),
                cursors: Map::<u64, RsModel>::empty(),
                released: Multiset::<u64>::empty(),
                connected: Set::<u64>::empty(),
                prepared: Set::<u64>::empty(),
                committed: Multiset::<u64>::empty(),
                rolled_back: Multiset::<u64>::empty(),
                exec_results: Map::<u64, (i64, i64)>::empty(),
            }),
            r.spec_cols() == cols@.map_values(|c: ColumnType| c@),
            r.spec_rows() == table@.map_values(
                |row: Vec<SqlValue>| row@.map_values(|v: SqlValue| v@),
            ),
            !r.spec_fail_queries(),
            !r.spec_fail_connects(),
            !r.spec_busy(),
            r.spec_can_allocate(),
    {
        let r = MemDriver {
            next_id: 0,
            released: Vec::new(),
            cursor: None,
            table,
            cols,
            fail_queries: false,
            fail_connects: false,
            connected: Vec::new(),
            prepared: Vec::new(),
            committed: Vec::new(),
            rolled_back: Vec::new(),
            exec_done: Vec::new(),
        };
        proof {
            broadcast use vstd::seq_lib::group_to_multiset_ensures;

            assert(r.model().live =~= Set::<u64>::empty());
            assert(r.model().cursors =~= Map::<u64, RsModel>::empty());
            assert(r.model().released =~= Multiset::<u64>::empty());
            assert(r.model().connected =~= Set::<u64>::empty());
            assert(r.model().prepared =~= Set::<u64>::empty());
            assert(r.model().committed =~= Multiset::<u64>::empty());
            assert(r.model().rolled_back =~= Multiset::<u64>::empty());
            assert(r.model().exec_results =~= Map::<u64, (i64, i64)>::empty());
        }
        r
    }

    /// Makes every later `start_query` and `start_exec` report a backend
    /// failure (or stop doing so), without touching any handle.
    pub fn set_fail_queries(&mut self, fail: bool)
        requires
            old(self).inv(),
        ensures
            final(self).inv(),
            final(self).model() == old(self).model(),
            final(self).spec_rows() == old(self).spec_rows(),
            final(self).spec_cols() == old(self).spec_cols(),
            final(self).spec_fail_queries() == fail,
            final(self).spec_fail_connects() == old(self).spec_fail_connects(),
            final(self).spec_busy() == old(self).spec_busy(),
            final(self).spec_can_allocate() == old(self).spec_can_allocate(),
    {
        self.fail_queries = fail;
    }

    /// Makes every later `poll_connect` report a backend failure (or stop
    /// doing so), without touching any handle.
    pub fn set_fail_connects(&mut self, fail: bool)
        requires
            old(self).inv(),
        ensures
            final(self).inv(),
            final(self).model() == old(self).model(),
            final(self).spec_rows() == old(self).spec_rows(),
            final(self).spec_cols() == old(self).spec_cols(),
            final(self).spec_fail_connects() == fail,
            final(self).spec_fail_queries() == old(self).spec_fail_queries(),
            final(self).spec_busy() == old(self).spec_busy(),
            final(self).spec_can_allocate() == old(self).spec_can_allocate(),
    {
        self.fail_connects = fail;
    }

    /// The release-hook log: one entry, in order, for every handle this
    /// driver has released.
    pub fn release_events(&self) -> (r: &Vec<u64>)
        requires
            self.inv(),
        ensures
            r@.to_multiset() == self.model().released,
    {
        &self.released
    }

    /// The commit log: one entry, in order, for every transaction whose
    /// commit this driver has reported successful.
    pub fn commit_events(&self) -> (r: &Vec<u64>)
        requires
            self.inv(),
        ensures
            r@.to_multiset() == self.model().committed,
    {
        &self.committed
    }

    /// The rollback log: one entry, in order, for every transaction whose
    /// rollback this driver has reported successful.
    pub fn rollback_events(&self) -> (r: &Vec<u64>)
        requires
            self.inv(),
        ensures
            r@.to_multiset() == self.model().rolled_back,
    {
        &self.rolled_back
    }

    /// The execution-completion log: one entry for every execution handle
    /// whose run this driver has reported complete.
    pub fn exec_events(&self) -> (r: &Vec<u64>)
        requires
            self.inv(),
        ensures
            forall|id: u64| #[trigger] r@.contains(id) == self.model().exec_results.contains_key(
                id,
            ),
    {
        &self.exec_done
    }

    /// Issues a fresh identifier, or fails leaving the state untouched.
    fn alloc_id(&mut self) -> (r: Result<u64, DbError>)
        requires
            old(self).inv(),
        ensures
            final(self).inv(),
            final(self).cursor == old(self).cursor,
            final(self).table == old(self).table,
            final(self).cols == old(self).cols,
            final(self).released == old(self).released,
            final(self).fail_queries == old(self).fail_queries,
            final(self).fail_connects == old(self).fail_connects,
            final(self).connected == old(self).connected,
            final(self).prepared == old(self).prepared,
            final(self).committed == old(self).committed,
            final(self).rolled_back == old(self).rolled_back,
            final(self).exec_done == old(self).exec_done,
            old(self).spec_can_allocate() ==> r is Ok,
            match r {
                Ok(id) => {
                    &&& crate::driver::fresh_id(old(self).model(), id)
                    &&& final(self).model().live == old(self).model().live.insert(id)
                    &&& final(self).model().cursors == old(self).model().cursors
                    &&& final(self).model().released == old(self).model().released
                    &&& crate::driver::same_outcomes(old(self).model(), final(self).model())
                },
                Err(_) => *final(self) == *old(self),
            },
    {
        if self.next_id == u64::MAX {
            return Err(DbError::Backend(<String as StringExecFns>::from_str(
                "handle identifiers exhausted",
            )));
        }
        let id = self.next_id;
        self.next_id = id + 1;
        proof {
            broadcast use vstd::seq_lib::group_to_multiset_ensures;

            assert(!self.released@.contains(id));
            assert(!self.connected@.contains(id));
            assert(!self.prepared@.contains(id));
            assert(!self.committed@.contains(id));
            assert(!self.rolled_back@.contains(id));
            assert(!self.exec_done@.contains(id));
            assert(self.model().live =~= old(self).model().live.insert(id));
            assert(self.model().cursors =~= old(self).model().cursors);
        }
        Ok(id)
    }
}

impl Database for MemDriver {
    closed spec fn inv(&self) -> bool {
        &&& forall|i: int| 0 <= i < self.released@.len() ==> (#[trigger] self.released@[i])
            < self.next_id
        &&& forall|i: int, j: int|
            0 <= i < j < self.released@.len() ==> self.released@[i] != self.released@[j]
        &&& (self.cursor matches Some(c) ==> {
            &&& c.id < self.next_id
            &&& !self.released@.contains(c.id)
            &&& c.next_row <= self.table@.len()
            &&& (c.at matches Some(i) ==> i < self.table@.len() && i + 1 == c.next_row)
        })
        &&& forall|i: int| 0 <= i < self.table@.len() ==> (#[trigger] self.table@[i])@.len()
            == self.cols@.len()
        &&& forall|i: int| 0 <= i < self.connected@.len() ==> (#[trigger] self.connected@[i])
            < self.next_id
        &&& forall|i: int| 0 <= i < self.prepared@.len() ==> (#[trigger] self.prepared@[i])
            < self.next_id
        &&& forall|i: int| 0 <= i < self.committed@.len() ==> (#[trigger] self.committed@[i])
            < self.next_id
        &&& forall|i: int| 0 <= i < self.rolled_back@.len() ==> (#[trigger] self.rolled_back@[i])
            < self.next_id
        &&& forall|i: int| 0 <= i < self.exec_done@.len() ==> (#[trigger] self.exec_done@[i])
            < self.next_id
    }

    closed spec fn model(&self) -> DbModel {
        DbModel {
            live: Set::new(|id: u64| id < self.next_id && !self.released@.contains(id)),
            cursors: match self.cursor {
                Some(c) => Map::<u64, RsModel>::empty().insert(c.id, self.cursor_model(c)),
                None => Map::<u64, RsModel>::empty(),
            },
            released: self.released@.to_multiset(),
            connected: Set::new(|id: u64| self.connected@.contains(id)),
            prepared: Set::new(|id: u64| self.prepared@.contains(id)),
            committed: self.committed@.to_multiset(),
            rolled_back: self.rolled_back@.to_multiset(),
            exec_results: Map::new(
                |id: u64| self.exec_done@.contains(id),
                |id: u64| (0i64, 0i64),
            ),
        }
    }

    closed spec fn pending_bound(&self) -> nat {
        0
    }

    fn start_connect(&mut self, source_name: &str) -> (r: Result<Handle, DbError>)
        ensures
            final(self).spec_rows() == old(self).spec_rows(),
            final(self).spec_cols() == old(self).spec_cols(),
            final(self).spec_fail_queries() == old(self).spec_fail_queries(),
            final(self).spec_fail_connects() == old(self).spec_fail_connects(),
            final(self).spec_busy() == old(self).spec_busy(),
            old(self).spec_can_allocate() ==> r is Ok,
    {
        let id = match self.alloc_id() {
            Ok(id) => id,
            Err(e) => {
                return Err(e);
            },
        };
        Ok(Handle { kind: HandleKind::Connection, id })
    }

    fn poll_connect(&mut self, conn: &Handle) -> (r: DbPoll<Result<(), DbError>>)
        ensures
            final(self).spec_rows() == old(self).spec_rows(),
            final(self).spec_cols() == old(self).spec_cols(),
            final(self).spec_fail_queries() == old(self).spec_fail_queries(),
            final(self).spec_fail_connects() == old(self).spec_fail_connects(),
            final(self).spec_busy() == old(self).spec_busy(),
            conn.kind == HandleKind::Connection && old(self).model().live.contains(conn.id)
                && !old(self).spec_fail_connects() ==> r == DbPoll::Ready(
                Result::<(), DbError>::Ok(()),
            ),
            old(self).spec_fail_connects() ==> r matches DbPoll::Ready(Err(_)),
    {
        if !matches!(conn.kind, HandleKind::Connection) {
            return DbPoll::Ready(Err(DbError::HandleKindMismatch));
        }
        if conn.id >= self.next_id || contains_id(&self.released, conn.id) {
            return DbPoll::Ready(Err(DbError::HandleKindMismatch));
        }
        if self.fail_connects {
            return DbPoll::Ready(Err(DbError::Backend(<String as StringExecFns>::from_str(
                "connect refused",
            ))));
        }
        self.connected.push(conn.id);
        proof {
            broadcast use vstd::seq_lib::group_seq_properties;

            assert(self.model().connected =~= old(self).model().connected.insert(conn.id));
            assert(self.model().cursors =~= old(self).model().cursors);
            assert(records_connect(old(self).model(), self.model(), conn.id));
        }
        DbPoll::Ready(Ok(()))
    }

    fn begin(&mut self, conn: &Handle) -> (r: DbPoll<Result<Handle, DbError>>)
        ensures
            final(self).spec_rows() == old(self).spec_rows(),
            final(self).spec_cols() == old(self).spec_cols(),
            final(self).spec_fail_queries() == old(self).spec_fail_queries(),
            final(self).spec_fail_connects() == old(self).spec_fail_connects(),
            final(self).spec_busy() == old(self).spec_busy(),
            conn.kind == HandleKind::Connection && old(self).spec_can_allocate() ==> r matches
                DbPoll::Ready(Ok(_)),
    {
        if !matches!(conn.kind, HandleKind::Connection) {
            return DbPoll::Ready(Err(DbError::HandleKindMismatch));
        }
        let id = match self.alloc_id() {
            Ok(id) => id,
            Err(e) => {
                return DbPoll::Ready(Err(e));
            },
        };
        DbPoll::Ready(Ok(Handle { kind: HandleKind::Transaction, id }))
    }

    fn commit(&mut self, tx: &Handle) -> (r: DbPoll<Result<(), DbError>>)
        ensures
            final(self).spec_rows() == old(self).spec_rows(),
            final(self).spec_cols() == old(self).spec_cols(),
            final(self).spec_fail_queries() == old(self).spec_fail_queries(),
            final(self).spec_fail_connects() == old(self).spec_fail_connects(),
            final(self).spec_busy() == old(self).spec_busy(),
            tx.kind == HandleKind::Transaction && old(self).model().live.contains(tx.id) ==> r
                == DbPoll::Ready(Result::<(), DbError>::Ok(())),
    {
        if !matches!(tx.kind, HandleKind::Transaction) {
            return DbPoll::Ready(Err(DbError::HandleKindMismatch));
        }
        if tx.id >= self.next_id || contains_id(&self.released, tx.id) {
            return DbPoll::Ready(Err(DbError::HandleKindMismatch));
        }
        self.committed.push(tx.id);
        proof {
            broadcast use vstd::seq_lib::group_to_multiset_ensures;

            assert(self.model().committed =~= old(self).model().committed.insert(tx.id));
            assert(self.model().cursors =~= old(self).model().cursors);
            assert(records_commit(old(self).model(), self.model(), tx.id));
        }
        DbPoll::Ready(Ok(()))
    }

    fn rollback(&mut self, tx: &Handle) -> (r: DbPoll<Result<(), DbError>>)
        ensures
            final(self).spec_rows() == old(self).spec_rows(),
            final(self).spec_cols() == old(self).spec_cols(),
            final(self).spec_fail_queries() == old(self).spec_fail_queries(),
            final(self).spec_fail_connects() == old(self).spec_fail_connects(),
            final(self).spec_busy() == old(self).spec_busy(),
            tx.kind == HandleKind::Transaction && old(self).model().live.contains(tx.id) ==> r
                == DbPoll::Ready(Result::<(), DbError>::Ok(())),
    {
        if !matches!(tx.kind, HandleKind::Transaction) {
            return DbPoll::Ready(Err(DbError::HandleKindMismatch));
        }
        if tx.id >= self.next_id || contains_id(&self.released, tx.id) {
            return DbPoll::Ready(Err(DbError::HandleKindMismatch));
        }
        self.rolled_back.push(tx.id);
        proof {
            broadcast use vstd::seq_lib::group_to_multiset_ensures;

            assert(self.model().rolled_back =~= old(self).model().rolled_back.insert(tx.id));
            assert(self.model().cursors =~= old(self).model().cursors);
            assert(records_rollback(old(self).model(), self.model(), tx.id));
        }
        DbPoll::Ready(Ok(()))
    }

    fn start_prepare(&mut self, conn_or_tx: &Handle, query: &str) -> (r: Result<Handle, DbError>)
        ensures
            final(self).spec_rows() == old(self).spec_rows(),
            final(self).spec_cols() == old(self).spec_cols(),
            final(self).spec_fail_queries() == old(self).spec_fail_queries(),
            final(self).spec_fail_connects() == old(self).spec_fail_connects(),
            final(self).spec_busy() == old(self).spec_busy(),
            (conn_or_tx.kind == HandleKind::Connection || conn_or_tx.kind
                == HandleKind::Transaction) && old(self).spec_can_allocate() ==> r is Ok,
    {
        let against_conn_or_tx = match conn_or_tx.kind {
            HandleKind::Connection => true,
            HandleKind::Transaction => true,
            _ => false,
        };
        if !against_conn_or_tx {
            return Err(DbError::HandleKindMismatch);
        }
        let id = match self.alloc_id() {
            Ok(id) => id,
            Err(e) => {
                return Err(e);
            },
        };
        Ok(Handle { kind: HandleKind::Statement, id })
    }

    fn poll_prepare(&mut self, stmt: &Handle) -> (r: DbPoll<Result<(), DbError>>)
        ensures
            final(self).spec_rows() == old(self).spec_rows(),
            final(self).spec_cols() == old(self).spec_cols(),
            final(self).spec_fail_queries() == old(self).spec_fail_queries(),
            final(self).spec_fail_connects() == old(self).spec_fail_connects(),
            final(self).spec_busy() == old(self).spec_busy(),
            stmt.kind == HandleKind::Statement && old(self).model().live.contains(stmt.id) ==> r
                == DbPoll::Ready(Result::<(), DbError>::Ok(())),
    {
        if !matches!(stmt.kind, HandleKind::Statement) {
            return DbPoll::Ready(Err(DbError::HandleKindMismatch));
        }
        if stmt.id >= self.next_id || contains_id(&self.released, stmt.id) {
            return DbPoll::Ready(Err(DbError::HandleKindMismatch));
        }
        self.prepared.push(stmt.id);
        proof {
            broadcast use vstd::seq_lib::group_seq_properties;

            assert(self.model().prepared =~= old(self).model().prepared.insert(stmt.id));
            assert(self.model().cursors =~= old(self).model().cursors);
            assert(records_prepare(old(self).model(), self.model(), stmt.id));
        }
        DbPoll::Ready(Ok(()))
    }

    fn start_query(&mut self, stmt: &Handle, values: &[SqlValue]) -> (r: Result<Handle, DbError>)
        ensures
            final(self).spec_rows() == old(self).spec_rows(),
            final(self).spec_cols() == old(self).spec_cols(),
            r matches Ok(h) ==> final(self).model().cursors[h.id] == (RsModel {
                cols: old(self).spec_cols(),
                row: None,
                remaining: old(self).spec_rows(),
            }),
            final(self).spec_fail_queries() == old(self).spec_fail_queries(),
            final(self).spec_fail_connects() == old(self).spec_fail_connects(),
            r is Ok ==> final(self).spec_busy(),
            stmt.kind == HandleKind::Statement && !old(self).spec_fail_queries() && !old(
                self,
            ).spec_busy() && old(self).spec_can_allocate() ==> r is Ok,
    {
        if !matches!(stmt.kind, HandleKind::Statement) {
            return Err(DbError::HandleKindMismatch);
        }
        if self.fail_queries {
            return Err(DbError::Backend(<String as StringExecFns>::from_str("query refused")));
        }
        if self.cursor.is_some() {
            return Err(DbError::Backend(<String as StringExecFns>::from_str(
                "a result set is already open",
            )));
        }
        let id = match self.alloc_id() {
            Ok(id) => id,
            Err(e) => {
                return Err(e);
            },
        };
        let ghost mid = *self;
        proof {
            assert(mid.model().live.contains(id));
            assert(id < mid.next_id && !mid.released@.contains(id));
        }
        self.cursor = Some(MemCursor { id, at: None, next_row: 0 });
        proof {
            assert(self.model().live =~= mid.model().live);
            assert(self.model().released =~= mid.model().released);
            let rs = self.cursor_model(self.cursor->Some_0);
            assert(rs.remaining =~= self.spec_rows());
            assert forall|i: int|
                0 <= i < rs.remaining.len() implies (#[trigger] rs.remaining[i]).len()
                == rs.cols.len() by {
                assert(self.table@[i]@.len() == self.cols@.len());
            }
            assert(self.model().cursors =~= old(self).model().cursors.insert(id, rs));
            assert(self.model().cursors[id] == rs);
            assert(allocates_cursor(old(self).model(), self.model(), id));
        }
        Ok(Handle { kind: HandleKind::ResultSet, id })
    }

    fn poll_next(&mut self, result_set: &Handle) -> (r: DbPoll<Result<bool, DbError>>)
        ensures
            final(self).spec_rows() == old(self).spec_rows(),
            final(self).spec_cols() == old(self).spec_cols(),
            final(self).spec_fail_queries() == old(self).spec_fail_queries(),
            final(self).spec_fail_connects() == old(self).spec_fail_connects(),
            final(self).spec_busy() == old(self).spec_busy(),
            result_set.kind == HandleKind::ResultSet && old(self).model().cursors.contains_key(
                result_set.id,
            ) ==> r matches DbPoll::Ready(Ok(_)),
    {
        let (cursor_id, next_row) = match &self.cursor {
            Some(c) => (c.id, c.next_row),
            None => {
                return DbPoll::Ready(Err(DbError::NoCurrentRow));
            },
        };
        if cursor_id != result_set.id || !matches!(result_set.kind, HandleKind::ResultSet) {
            return DbPoll::Ready(Err(DbError::HandleKindMismatch));
        }
        let ghost pre = self.cursor_model(self.cursor->Some_0);
        if next_row < self.table.len() {
            self.cursor = Some(MemCursor { id: cursor_id, at: Some(next_row), next_row: next_row + 1 });
            proof {
                let post = self.cursor_model(self.cursor->Some_0);
                assert(pre.remaining[0] =~= self.spec_rows()[next_row as int]);
                assert(post.remaining =~= pre.remaining.drop_first());
                assert(post =~= RsModel {
                    cols: pre.cols,
                    row: Some(pre.remaining[0]),
                    remaining: pre.remaining.drop_first(),
                });
                assert(self.model().cursors =~= old(self).model().cursors.insert(cursor_id, post));
            }
            DbPoll::Ready(Ok(true))
        } else {
            self.cursor = Some(MemCursor { id: cursor_id, at: None, next_row });
            proof {
                let post = self.cursor_model(self.cursor->Some_0);
                assert(pre.remaining.len() == 0);
                assert(post =~= RsModel { cols: pre.cols, row: None, remaining: pre.remaining });
                assert(self.model().cursors =~= old(self).model().cursors.insert(cursor_id, post));
            }
            DbPoll::Ready(Ok(false))
        }
    }

    fn poll_value(&mut self, result_set: &Handle, col: usize) -> (r: DbPoll<
        Result<SqlValue, DbError>,
    >)
        ensures
            *final(self) == *old(self),
            result_set.kind == HandleKind::ResultSet && old(self).model().cursors.contains_key(
                result_set.id,
            ) && (old(self).model().cursors[result_set.id].row matches Some(row) && col
                < row.len()) ==> r matches DbPoll::Ready(Ok(_)),
    {
        let (cursor_id, at) = match &self.cursor {
            Some(c) => (c.id, c.at),
            None => {
                return DbPoll::Ready(Err(DbError::NoCurrentRow));
            },
        };
        if cursor_id != result_set.id || !matches!(result_set.kind, HandleKind::ResultSet) {
            return DbPoll::Ready(Err(DbError::HandleKindMismatch));
        }
        let row_index = match at {
            Some(i) => i,
            None => {
                return DbPoll::Ready(Err(DbError::NoCurrentRow));
            },
        };
        if col >= self.table[row_index].len() {
            return DbPoll::Ready(Err(DbError::ColumnOutOfRange));
        }
        let v = self.table[row_index][col].clone_value();
        DbPoll::Ready(Ok(v))
    }

    fn start_exec(&mut self, stmt: &Handle, values: &[SqlValue]) -> (r: Result<Handle, DbError>)
        ensures
            final(self).spec_rows() == old(self).spec_rows(),
            final(self).spec_cols() == old(self).spec_cols(),
            final(self).spec_fail_queries() == old(self).spec_fail_queries(),
            final(self).spec_fail_connects() == old(self).spec_fail_connects(),
            final(self).spec_busy() == old(self).spec_busy(),
            stmt.kind == HandleKind::Statement && !old(self).spec_fail_queries() && old(
                self,
            ).spec_can_allocate() ==> r is Ok,
    {
        if !matches!(stmt.kind, HandleKind::Statement) {
            return Err(DbError::HandleKindMismatch);
        }
        if self.fail_queries {
            return Err(DbError::Backend(<String as StringExecFns>::from_str("exec refused")));
        }
        let id = match self.alloc_id() {
            Ok(id) => id,
            Err(e) => {
                return Err(e);
            },
        };
        Ok(Handle { kind: HandleKind::Exec, id })
    }

    fn poll_exec(&mut self, result: &Handle) -> (r: DbPoll<Result<(i64, i64), DbError>>)
        ensures
            final(self).spec_rows() == old(self).spec_rows(),
            final(self).spec_cols() == old(self).spec_cols(),
            final(self).spec_fail_queries() == old(self).spec_fail_queries(),
            final(self).spec_fail_connects() == old(self).spec_fail_connects(),
            final(self).spec_busy() == old(self).spec_busy(),
            result.kind == HandleKind::Exec && old(self).model().live.contains(result.id) ==> r
                == DbPoll::Ready(Result::<(i64, i64), DbError>::Ok((0, 0))),
    {
        if !matches!(result.kind, HandleKind::Exec) {
            return DbPoll::Ready(Err(DbError::HandleKindMismatch));
        }
        if result.id >= self.next_id || contains_id(&self.released, result.id) {
            return DbPoll::Ready(Err(DbError::HandleKindMismatch));
        }
        self.exec_done.push(result.id);
        proof {
            broadcast use vstd::seq_lib::group_seq_properties;

            assert(self.model().exec_results =~= old(self).model().exec_results.insert(
                result.id,
                (0i64, 0i64),
            ));
            assert(self.model().cursors =~= old(self).model().cursors);
            assert(records_exec(old(self).model(), self.model(), result.id, (0i64, 0i64)));
        }
        DbPoll::Ready(Ok((0, 0)))
    }

    fn poll_cols(&mut self, result_set: &Handle) -> (r: DbPoll<Result<Vec<String>, DbError>>)
        ensures
            *final(self) == *old(self),
            result_set.kind == HandleKind::ResultSet && old(self).model().cursors.contains_key(
                result_set.id,
            ) ==> r matches DbPoll::Ready(Ok(_)),
    {
        let cursor_id = match &self.cursor {
            Some(c) => c.id,
            None => {
                return DbPoll::Ready(Err(DbError::NoCurrentRow));
            },
        };
        if cursor_id != result_set.id || !matches!(result_set.kind, HandleKind::ResultSet) {
            return DbPoll::Ready(Err(DbError::HandleKindMismatch));
        }
        let mut names: Vec<String> = Vec::new();
        let mut i: usize = 0;
        while i < self.cols.len()
            invariant
                i <= self.cols@.len(),
                names@.len() == i,
                forall|j: int| 0 <= j < i ==> (#[trigger] names@[j])@ == self.cols@[j]@.name,
            decreases self.cols@.len() - i,
        {
            names.push(self.cols[i].name.clone());
            i = i + 1;
        }
        DbPoll::Ready(Ok(names))
    }

    fn poll_col_types(&mut self, result_set: &Handle) -> (r: DbPoll<
        Result<Vec<ColumnType>, DbError>,
    >)
        ensures
            *final(self) == *old(self),
            result_set.kind == HandleKind::ResultSet && old(self).model().cursors.contains_key(
                result_set.id,
            ) ==> r matches DbPoll::Ready(Ok(_)),
    {
        let cursor_id = match &self.cursor {
            Some(c) => c.id,
            None => {
                return DbPoll::Ready(Err(DbError::NoCurrentRow));
            },
        };
        if cursor_id != result_set.id || !matches!(result_set.kind, HandleKind::ResultSet) {
            return DbPoll::Ready(Err(DbError::HandleKindMismatch));
        }
        let mut types: Vec<ColumnType> = Vec::new();
        let mut i: usize = 0;
        while i < self.cols.len()
            invariant
                i <= self.cols@.len(),
                types@.len() == i,
                forall|j: int| 0 <= j < i ==> (#[trigger] types@[j])@ == self.cols@[j]@,
            decreases self.cols@.len() - i,
        {
            types.push(self.cols[i].clone_type());
            i = i + 1;
        }
        DbPoll::Ready(Ok(types))
    }

    fn close(&mut self, handle: Handle)
        ensures
            final(self).spec_rows() == old(self).spec_rows(),
            final(self).spec_cols() == old(self).spec_cols(),
            final(self).spec_fail_queries() == old(self).spec_fail_queries(),
            final(self).spec_fail_connects() == old(self).spec_fail_connects(),
            final(self).spec_busy() == (old(self).spec_busy() && !old(
                self,
            ).model().cursors.contains_key(handle.id)),
    {
        let close_cursor = match &self.cursor {
            Some(c) => c.id == handle.id,
            None => false,
        };
        if close_cursor {
            self.cursor = None;
        }
        self.released.push(handle.id);
        proof {
            broadcast use vstd::seq_lib::group_to_multiset_ensures;
            broadcast use vstd::seq_lib::group_seq_properties;

            assert(old(self).model().live.contains(handle.id));
            assert(self.model().live =~= old(self).model().live.remove(handle.id));
            assert(self.model().cursors =~= old(self).model().cursors.remove(handle.id));
            assert(self.model().released =~= old(self).model().released.insert(handle.id));
            assert(self.model().connected =~= old(self).model().connected);
            assert(self.model().prepared =~= old(self).model().prepared);
            assert(self.model().exec_results =~= old(self).model().exec_results);
        }
    }
}

} // verus!
