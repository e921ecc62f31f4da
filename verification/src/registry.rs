//! The driver registry: a directory from driver name to a shared driver
//! instance.
//!
//! The layer keeps no global state; a `Registry` value plays the part of the
//! process-wide directory, populated near startup and read thereafter, and
//! can equally be dependency-injected where global state is unwelcome.

use vstd::prelude::*;

use crate::driver::allocates;
use crate::driver::fresh_id;
use crate::driver::opens_connection;
use crate::driver::records_connect;
use crate::driver::Database;
use crate::driver::DbPoll;
use crate::driver::HandleKind;
use crate::error::DbError;
use crate::facade::spends;
use crate::facade::DbConn;
use crate::text::str_eq;

verus! {

/// A process-wide directory from driver name to driver instance.
///
/// A name may be bound at most once for the registry's lifetime:
/// re-registration under the same name is a configuration defect, never a
/// silent overwrite.
pub struct Registry<D> {
    names: Vec<String>,
    drivers: Vec<D>,
}

impl<D: Database> Registry<D> {
    /// The registered names, in registration order.
    pub closed spec fn spec_names(&self) -> Seq<Seq<char>> {
        self.names@.map_values(|n: String| n@)
    }

    /// The registered driver instances, in registration order.
    pub closed spec fn spec_drivers(&self) -> Seq<D> {
        self.drivers@
    }

    /// Names and drivers pair up, every name is bound at most once, and
    /// every registered driver is internally well-formed.
    pub closed spec fn wf(&self) -> bool {
        &&& self.names@.len() == self.drivers@.len()
        &&& forall|i: int, j: int|
            0 <= i < j < self.spec_names().len() ==> self.spec_names()[i] != self.spec_names()[j]
        &&& forall|i: int| 0 <= i < self.drivers@.len() ==> (#[trigger] self.drivers@[i]).inv()
    }

    /// Whether some driver is registered under `name`.
    pub closed spec fn spec_has(&self, name: Seq<char>) -> bool {
        exists|i: int| 0 <= i < self.spec_names().len() && self.spec_names()[i] == name
    }

    /// Creates an empty registry.
    pub fn new() -> (r: Registry<D>)
        ensures
            r.wf(),
            r.spec_names() == Seq::<Seq<char>>::empty(),
    {
        let r = Registry { names: Vec::new(), drivers: Vec::new() };
        proof {
            assert(r.spec_names() =~= Seq::<Seq<char>>::empty());
        }
        r
    }

    /// The position of `driver_name` in the registry, if it is registered.
    pub fn lookup(&self, driver_name: &str) -> (r: Option<usize>)
        requires
            self.wf(),
        ensures
            match r {
                Some(i) => i < self.spec_names().len() && self.spec_names()[i as int]
                    == driver_name@,
                None => !self.spec_has(driver_name@),
            },
    {
        let mut i: usize = 0;
        while i < self.names.len()
            invariant
                self.wf(),
                i <= self.names@.len(),
                forall|j: int| 0 <= j < i ==> self.spec_names()[j] != driver_name@,
            decreases self.names@.len() - i,
        {
            if str_eq(self.names[i].as_str(), driver_name) {
                return Some(i);
            }
            i = i + 1;
        }
        None
    }

    /// Register new database driver.
    ///
    /// Registering the same driver name twice is a static configuration
    /// defect, not a runtime condition: it is excluded by contract, and
    /// [`try_register`](Self::try_register) is the checked entry point a
    /// supervisor can use to turn a duplicate into a fatal report.
    pub fn register(&mut self, driver_name: String, database: D) -> (r: Result<(), DbError>)
        requires
            old(self).wf(),
            !old(self).spec_has(driver_name@),
            database.inv(),
        ensures
            final(self).wf(),
            r is Ok,
            final(self).spec_names() == old(self).spec_names().push(driver_name@),
            final(self).spec_drivers() == old(self).spec_drivers().push(database),
            final(self).spec_has(driver_name@),
    {
        self.names.push(driver_name);
        self.drivers.push(database);
        proof {
            assert(self.spec_names() =~= old(self).spec_names().push(self.names@.last()@));
            assert(self.spec_names()[self.spec_names().len() - 1] == self.names@.last()@);
        }
        Ok(())
    }

    /// Register new database driver, refusing a duplicate name.
    ///
    /// A name already bound is reported as [`DbError::DuplicateDriver`] and
    /// the registry is left exactly as it was: a registration is never
    /// silently overwritten.
    pub fn try_register(&mut self, driver_name: String, database: D) -> (r: Result<(), DbError>)
        requires
            old(self).wf(),
            database.inv(),
        ensures
            final(self).wf(),
            old(self).spec_has(driver_name@) ==> r == Result::<(), DbError>::Err(
                DbError::DuplicateDriver,
            ) && *final(self) == *old(self),
            !old(self).spec_has(driver_name@) ==> r is Ok && final(self).spec_names() == old(
                self,
            ).spec_names().push(driver_name@) && final(self).spec_drivers() == old(
                self,
            ).spec_drivers().push(database),
    {
        match self.lookup(driver_name.as_str()) {
            Some(_) => Err(DbError::DuplicateDriver),
            None => self.register(driver_name, database),
        }
    }

    /// Law: registration is unique. In a well-formed registry no name is
    /// bound at two positions, so a registration is never silently
    /// overwritten: [`try_register`](Self::try_register) refuses a
    /// duplicate with the registry unchanged, and
    /// [`register`](Self::register) excludes the duplicate by contract —
    /// a host treats that excluded call as the fatal wiring defect it is.
    pub proof fn lemma_name_bound_at_most_once(&self, i: int, j: int)
        requires
            self.wf(),
            0 <= i < self.spec_names().len(),
            0 <= j < self.spec_names().len(),
            self.spec_names()[i] == self.spec_names()[j],
        ensures
            i == j,
    {
    }

    /// Open opens a database specified by its database driver name and a
    /// driver-specific data source name, usually consisting of at least a
    /// database name and connection information.
    ///
    /// An unregistered name is reported as [`DbError::UnknownDriver`] with
    /// the registry — drivers included — untouched: no connection attempt is
    /// made. Otherwise the registered driver's connect operation is started
    /// and driven to completion, and only that driver's state moves: a
    /// connection is returned only if the driver reported the connect
    /// attempt successful, and a connect error is propagated verbatim with
    /// the failed attempt's handle released.
    #[verifier::loop_isolation(false)]
    pub fn open(&mut self, driver_name: &str, source_name: &str) -> (r: Result<DbConn, DbError>)
        requires
            old(self).wf(),
        ensures
            final(self).wf(),
            final(self).spec_names() == old(self).spec_names(),
            !old(self).spec_has(driver_name@) ==> r == Result::<DbConn, DbError>::Err(
                DbError::UnknownDriver,
            ) && *final(self) == *old(self),
            match r {
                Ok(conn) => exists|i: int|
                    {
                        &&& 0 <= i < old(self).spec_names().len()
                        &&& old(self).spec_names()[i] == driver_name@
                        &&& final(self).spec_drivers() == old(self).spec_drivers().update(
                            i,
                            final(self).spec_drivers()[i],
                        )
                        &&& conn.wf(final(self).spec_drivers()[i].model())
                        &&& fresh_id(old(self).spec_drivers()[i].model(), conn.handle.id)
                        &&& opens_connection(
                            old(self).spec_drivers()[i].model(),
                            final(self).spec_drivers()[i].model(),
                            conn.handle.id,
                        )
                    },
                Err(_) => old(self).spec_has(driver_name@) ==> exists|i: int|
                    {
                        &&& 0 <= i < old(self).spec_names().len()
                        &&& old(self).spec_names()[i] == driver_name@
                        &&& final(self).spec_drivers() == old(self).spec_drivers().update(
                            i,
                            final(self).spec_drivers()[i],
                        )
                        &&& (final(self).spec_drivers()[i].model() == old(self).spec_drivers()[i].model()
                            || exists|eid: u64|
                            spends(
                                old(self).spec_drivers()[i].model(),
                                final(self).spec_drivers()[i].model(),
                                eid,
                            ))
                    },
            },
    {
        let i = match self.lookup(driver_name) {
            Some(i) => i,
            None => {
                return Err(DbError::UnknownDriver);
            },
        };
        let conn_handle = match self.drivers[i].start_connect(source_name) {
            Ok(h) => h,
            Err(e) => {
                proof {
                    assert(self.spec_drivers() =~= old(self).spec_drivers().update(
                        i as int,
                        self.spec_drivers()[i as int],
                    ));
                }
                return Err(e);
            },
        };
        loop
            invariant
                self.names@ == old(self).names@,
                self.drivers@.len() == old(self).drivers@.len(),
                forall|j: int|
                    0 <= j < self.drivers@.len() && j != i ==> self.drivers@[j] == old(
                        self,
                    ).drivers@[j],
                self.drivers@[i as int].inv(),
                conn_handle.kind == HandleKind::Connection,
                allocates(
                    old(self).drivers@[i as int].model(),
                    self.drivers@[i as int].model(),
                    conn_handle.id,
                ),
            decreases self.drivers@[i as int].pending_bound(),
        {
            let ghost before = self.drivers@[i as int].model();
            match self.drivers[i].poll_connect(&conn_handle) {
                DbPoll::Pending => {},
                DbPoll::Ready(Ok(())) => {
                    proof {
                        assert(self.spec_drivers() =~= old(self).spec_drivers().update(
                            i as int,
                            self.spec_drivers()[i as int],
                        ));
                        assert(records_connect(
                            before,
                            self.drivers@[i as int].model(),
                            conn_handle.id,
                        ));
                        assert(opens_connection(
                            old(self).drivers@[i as int].model(),
                            self.drivers@[i as int].model(),
                            conn_handle.id,
                        ));
                    }
                    return Ok(DbConn { handle: conn_handle });
                },
                DbPoll::Ready(Err(e)) => {
                    let ghost pre = self.drivers@[i as int].model();
                    self.drivers[i].close(conn_handle);
                    proof {
                        assert(self.spec_drivers() =~= old(self).spec_drivers().update(
                            i as int,
                            self.spec_drivers()[i as int],
                        ));
                        let dm = self.drivers@[i as int].model();
                        let m0 = old(self).drivers@[i as int].model();
                        assert(dm.live =~= m0.live);
                        assert(dm.cursors =~= m0.cursors);
                        assert(spends(m0, dm, conn_handle.id));
                    }
                    return Err(e);
                },
            }
        }
    }

    /// A mutable borrow of the driver at `index`, for driving the façade
    /// objects opened against it.
    pub fn driver_mut(&mut self, index: usize) -> (ret: &mut D)
        requires
            index < old(self).spec_drivers().len(),
        ensures
            *ret == old(self).spec_drivers()[index as int],
            final(self).spec_drivers() == old(self).spec_drivers().update(
                index as int,
                *final(ret),
            ),
            final(self).spec_names() == old(self).spec_names(),
    {
        &mut self.drivers[index]
    }
}

} // verus!
