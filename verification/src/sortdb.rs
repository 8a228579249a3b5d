use vstd::prelude::*;

verus! {

use core::marker::PhantomData;

use crate::db::DbConnectionGuard;
use crate::db::DbError;
use crate::db::FromDbConnection;
use crate::db::TransactionalDb;

/// Domain-specific capability interface of the sortition module: one
/// mutating operation and one read-only operation, both against the shared
/// connection handle.
pub trait SortitionDb<DB> where DB: TransactionalDb {
    /// How many operations this module has attempted so far (module-local
    /// state, independent of the shared connection).
    spec fn ops_attempted(&self) -> u64;

    /// Perform one mutating unit of work: borrow the shared connection
    /// exclusively, open a transaction, record the work, and finalize
    /// before returning.  On success exactly one unit is published; on any
    /// failure the committed work is untouched.  Either way no transaction
    /// is left open across the call boundary.
    fn do_some_mut_thing(&mut self, conn: &mut DbConnectionGuard<DB>) -> (r: Result<(), DbError>)
        requires
            old(conn).wf(),
        ensures
            final(conn).ready(),
            r is Ok ==> final(conn).committed_work() == old(conn).committed_work() + 1,
            r is Err ==> final(conn).committed_work() == old(conn).committed_work(),
            old(self).ops_attempted() < u64::MAX ==> final(self).ops_attempted()
                == old(self).ops_attempted() + 1,
            old(self).ops_attempted() == u64::MAX ==> final(self).ops_attempted() == u64::MAX,
    ;

    /// Read-only operation: observe the committed work on the shared
    /// connection without opening a transaction.
    fn do_some_immut_thing(&self, conn: &DbConnectionGuard<DB>) -> (r: u64)
        ensures
            r == conn.committed_work(),
    ;
}

/// The sortition module: an independent consumer of the shared connection
/// handle.  It holds no copy of the connection; every operation borrows
/// the one handle exclusively for its own duration.
pub struct SortitionDbImpl<DB> where DB: TransactionalDb {
    ops: u64,
    backend: PhantomData<DB>,
}

impl<DB: TransactionalDb> FromDbConnection<DB> for SortitionDbImpl<DB> {
    fn from_db(db: &DbConnectionGuard<DB>) -> (r: Result<Self, DbError>)
        ensures
            r matches Ok(m) && m.ops_attempted() == 0,
    {
        Ok(Self { ops: 0, backend: PhantomData })
    }
}

impl<DB: TransactionalDb> SortitionDb<DB> for SortitionDbImpl<DB> {
    closed spec fn ops_attempted(&self) -> u64 {
        self.ops
    }

    fn do_some_mut_thing(&mut self, conn: &mut DbConnectionGuard<DB>) -> (r: Result<(), DbError>)
    {
        self.ops = if self.ops < u64::MAX { self.ops + 1 } else { self.ops };
        let tx = match conn.transaction() {
            Ok(tx) => tx,
            Err(e) => {
                return Err(e);
            }
        };
        match conn.record_work(&tx) {
            Ok(u) => u,
            Err(e) => {
                let _ = tx.rollback(conn);
                return Err(e);
            }
        }
        tx.commit(conn)
    }

    fn do_some_immut_thing(&self, conn: &DbConnectionGuard<DB>) -> (r: u64) {
        conn.committed_units()
    }
}

} // verus!
