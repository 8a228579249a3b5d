use vstd::prelude::*;

verus! {

use core::marker::PhantomData;

use crate::db::DbConnectionGuard;
use crate::db::DbError;
use crate::db::FromDbConnection;
use crate::db::TransactionalDb;

/// Domain-specific capability interface of the MARF trie module, the
/// second independent consumer multiplexed over the same shared
/// connection handle.
pub trait MarfTrieDb<DB> where DB: TransactionalDb {
    /// How many purely local operations this module has performed
    /// (module-local state, independent of the shared connection).
    spec fn local_ops(&self) -> u64;

    /// Borrow the shared connection exclusively, open a transaction, and
    /// finalize it before returning without publishing any work: the
    /// committed work on the connection is left exactly as it was, and no
    /// transaction is left open across the call boundary.
    fn do_something_else_immut(&self, conn: &mut DbConnectionGuard<DB>) -> (r: Result<(), DbError>)
        requires
            old(conn).wf(),
        ensures
            final(conn).ready(),
            final(conn).committed_work() == old(conn).committed_work(),
    ;

    /// A mutating operation on the module's own local state only: the
    /// shared connection is not involved.
    fn do_something_mut(&mut self)
        ensures
            old(self).local_ops() < u64::MAX ==> final(self).local_ops()
                == old(self).local_ops() + 1,
            old(self).local_ops() == u64::MAX ==> final(self).local_ops() == u64::MAX,
    ;
}

/// The MARF trie module: an independent consumer of the shared connection
/// handle.  It holds no copy of the connection; every operation borrows
/// the one handle exclusively for its own duration.
pub struct MarfTrieDbImpl<DB> where DB: TransactionalDb {
    ops: u64,
    backend: PhantomData<DB>,
}

impl<DB: TransactionalDb> FromDbConnection<DB> for MarfTrieDbImpl<DB> {
    fn from_db(db: &DbConnectionGuard<DB>) -> (r: Result<Self, DbError>)
        ensures
            r matches Ok(m) && m.local_ops() == 0,
    {
        Ok(Self { ops: 0, backend: PhantomData })
    }
}

impl<DB: TransactionalDb> MarfTrieDb<DB> for MarfTrieDbImpl<DB> {
    closed spec fn local_ops(&self) -> u64 {
        self.ops
    }

    fn do_something_else_immut(&self, conn: &mut DbConnectionGuard<DB>) -> (r: Result<(), DbError>)
    {
        let tx = match conn.transaction() {
            Ok(tx) => tx,
            Err(e) => {
                return Err(e);
            }
        };
        tx.commit(conn)
    }

    fn do_something_mut(&mut self) {
        self.ops = if self.ops < u64::MAX { self.ops + 1 } else { self.ops };
    }
}

} // verus!
