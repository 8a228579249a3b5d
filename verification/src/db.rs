use vstd::prelude::*;

verus! {

/// Uniform failure taxonomy for every layer of the connection-sharing
/// abstraction: opening a connection, beginning a transaction, finalizing
/// one, detecting an abandoned transaction, and adapter-specific conditions.
/// Each variant carries a descriptive message preserved from the layer that
/// reported the failure.
#[derive(Debug)]
pub enum DbError {
    Database(String),
    Commit(String),
    Rollback(String),
    Transaction(String),
    Connection(String),
    Abandoned(String),
    Other(String),
}

impl DbError {
    /// A short label naming the kind of failure, for display by callers.
    pub fn kind_name(&self) -> (r: &'static str)
        ensures
            self is Database ==> r@ == "database"@,
            self is Commit ==> r@ == "commit"@,
            self is Rollback ==> r@ == "rollback"@,
            self is Transaction ==> r@ == "transaction"@,
            self is Connection ==> r@ == "connection"@,
            self is Abandoned ==> r@ == "abandoned"@,
            self is Other ==> r@ == "other"@,
    {
        match self {
            DbError::Database(_) => "database",
            DbError::Commit(_) => "commit",
            DbError::Rollback(_) => "rollback",
            DbError::Transaction(_) => "transaction",
            DbError::Connection(_) => "connection",
            DbError::Abandoned(_) => "abandoned",
            DbError::Other(_) => "other",
        }
    }

    /// The message carried by this error.
    pub fn message(&self) -> (r: &String)
        ensures
            self matches DbError::Database(m) ==> r == m,
            self matches DbError::Commit(m) ==> r == m,
            self matches DbError::Rollback(m) ==> r == m,
            self matches DbError::Transaction(m) ==> r == m,
            self matches DbError::Connection(m) ==> r == m,
            self matches DbError::Abandoned(m) ==> r == m,
            self matches DbError::Other(m) ==> r == m,
    {
        match self {
            DbError::Database(m) => m,
            DbError::Commit(m) => m,
            DbError::Rollback(m) => m,
            DbError::Transaction(m) => m,
            DbError::Connection(m) => m,
            DbError::Abandoned(m) => m,
            DbError::Other(m) => m,
        }
    }
}

/// Whether the connection currently has a transaction in flight.
/// `Idle` means the connection can hand out a new transaction; `Open` means
/// one transaction has been issued and not yet finalized.
pub enum TxPhase {
    Idle,
    Open,
}

/// Capability contract for backends whose connections can be opened.
/// A backend declares its configuration type and one operation that opens
/// the physical link and wraps it in the shared handle.
pub trait DbConnection: Sized {
    type Params: Clone;

    /// Open the physical connection described by `params`.  Either a fresh,
    /// usable handle comes back — idle, with no work recorded on it — or a
    /// `Connection` error carrying the backend's message.
    fn establish(params: Self::Params) -> (r: Result<DbConnectionGuard<Self>, DbError>)
        ensures
            r matches Ok(g) ==> g.ready() && g.generation() == 0 && g.committed_work() == 0,
            r matches Err(e) ==> e is Connection,
    ;
}

/// Capability contract for backends whose connections support transactions.
/// `transaction` begins a native transaction and hands back the backend's
/// transaction token; `recover` performs the rollback-equivalent safety net
/// used when a token was discarded without being finalized.
pub trait TransactionalDb: DbConnection {
    type TxType: DbTransaction<Self>;

    /// Begin a native transaction.  Exclusive access to the backend is
    /// demanded by the signature; a backend that declines reports a
    /// `Transaction` error.
    fn transaction(&mut self) -> (r: Result<Self::TxType, DbError>)
        ensures
            r matches Err(e) ==> e is Transaction,
    ;

    /// Roll back whatever native transaction may be in flight, as the
    /// safety net for a token that was discarded without finalize.
    fn recover(&mut self) -> (r: Result<(), DbError>)
        ensures
            r matches Err(e) ==> e is Rollback,
    ;
}

/// Capability contract for a backend's transaction token.  Finalizing
/// consumes the token, so no token can be finalized twice; each operation
/// needs exclusive access to the backend that issued the token.
pub trait DbTransaction<DB>: Sized {
    /// Make the work of this transaction permanent.  A backend failure is
    /// reported as a `Commit` error.
    fn commit(self, db: &mut DB) -> (r: Result<(), DbError>)
        ensures
            r matches Err(e) ==> e is Commit,
    ;

    /// Discard the work of this transaction.  A backend failure is reported
    /// as a `Rollback` error.
    fn rollback(self, db: &mut DB) -> (r: Result<(), DbError>)
        ensures
            r matches Err(e) ==> e is Rollback,
    ;
}

/// The shared connection handle: the one runtime-checked exclusivity cell
/// around a backend connection.  Every logical database module works
/// through a handle like this one, and the handle guarantees that at most
/// one transaction is open on the connection at any instant.
///
/// The handle tracks, besides the backend connection itself:
/// - the `phase`, whether a transaction is currently open;
/// - the `generation`, a counter stamped onto every transaction guard it
///   issues, so a stale or forged guard is rejected at finalize time;
/// - a ledger of work units, `committed` and `pending`, so that what a
///   rolled-back transaction did is observably discarded and what a
///   committed one did is observably published.
pub struct DbConnectionGuard<DB> {
    db: DB,
    phase: TxPhase,
    generation: u64,
    committed: u64,
    pending: u64,
}

impl<DB> DbConnectionGuard<DB> {
    /// Whether a transaction is currently open on this connection.
    pub closed spec fn tx_phase(&self) -> TxPhase {
        self.phase
    }

    /// How many transactions this connection has issued so far.
    pub closed spec fn generation(&self) -> u64 {
        self.generation
    }

    /// Work units published by committed transactions.
    pub closed spec fn committed_work(&self) -> u64 {
        self.committed
    }

    /// Work units recorded by the currently open transaction.
    pub closed spec fn pending_work(&self) -> u64 {
        self.pending
    }

    /// Well-formedness of the handle: the ledger fits in the counter, no
    /// work is pending unless a transaction is open, and an open
    /// transaction implies at least one was ever issued.
    pub open spec fn wf(&self) -> bool {
        &&& self.committed_work() + self.pending_work() <= u64::MAX
        &&& self.tx_phase() is Idle ==> self.pending_work() == 0
        &&& self.tx_phase() is Open ==> self.generation() >= 1
    }

    /// The handle is ready to begin a fresh unit of work: well-formed and
    /// with no transaction in flight.
    pub open spec fn ready(&self) -> bool {
        self.wf() && self.tx_phase() is Idle
    }

    /// Wrap a freshly opened backend connection in a handle.  The handle
    /// starts idle, with no transactions issued and no work recorded.
    pub fn new(db: DB) -> (r: Self)
        ensures
            r.ready(),
            r.generation() == 0,
            r.committed_work() == 0,
            r.pending_work() == 0,
    {
        Self { db, phase: TxPhase::Idle, generation: 0, committed: 0, pending: 0 }
    }

    /// Work units published by committed transactions, as a runtime value.
    pub fn committed_units(&self) -> (r: u64)
        ensures
            r == self.committed_work(),
    {
        self.committed
    }

    /// Work units recorded by the open transaction, as a runtime value.
    pub fn pending_units(&self) -> (r: u64)
        ensures
            r == self.pending_work(),
    {
        self.pending
    }

    /// Whether no transaction is in flight, as a runtime value.
    pub fn is_idle(&self) -> (r: bool)
        ensures
            r == (self.tx_phase() is Idle),
    {
        match self.phase {
            TxPhase::Idle => true,
            TxPhase::Open => false,
        }
    }
}

impl<DB: TransactionalDb> DbConnectionGuard<DB> {
    /// Begin a transaction on the shared connection.
    ///
    /// If a previous transaction guard was discarded without commit or
    /// rollback, the connection is still marked open: that abandonment is
    /// reported as an `Abandoned` error — never silently papered over by a
    /// second open transaction — and the rollback-equivalent safety net is
    /// applied so the connection is usable again afterwards.
    ///
    /// From an idle connection, a successful native begin hands out a
    /// guard stamped with a fresh generation, and the connection is marked
    /// open on that generation; a backend refusal surfaces as a
    /// `Transaction` error and leaves the connection idle.
    pub fn transaction(&mut self) -> (r: Result<DbTransactionGuard<DB>, DbError>)
        requires
            old(self).wf(),
        ensures
            final(self).wf(),
            final(self).committed_work() == old(self).committed_work(),
            old(self).tx_phase() is Open ==> {
                &&& final(self).tx_phase() is Idle
                &&& final(self).generation() == old(self).generation()
                &&& r matches Err(e) && e is Abandoned
            },
            old(self).tx_phase() is Idle && old(self).generation() == u64::MAX ==> {
                &&& *final(self) == *old(self)
                &&& r matches Err(e) && e is Other
            },
            old(self).tx_phase() is Idle && old(self).generation() < u64::MAX ==> {
                &&& r matches Ok(g) ==> final(self).tx_phase() is Open
                    && final(self).generation() == old(self).generation() + 1
                    && g.generation() == old(self).generation() + 1
                    && g.live_on(final(self))
                    && final(self).pending_work() == 0
                &&& r matches Err(e) ==> e is Transaction
                    && final(self).tx_phase() is Idle
                    && final(self).generation() == old(self).generation()
            },
    {
        match self.phase {
            TxPhase::Open => {
                let _ = self.db.recover();
                self.phase = TxPhase::Idle;
                self.pending = 0;
                Err(DbError::Abandoned(
                    "a transaction guard was discarded without commit or rollback".to_string(),
                ))
            }
            TxPhase::Idle => {
                if self.generation == u64::MAX {
                    Err(DbError::Other("the transaction generation counter is exhausted".to_string()))
                } else {
                    match self.db.transaction() {
                        Ok(tx) => {
                            self.generation = self.generation + 1;
                            self.phase = TxPhase::Open;
                            self.pending = 0;
                            Ok(DbTransactionGuard { tx, generation: self.generation })
                        }
                        Err(e) => Err(e),
                    }
                }
            }
        }
    }

    /// Record one unit of work under the open transaction witnessed by
    /// `tx`.  The unit stays pending — visible neither before commit nor
    /// after rollback — and is rejected if `tx` is not the live guard of
    /// this connection or the ledger is full.
    pub fn record_work(&mut self, tx: &DbTransactionGuard<DB>) -> (r: Result<(), DbError>)
        requires
            old(self).wf(),
        ensures
            final(self).wf(),
            final(self).tx_phase() == old(self).tx_phase(),
            final(self).generation() == old(self).generation(),
            final(self).committed_work() == old(self).committed_work(),
            !tx.live_on(old(self)) ==> {
                &&& *final(self) == *old(self)
                &&& r matches Err(e) && e is Other
            },
            tx.live_on(old(self))
                && old(self).committed_work() + old(self).pending_work() < u64::MAX ==> {
                &&& r is Ok
                &&& final(self).pending_work() == old(self).pending_work() + 1
            },
            tx.live_on(old(self))
                && old(self).committed_work() + old(self).pending_work() == u64::MAX ==> {
                &&& *final(self) == *old(self)
                &&& r matches Err(e) && e is Other
            },
    {
        let live = match self.phase {
            TxPhase::Open => tx.matches_generation(self.generation),
            TxPhase::Idle => false,
        };
        if !live {
            Err(DbError::Other(
                "work can only be recorded under the live transaction of this connection".to_string(),
            ))
        } else if self.pending < u64::MAX - self.committed {
            self.pending = self.pending + 1;
            Ok(())
        } else {
            Err(DbError::Other("the work ledger of this connection is full".to_string()))
        }
    }
}

/// Scoped wrapper around a backend transaction token.  Finalizing —
/// committing or rolling back — consumes the guard, so a transaction can be
/// finalized at most once; the stamped generation ties the guard to the one
/// transaction the issuing connection has open.
pub struct DbTransactionGuard<DB> where DB: TransactionalDb {
    tx: DB::TxType,
    generation: u64,
}

impl<DB: TransactionalDb> DbTransactionGuard<DB> {
    /// The generation stamped on this guard by the issuing connection.
    pub closed spec fn generation(&self) -> u64 {
        self.generation
    }

    /// Whether this guard witnesses the one transaction open on `conn`.
    pub open spec fn live_on(&self, conn: &DbConnectionGuard<DB>) -> bool {
        conn.tx_phase() is Open && self.generation() == conn.generation()
    }

    /// Runtime check that this guard carries the given generation.
    pub fn matches_generation(&self, generation: u64) -> (r: bool)
        ensures
            r == (self.generation() == generation),
    {
        self.generation == generation
    }

    /// Wrap a bare backend token.  A guard built this way carries
    /// generation zero, which a well-formed connection never has while a
    /// transaction is open, so it can never finalize one.
    pub fn new(tx: DB::TxType) -> (r: Self)
        ensures
            r.generation() == 0,
    {
        Self { tx, generation: 0 }
    }

    /// Make the work of this transaction permanent.
    ///
    /// Only the live guard of `conn` can commit: anything else leaves the
    /// connection untouched and reports an `Other` error.  A successful
    /// commit publishes the pending work and leaves the connection ready
    /// for the next transaction; a backend `Commit` failure discards the
    /// pending work instead, and the connection is ready again either way.
    pub fn commit(self, conn: &mut DbConnectionGuard<DB>) -> (r: Result<(), DbError>)
        requires
            old(conn).wf(),
        ensures
            final(conn).wf(),
            final(conn).generation() == old(conn).generation(),
            !self.live_on(old(conn)) ==> {
                &&& *final(conn) == *old(conn)
                &&& r matches Err(e) && e is Other
            },
            self.live_on(old(conn)) ==> {
                &&& final(conn).ready()
                &&& final(conn).pending_work() == 0
                &&& (r is Ok ==> final(conn).committed_work()
                    == old(conn).committed_work() + old(conn).pending_work())
                &&& (r matches Err(e) ==> e is Commit
                    && final(conn).committed_work() == old(conn).committed_work())
            },
    {
        let live = match conn.phase {
            TxPhase::Open => self.generation == conn.generation,
            TxPhase::Idle => false,
        };
        if !live {
            return Err(DbError::Other(
                "the guard does not witness an open transaction on this connection".to_string(),
            ));
        }
        let res = self.tx.commit(&mut conn.db);
        conn.phase = TxPhase::Idle;
        match res {
            Ok(u) => {
                conn.committed = conn.committed + conn.pending;
                conn.pending = 0;
                Ok(u)
            }
            Err(e) => {
                conn.pending = 0;
                Err(e)
            }
        }
    }

    /// Discard the work of this transaction.
    ///
    /// Only the live guard of `conn` can roll back: anything else leaves
    /// the connection untouched and reports an `Other` error.  Whether the
    /// backend rollback succeeds or reports a `Rollback` failure, the
    /// pending work is discarded, the committed work is untouched, and the
    /// connection is ready for a subsequent transaction.
    pub fn rollback(self, conn: &mut DbConnectionGuard<DB>) -> (r: Result<(), DbError>)
        requires
            old(conn).wf(),
        ensures
            final(conn).wf(),
            final(conn).generation() == old(conn).generation(),
            !self.live_on(old(conn)) ==> {
                &&& *final(conn) == *old(conn)
                &&& r matches Err(e) && e is Other
            },
            self.live_on(old(conn)) ==> {
                &&& final(conn).ready()
                &&& final(conn).pending_work() == 0
                &&& final(conn).committed_work() == old(conn).committed_work()
                &&& (r matches Err(e) ==> e is Rollback)
            },
    {
        let live = match conn.phase {
            TxPhase::Open => self.generation == conn.generation,
            TxPhase::Idle => false,
        };
        if !live {
            return Err(DbError::Other(
                "the guard does not witness an open transaction on this connection".to_string(),
            ));
        }
        let res = self.tx.rollback(&mut conn.db);
        conn.phase = TxPhase::Idle;
        conn.pending = 0;
        res
    }
}

/// Contract for logical database modules that construct themselves from a
/// shared connection handle: the only sanctioned way a module obtains
/// access to the shared connection.
pub trait FromDbConnection<DB> where DB: DbConnection, Self: Sized {
    fn from_db(db: &DbConnectionGuard<DB>) -> (r: Result<Self, DbError>);
}

/// Contract for backends that can be opened straight into a shared handle,
/// with the same guarantee as `DbConnection::establish`.
pub trait DbInit<Params> where Self: DbConnection {
    fn init(params: Params) -> (r: Result<DbConnectionGuard<Self>, DbError>)
        ensures
            r matches Ok(g) ==> g.ready() && g.generation() == 0 && g.committed_work() == 0,
            r matches Err(e) ==> e is Connection,
    ;
}

/// At most one transaction guard is live on a connection at any instant:
/// any two guards live on the same handle carry the same generation, so
/// they witness the same open transaction.
pub proof fn lemma_at_most_one_live_guard<DB: TransactionalDb>(
    conn: &DbConnectionGuard<DB>,
    g1: &DbTransactionGuard<DB>,
    g2: &DbTransactionGuard<DB>,
)
    requires
        g1.live_on(conn),
        g2.live_on(conn),
    ensures
        g1.generation() == g2.generation(),
{
}

/// A guard wrapped around a bare backend token is never live on a
/// well-formed connection: live guards come from `transaction` alone.
pub proof fn lemma_fresh_guard_never_live<DB: TransactionalDb>(
    conn: &DbConnectionGuard<DB>,
    g: &DbTransactionGuard<DB>,
)
    requires
        conn.wf(),
        g.generation() == 0,
    ensures
        !g.live_on(conn),
{
}

/// Once a connection is idle — as it is after every finalize — no guard at
/// all is live on it: a finalized transaction cannot be finalized again,
/// and no stale guard can touch a later one.
pub proof fn lemma_idle_has_no_live_guard<DB: TransactionalDb>(
    conn: &DbConnectionGuard<DB>,
    g: &DbTransactionGuard<DB>,
)
    requires
        conn.tx_phase() is Idle,
    ensures
        !g.live_on(conn),
{
}

} // verus!
