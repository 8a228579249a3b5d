use vstd::prelude::*;

verus! {

use crate::db::DbConnection;
use crate::db::DbConnectionGuard;
use crate::db::DbError;
use crate::db::DbInit;
use crate::db::DbTransaction;
use crate::db::TransactionalDb;

/// The native SQLite connection type of the rusqlite crate, opaque to the
/// verified code: the adapter only carries it and hands it to the trusted
/// calls below.
#[verifier::external_type_specification]
#[verifier::external_body]
pub struct ExConnection(rusqlite::Connection);

/// Backend-specific configuration for the SQLite adapter: the path or URI
/// handed to the native open call (":memory:" for an in-memory database).
#[derive(Clone)]
pub struct SQLiteDbParams {
    pub uri: String,
}

/// Reference backend adapter: binds the connection and transaction
/// contracts to SQLite.  It owns the single native connection; no other
/// component holds a second native connection to the same resource.
pub struct SQLiteDbImpl {
    pub params: SQLiteDbParams,
    conn: rusqlite::Connection,
}

/// Relies on rusqlite::Connection::open: opens the database named by
/// `uri`, returning the native handle, or the native error rendered as
/// text when the open fails.
#[verifier::external_body]
fn open_native(uri: &str) -> (r: Result<rusqlite::Connection, String>) {
    rusqlite::Connection::open(uri).map_err(|e| e.to_string())
}

/// Relies on rusqlite::Connection::execute_batch: runs the given SQL
/// statements on the native connection, returning the native error
/// rendered as text when one fails.
#[verifier::external_body]
fn exec_batch(conn: &rusqlite::Connection, sql: &str) -> (r: Result<(), String>) {
    conn.execute_batch(sql).map_err(|e| e.to_string())
}

impl DbConnection for SQLiteDbImpl {
    type Params = SQLiteDbParams;

    fn establish(params: SQLiteDbParams) -> (r: Result<DbConnectionGuard<Self>, DbError>) {
        match open_native(params.uri.as_str()) {
            Ok(conn) => Ok(DbConnectionGuard::new(SQLiteDbImpl { params, conn })),
            Err(msg) => Err(DbError::Connection(msg)),
        }
    }
}

impl TransactionalDb for SQLiteDbImpl {
    type TxType = SQLiteDbTransactionImpl;

    fn transaction(&mut self) -> (r: Result<SQLiteDbTransactionImpl, DbError>) {
        match exec_batch(&self.conn, "BEGIN") {
            Ok(u) => Ok(SQLiteDbTransactionImpl {}),
            Err(msg) => Err(DbError::Transaction(msg)),
        }
    }

    fn recover(&mut self) -> (r: Result<(), DbError>) {
        match exec_batch(&self.conn, "ROLLBACK") {
            Ok(u) => Ok(u),
            Err(msg) => Err(DbError::Rollback(msg)),
        }
    }
}

/// The SQLite transaction token: a witness that a native transaction was
/// begun on the adapter's connection.  The native transaction itself lives
/// on the connection; finalizing hands the token back to the adapter.
pub struct SQLiteDbTransactionImpl {}

impl DbTransaction<SQLiteDbImpl> for SQLiteDbTransactionImpl {
    fn commit(self, db: &mut SQLiteDbImpl) -> (r: Result<(), DbError>) {
        match exec_batch(&db.conn, "COMMIT") {
            Ok(u) => Ok(u),
            Err(msg) => Err(DbError::Commit(msg)),
        }
    }

    fn rollback(self, db: &mut SQLiteDbImpl) -> (r: Result<(), DbError>) {
        match exec_batch(&db.conn, "ROLLBACK") {
            Ok(u) => Ok(u),
            Err(msg) => Err(DbError::Rollback(msg)),
        }
    }
}

impl DbInit<SQLiteDbParams> for SQLiteDbImpl {
    fn init(params: SQLiteDbParams) -> (r: Result<DbConnectionGuard<Self>, DbError>) {
        Self::establish(params)
    }
}

} // verus!
