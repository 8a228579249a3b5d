//! A connection-sharing abstraction that lets several independent logical
//! database modules operate over one physical connection, while the handle
//! guarantees that at most one transaction is ever open on that connection
//! and that every transaction is finalized — committed or rolled back —
//! before the connection is handed out again.

mod db;
mod marfdb;
mod sortdb;
mod sqlite;

pub use db::DbConnection;
pub use db::DbConnectionGuard;
pub use db::DbError;
pub use db::DbInit;
pub use db::DbTransaction;
pub use db::DbTransactionGuard;
pub use db::FromDbConnection;
pub use db::TransactionalDb;
pub use db::TxPhase;
pub use db::lemma_at_most_one_live_guard;
pub use db::lemma_fresh_guard_never_live;
pub use db::lemma_idle_has_no_live_guard;
pub use marfdb::MarfTrieDb;
pub use marfdb::MarfTrieDbImpl;
pub use sortdb::SortitionDb;
pub use sortdb::SortitionDbImpl;
pub use sqlite::SQLiteDbImpl;
pub use sqlite::SQLiteDbParams;
pub use sqlite::SQLiteDbTransactionImpl;
