use dbshare::DbConnection;
use dbshare::DbError;
use dbshare::DbInit;
use dbshare::DbTransactionGuard;
use dbshare::FromDbConnection;
use dbshare::MarfTrieDb;
use dbshare::MarfTrieDbImpl;
use dbshare::SQLiteDbImpl;
use dbshare::SQLiteDbParams;
use dbshare::SQLiteDbTransactionImpl;
use dbshare::SortitionDb;
use dbshare::SortitionDbImpl;

fn in_memory() -> dbshare::DbConnectionGuard<SQLiteDbImpl> {
    let params = SQLiteDbParams {
        uri: ":memory:".to_string(),
    };
    SQLiteDbImpl::establish(params).expect("in-memory establish should succeed")
}

#[test]
fn establish_in_memory_returns_usable_handle() {
    let conn = in_memory();
    assert!(conn.is_idle());
    assert_eq!(conn.committed_units(), 0);
    assert_eq!(conn.pending_units(), 0);
}

#[test]
fn establish_invalid_path_reports_connection_error() {
    let params = SQLiteDbParams {
        uri: "/this_directory_does_not_exist_anywhere/nested/even_less/db.sqlite3".to_string(),
    };
    let r = SQLiteDbImpl::establish(params);
    match r {
        Ok(_) => panic!("establish against a nonexistent directory must fail"),
        Err(DbError::Connection(msg)) => {
            assert!(!msg.is_empty(), "the underlying cause must be preserved");
        }
        Err(other) => panic!("expected a connection error, got {:?}", other),
    }
}

#[test]
fn commit_publishes_recorded_work() {
    let mut conn = in_memory();
    let tx = conn.transaction().expect("begin should succeed");
    conn.record_work(&tx).expect("recording under the live guard succeeds");
    assert_eq!(conn.pending_units(), 1);
    assert_eq!(conn.committed_units(), 0);
    tx.commit(&mut conn).expect("commit should succeed");
    assert!(conn.is_idle());
    assert_eq!(conn.committed_units(), 1);
    assert_eq!(conn.pending_units(), 0);
}

#[test]
fn rollback_discards_work_and_connection_is_reusable() {
    let mut conn = in_memory();

    let tx = conn.transaction().expect("begin should succeed");
    conn.record_work(&tx).expect("recording under the live guard succeeds");
    tx.rollback(&mut conn).expect("rollback should succeed");
    assert!(conn.is_idle());
    assert_eq!(conn.committed_units(), 0);
    assert_eq!(conn.pending_units(), 0);

    let tx = conn.transaction().expect("a transaction after rollback must still open");
    conn.record_work(&tx).expect("recording under the live guard succeeds");
    tx.commit(&mut conn).expect("commit after an earlier rollback should succeed");
    assert_eq!(conn.committed_units(), 1);
}

#[test]
fn abandoned_guard_is_reported_not_papered_over() {
    let mut conn = in_memory();
    let tx = conn.transaction().expect("begin should succeed");
    conn.record_work(&tx).expect("recording under the live guard succeeds");
    drop(tx);

    match conn.transaction() {
        Ok(_) => panic!("a second transaction must not silently open over an abandoned one"),
        Err(DbError::Abandoned(msg)) => assert!(!msg.is_empty()),
        Err(other) => panic!("expected an abandoned-transaction error, got {:?}", other),
    }
    assert!(conn.is_idle());
    assert_eq!(conn.committed_units(), 0);
    assert_eq!(conn.pending_units(), 0);

    let tx = conn.transaction().expect("the connection must be usable after the report");
    tx.commit(&mut conn).expect("commit should succeed");
}

#[test]
fn stale_guard_cannot_finalize_a_later_transaction() {
    let mut conn = in_memory();
    let stale = conn.transaction().expect("begin should succeed");
    let abandoned = conn.transaction();
    assert!(matches!(abandoned, Err(DbError::Abandoned(_))));

    let fresh = conn.transaction().expect("begin should succeed");
    conn.record_work(&fresh).expect("recording under the live guard succeeds");

    match stale.commit(&mut conn) {
        Ok(_) => panic!("a stale guard must not commit a later transaction"),
        Err(DbError::Other(msg)) => assert!(!msg.is_empty()),
        Err(other) => panic!("expected a protocol error, got {:?}", other),
    }
    assert!(!conn.is_idle());
    assert_eq!(conn.pending_units(), 1);

    fresh.commit(&mut conn).expect("the live guard still commits");
    assert_eq!(conn.committed_units(), 1);
}

#[test]
fn forged_guard_around_bare_token_is_rejected() {
    let mut conn = in_memory();
    let live = conn.transaction().expect("begin should succeed");
    conn.record_work(&live).expect("recording under the live guard succeeds");

    let forged: DbTransactionGuard<SQLiteDbImpl> = DbTransactionGuard::new(SQLiteDbTransactionImpl {});
    match forged.commit(&mut conn) {
        Ok(_) => panic!("a guard around a bare token must never finalize"),
        Err(DbError::Other(_)) => {}
        Err(other) => panic!("expected a protocol error, got {:?}", other),
    }
    assert_eq!(conn.pending_units(), 1);

    live.commit(&mut conn).expect("the live guard still commits");
    assert_eq!(conn.committed_units(), 1);
}

#[test]
fn double_record_then_commit_publishes_both_units() {
    let mut conn = in_memory();
    let tx = conn.transaction().expect("begin should succeed");
    conn.record_work(&tx).expect("first unit");
    conn.record_work(&tx).expect("second unit");
    tx.commit(&mut conn).expect("commit should succeed");
    assert_eq!(conn.committed_units(), 2);
}

#[test]
fn record_without_open_transaction_is_rejected() {
    let mut conn = in_memory();
    let tx = conn.transaction().expect("begin should succeed");
    tx.rollback(&mut conn).expect("rollback should succeed");

    let forged: DbTransactionGuard<SQLiteDbImpl> = DbTransactionGuard::new(SQLiteDbTransactionImpl {});
    match conn.record_work(&forged) {
        Ok(_) => panic!("work must not be recordable outside an open transaction"),
        Err(DbError::Other(_)) => {}
        Err(other) => panic!("expected a protocol error, got {:?}", other),
    }
    assert_eq!(conn.pending_units(), 0);
}

#[test]
fn two_modules_share_one_connection() {
    let mut conn = in_memory();
    let mut module_a =
        SortitionDbImpl::from_db(&conn).expect("module construction should succeed");
    let module_b = MarfTrieDbImpl::from_db(&conn).expect("module construction should succeed");

    module_a
        .do_some_mut_thing(&mut conn)
        .expect("the mutating operation should commit");
    assert_eq!(conn.committed_units(), 1);

    module_b
        .do_something_else_immut(&mut conn)
        .expect("the second module's transaction round-trip should succeed");

    let observer = SortitionDbImpl::from_db(&conn).expect("module construction should succeed");
    assert_eq!(observer.do_some_immut_thing(&conn), 1);
    assert!(conn.is_idle());
}

#[test]
fn module_operations_leave_no_transaction_open() {
    let mut conn = in_memory();
    let mut sortdb = SortitionDbImpl::from_db(&conn).expect("module construction should succeed");
    let mut marfdb = MarfTrieDbImpl::from_db(&conn).expect("module construction should succeed");

    sortdb.do_some_mut_thing(&mut conn).expect("first mutating call");
    assert!(conn.is_idle());
    marfdb.do_something_else_immut(&mut conn).expect("transaction round-trip");
    assert!(conn.is_idle());
    assert_eq!(sortdb.do_some_immut_thing(&conn), 1);
    marfdb.do_something_mut();
    sortdb.do_some_mut_thing(&mut conn).expect("second mutating call");
    assert_eq!(sortdb.do_some_immut_thing(&conn), 2);
}

#[test]
fn init_opens_a_fresh_handle_like_establish() {
    let params = SQLiteDbParams {
        uri: ":memory:".to_string(),
    };
    let conn = SQLiteDbImpl::init(params).expect("in-memory init should succeed");
    assert!(conn.is_idle());
    assert_eq!(conn.committed_units(), 0);
}

#[test]
fn error_kind_and_message_are_exposed() {
    let e = DbError::Transaction("begin failed".to_string());
    assert_eq!(e.kind_name(), "transaction");
    assert_eq!(e.message().as_str(), "begin failed");

    let params = SQLiteDbParams {
        uri: "/this_directory_does_not_exist_anywhere/db.sqlite3".to_string(),
    };
    let e = SQLiteDbImpl::establish(params).err().expect("establish must fail");
    assert_eq!(e.kind_name(), "connection");
}
