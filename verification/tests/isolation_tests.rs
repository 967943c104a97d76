use query_engine::connection::{Connection, ConnectionSettings};
use query_engine::error::ErrorKind;
use query_engine::isolation::{
    resolve_isolation, set_isolation_statement, transaction_begin_statements, Dialect,
    IsolationLevel, TransactionOptions,
};

fn settings(dialect: Dialect, url_isolation: Option<IsolationLevel>) -> ConnectionSettings {
    ConnectionSettings {
        dialect,
        url_isolation,
        pg_bouncer: false,
        statement_cache_size: 100,
        socket_timeout_ms: None,
        connect_timeout_ms: None,
    }
}

#[test]
fn isolation_resolution_prefers_caller_then_url_then_dialect_default() {
    // No per-call level, a connection-string level, a dialect default:
    // the connection-string level wins.
    assert_eq!(
        resolve_isolation(
            None,
            Some(IsolationLevel::RepeatableRead),
            Dialect::SqlServer,
        ),
        Some(IsolationLevel::RepeatableRead)
    );
    // A per-call level beats both.
    assert_eq!(
        resolve_isolation(
            Some(IsolationLevel::Serializable),
            Some(IsolationLevel::RepeatableRead),
            Dialect::SqlServer,
        ),
        Some(IsolationLevel::Serializable)
    );
    // Nothing requested or configured: the dialect default.
    assert_eq!(
        resolve_isolation(None, None, Dialect::SqlServer),
        Some(IsolationLevel::ReadCommitted)
    );
    assert_eq!(resolve_isolation(None, None, Dialect::Postgres), None);
}

#[test]
fn isolation_first_dialect_sets_before_begin() {
    // SQL Server scopes isolation to the connection: SET comes first.
    let opts = TransactionOptions::new(Some(IsolationLevel::ReadCommitted), true);
    let stmts = transaction_begin_statements(Dialect::SqlServer, opts);
    assert_eq!(
        stmts,
        vec![
            String::from("SET TRANSACTION ISOLATION LEVEL READ COMMITTED"),
            String::from("BEGIN TRAN"),
        ]
    );
}

#[test]
fn isolation_after_begin_for_transaction_scoped_dialect() {
    let opts = TransactionOptions::new(Some(IsolationLevel::RepeatableRead), false);
    let stmts = transaction_begin_statements(Dialect::Postgres, opts);
    assert_eq!(
        stmts,
        vec![
            String::from("BEGIN"),
            String::from("SET TRANSACTION ISOLATION LEVEL REPEATABLE READ"),
        ]
    );
}

#[test]
fn no_isolation_statement_when_no_level_resolved() {
    let opts = TransactionOptions::new(None, false);
    let stmts = transaction_begin_statements(Dialect::Postgres, opts);
    assert_eq!(stmts, vec![String::from("BEGIN")]);
}

#[test]
fn start_transaction_resolves_and_orders_statements() {
    // Connection-string isolation only, on SQL Server: SET first, then BEGIN.
    let conn = Connection::new(settings(
        Dialect::SqlServer,
        Some(IsolationLevel::Snapshot),
    ));
    let stmts = conn.start_transaction(None).expect("start should succeed");
    assert_eq!(
        stmts,
        vec![
            String::from("SET TRANSACTION ISOLATION LEVEL SNAPSHOT"),
            String::from("BEGIN TRAN"),
        ]
    );

    // PostgreSQL with nothing configured: a bare BEGIN.
    let conn = Connection::new(settings(Dialect::Postgres, None));
    let stmts = conn.start_transaction(None).expect("start should succeed");
    assert_eq!(stmts, vec![String::from("BEGIN")]);

    // A caller-requested level is set after BEGIN on PostgreSQL.
    let stmts = conn
        .start_transaction(Some(IsolationLevel::Serializable))
        .expect("start should succeed");
    assert_eq!(
        stmts,
        vec![
            String::from("BEGIN"),
            String::from("SET TRANSACTION ISOLATION LEVEL SERIALIZABLE"),
        ]
    );
}

#[test]
fn snapshot_is_invalid_on_postgres() {
    let conn = Connection::new(settings(Dialect::Postgres, None));
    assert!(matches!(
        conn.set_tx_isolation_level(IsolationLevel::Snapshot),
        Err(ErrorKind::InvalidIsolationLevel)
    ));
    assert!(matches!(
        conn.start_transaction(Some(IsolationLevel::Snapshot)),
        Err(ErrorKind::InvalidIsolationLevel)
    ));
    assert_eq!(
        conn.set_tx_isolation_level(IsolationLevel::ReadUncommitted),
        Ok(String::from("SET TRANSACTION ISOLATION LEVEL READ UNCOMMITTED"))
    );

    // SQL Server accepts snapshot isolation.
    let mssql = Connection::new(settings(Dialect::SqlServer, None));
    assert_eq!(
        mssql.set_tx_isolation_level(IsolationLevel::Snapshot),
        Ok(String::from("SET TRANSACTION ISOLATION LEVEL SNAPSHOT"))
    );
}

#[test]
fn isolation_statement_text() {
    assert_eq!(
        set_isolation_statement(IsolationLevel::ReadUncommitted),
        "SET TRANSACTION ISOLATION LEVEL READ UNCOMMITTED"
    );
    assert_eq!(
        set_isolation_statement(IsolationLevel::Serializable),
        "SET TRANSACTION ISOLATION LEVEL SERIALIZABLE"
    );
}
