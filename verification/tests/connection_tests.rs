use query_engine::connection::{
    absorb_connect_io, check_parameter_count, version_from_result, version_query, Connection,
    ConnectionSettings, IoEvent, QueryAction,
};
use query_engine::error::ErrorKind;
use query_engine::isolation::{Dialect, IsolationLevel};
use query_engine::values::{ResultSet, Value};

fn postgres_settings(cache_size: usize, pg_bouncer: bool) -> ConnectionSettings {
    ConnectionSettings {
        dialect: Dialect::Postgres,
        url_isolation: None,
        pg_bouncer,
        statement_cache_size: cache_size,
        socket_timeout_ms: Some(5_000),
        connect_timeout_ms: Some(5_000),
    }
}

#[test]
fn second_query_hits_the_cache_when_capacity_is_positive() {
    let mut conn = Connection::new(postgres_settings(100, false));
    let sql = String::from("SELECT * FROM users WHERE id = $1");

    // First call: the cache is cold, the statement must be prepared.
    match conn.start_query(&sql, 1) {
        Ok(QueryAction::PrepareStatement) => {}
        _ => panic!("expected a miss"),
    }
    assert_eq!(conn.cache.misses(), 1);
    assert_eq!(conn.cache.hits(), 0);

    // The prepare comes back and the statement is cached.
    let handle = conn
        .finish_prepare(&sql, 1, IoEvent::Done((7, 1)))
        .expect("prepare should succeed");
    assert_eq!(handle, 7);

    // Second call with the same text: a hit, no further prepare.
    match conn.start_query(&sql, 1) {
        Ok(QueryAction::RunStatement(h)) => assert_eq!(h, 7),
        _ => panic!("expected a cache hit"),
    }
    assert_eq!(conn.cache.hits(), 1);
    assert_eq!(conn.cache.misses(), 1);

    // The same text with the wrong parameter count fails before any run.
    match conn.start_query(&sql, 2) {
        Err(ErrorKind::IncorrectNumberOfParameters { expected, actual }) => {
            assert_eq!(expected, 1);
            assert_eq!(actual, 2);
        }
        _ => panic!("expected IncorrectNumberOfParameters"),
    }
}

#[test]
fn every_lookup_misses_when_capacity_is_zero() {
    let mut conn = Connection::new(postgres_settings(0, false));
    let sql = String::from("SELECT 1");

    assert!(matches!(conn.start_query(&sql, 0), Ok(QueryAction::PrepareStatement)));
    conn.finish_prepare(&sql, 0, IoEvent::Done((1, 0))).expect("prepare should succeed");
    // Nothing was retained: the second call misses again.
    assert!(matches!(conn.start_query(&sql, 0), Ok(QueryAction::PrepareStatement)));
    assert_eq!(conn.cache.misses(), 2);
    assert_eq!(conn.cache.hits(), 0);
}

#[test]
fn pg_bouncer_disables_caching_regardless_of_configured_size() {
    let mut conn = Connection::new(postgres_settings(100, true));
    let sql = String::from("SELECT 1");
    assert!(matches!(conn.start_query(&sql, 0), Ok(QueryAction::PrepareStatement)));
    conn.finish_prepare(&sql, 0, IoEvent::Done((1, 0))).expect("prepare should succeed");
    assert!(matches!(conn.start_query(&sql, 0), Ok(QueryAction::PrepareStatement)));
}

#[test]
fn parameter_count_mismatch_fails_before_io() {
    // The prepared statement expects one parameter; two were supplied.
    match check_parameter_count((9, 1), 2) {
        Err(ErrorKind::IncorrectNumberOfParameters { expected, actual }) => {
            assert_eq!(expected, 1);
            assert_eq!(actual, 2);
        }
        _ => panic!("expected IncorrectNumberOfParameters"),
    }
    assert!(check_parameter_count((9, 2), 2).is_ok());

    // A freshly prepared statement is held to the same rule.
    let mut conn = Connection::new(postgres_settings(100, false));
    let sql = String::from("SELECT $1");
    conn.start_query(&sql, 2).expect("the lookup itself succeeds");
    match conn.finish_prepare(&sql, 2, IoEvent::Done((4, 1))) {
        Err(ErrorKind::IncorrectNumberOfParameters { expected, actual }) => {
            assert_eq!(expected, 1);
            assert_eq!(actual, 2);
        }
        _ => panic!("expected IncorrectNumberOfParameters"),
    }
}

#[test]
fn oversized_parameter_list_is_rejected_without_touching_the_cache() {
    let mut conn = Connection::new(postgres_settings(100, false));
    let sql = String::from("SELECT 1");
    match conn.start_query(&sql, 32_768) {
        Err(ErrorKind::QueryInvalidInput { message }) => {
            assert_eq!(
                message,
                "too many bind variables in prepared statement, expected maximum of 32767, received 32768"
            );
        }
        _ => panic!("expected QueryInvalidInput"),
    }
    assert_eq!(conn.cache.hits(), 0);
    assert_eq!(conn.cache.misses(), 0);
}

#[test]
fn closed_socket_demotes_health_irreversibly() {
    let mut conn = Connection::new(postgres_settings(100, false));
    assert!(conn.is_healthy());

    // A socket timeout alone does not mark the connection unhealthy.
    let r: Result<(), ErrorKind> = conn.absorb_socket_io(IoEvent::DeadlineElapsed);
    assert!(matches!(r, Err(ErrorKind::SocketTimeout)));
    assert!(conn.is_healthy());

    // A detected close does, and the original error is propagated.
    let r: Result<(), ErrorKind> = conn.absorb_socket_io(IoEvent::Failed {
        closed: true,
        error: ErrorKind::ConnectionClosed,
    });
    assert!(matches!(r, Err(ErrorKind::ConnectionClosed)));
    assert!(!conn.is_healthy());

    // No later outcome brings the flag back.
    let r: Result<u64, ErrorKind> = conn.absorb_socket_io(IoEvent::Done(3));
    assert!(matches!(r, Ok(3)));
    assert!(!conn.is_healthy());
    let sql = String::from("SELECT 1");
    conn.start_query(&sql, 0).expect("query should start");
    assert!(!conn.is_healthy());
}

#[test]
fn non_closed_failures_keep_the_connection_healthy() {
    let mut conn = Connection::new(postgres_settings(100, false));
    let r: Result<(), ErrorKind> = conn.absorb_socket_io(IoEvent::Failed {
        closed: false,
        error: ErrorKind::InvalidIsolationLevel,
    });
    assert!(matches!(r, Err(ErrorKind::InvalidIsolationLevel)));
    assert!(conn.is_healthy());
}

#[test]
fn version_query_per_dialect() {
    assert_eq!(version_query(Dialect::Postgres), "SELECT version()");
    assert_eq!(version_query(Dialect::SqlServer), "SELECT @@VERSION AS version");
}

#[test]
fn version_is_best_effort() {
    let rows = ResultSet::new(
        vec![String::from("version")],
        vec![vec![Value::Text(String::from("PostgreSQL 15.2"))]],
    );
    assert_eq!(version_from_result(&rows), Some(String::from("PostgreSQL 15.2")));

    let no_rows = ResultSet::new(vec![String::from("version")], vec![]);
    assert_eq!(version_from_result(&no_rows), None);

    let wrong_column = ResultSet::new(
        vec![String::from("other")],
        vec![vec![Value::Text(String::from("x"))]],
    );
    assert_eq!(version_from_result(&wrong_column), None);

    let not_text = ResultSet::new(vec![String::from("version")], vec![vec![Value::Int64(1)]]);
    assert_eq!(version_from_result(&not_text), None);
}

#[test]
fn connect_deadline_yields_a_connect_timeout() {
    let r: Result<u32, ErrorKind> = absorb_connect_io(IoEvent::DeadlineElapsed);
    assert!(matches!(r, Err(ErrorKind::ConnectTimeout)));
    let r: Result<u32, ErrorKind> = absorb_connect_io(IoEvent::Done(5));
    assert!(matches!(r, Ok(5)));
    let r: Result<u32, ErrorKind> = absorb_connect_io(IoEvent::Failed {
        closed: false,
        error: ErrorKind::AuthenticationFailed { user: String::from("WRONG") },
    });
    match r {
        Err(ErrorKind::AuthenticationFailed { user }) => assert_eq!(user, "WRONG"),
        _ => panic!("expected the driver error unchanged"),
    }
    let r: Result<u32, ErrorKind> = absorb_connect_io(IoEvent::Failed {
        closed: false,
        error: ErrorKind::DatabaseDoesNotExist { db_name: String::from("this_does_not_exist") },
    });
    match r {
        Err(ErrorKind::DatabaseDoesNotExist { db_name }) => {
            assert_eq!(db_name, "this_does_not_exist")
        }
        _ => panic!("expected the driver error unchanged"),
    }
    let r: Result<u32, ErrorKind> = absorb_connect_io(IoEvent::Failed {
        closed: false,
        error: ErrorKind::TlsError { message: String::from("handshake failed") },
    });
    assert!(matches!(r, Err(ErrorKind::TlsError { .. })));
}

#[test]
fn connection_scoped_isolation_is_applied_at_connect_time() {
    let mut settings = postgres_settings(100, false);
    settings.dialect = Dialect::SqlServer;
    settings.url_isolation = Some(IsolationLevel::Serializable);
    let conn = Connection::new(settings);
    assert_eq!(
        conn.connect_initialization_statement(),
        Some(String::from("SET TRANSACTION ISOLATION LEVEL SERIALIZABLE"))
    );

    // Transaction-scoped dialects apply isolation per transaction instead.
    let mut pg = postgres_settings(100, false);
    pg.url_isolation = Some(IsolationLevel::Serializable);
    assert_eq!(Connection::new(pg).connect_initialization_statement(), None);
}

#[test]
fn server_reset_deallocates_behind_a_multiplexer() {
    let conn = Connection::new(postgres_settings(100, true));
    assert_eq!(conn.server_reset_statement(), Some("DEALLOCATE ALL"));
    let plain = Connection::new(postgres_settings(100, false));
    assert_eq!(plain.server_reset_statement(), None);
}
