//! The uniform connection state machine behind every database driver.
//!
//! A [`Connection`] owns one physical connection's statement cache and health
//! flag, and decides each step of a query: reject oversized parameter lists
//! before any I/O, consult the cache, demand a prepare for a miss, check the
//! parameter count against the prepared statement before the statement is
//! issued, and absorb the outcome of each timeout-guarded I/O call. The I/O
//! itself is performed by the embedding program, which reports back one
//! [`IoEvent`] per call.

use vstd::prelude::*;
use crate::cache::{bump, CachedStatement, StatementCache};
use crate::error::ErrorKind;
use crate::isolation::{
    dialect_supports, isolation_sql, resolved_isolation, begin_sql, resolve_isolation,
    set_isolation_statement, transaction_begin_statements, Dialect, IsolationLevel,
    TransactionOptions,
};
use crate::values::{find_column, ResultSet, Value};

verus! {

/// The largest number of bind parameters the wire protocol can carry for one
/// prepared statement.
pub const MAX_BIND_PARAMETERS: usize = 32767;

/// The configuration a connection is created with, as parsed from the
/// connection string by the embedding program.
#[derive(Debug, Clone)]
pub struct ConnectionSettings {
    /// The SQL conventions of the server.
    pub dialect: Dialect,
    /// The isolation level configured on the connection string, if any.
    pub url_isolation: Option<IsolationLevel>,
    /// True when the connection runs through a connection multiplexer that
    /// may silently swap backend sockets between calls.
    pub pg_bouncer: bool,
    /// The configured statement-cache bound.
    pub statement_cache_size: usize,
    /// The per-call socket deadline, in milliseconds; absent means unbounded.
    pub socket_timeout_ms: Option<u64>,
    /// The connect deadline, in milliseconds; absent means unbounded.
    pub connect_timeout_ms: Option<u64>,
}

/// The statement-cache bound a connection actually uses: behind a multiplexer
/// server-side prepared statements would become invalid, so caching is
/// disabled entirely there.
pub open spec fn effective_cache_capacity(s: ConnectionSettings) -> nat {
    if s.pg_bouncer {
        0
    } else {
        s.statement_cache_size as nat
    }
}

/// What one timeout-guarded I/O call came back with.
pub enum IoEvent<T> {
    /// The driver finished with a value.
    Done(T),
    /// The driver failed; `closed` is the driver's classification of whether
    /// the transport is severed.
    Failed { closed: bool, error: ErrorKind },
    /// The deadline elapsed before the driver finished; the I/O was
    /// abandoned.
    DeadlineElapsed,
}

/// What the caller must do next to advance one query.
pub enum QueryAction {
    /// The statement is ready and its parameter count matches: run it.
    RunStatement(u64),
    /// The cache missed: prepare the statement against the server, then hand
    /// the outcome to [`Connection::finish_prepare`].
    PrepareStatement,
}

/// One physical database connection's cached statements, health and policy.
pub struct Connection {
    /// The per-connection prepared-statement cache.
    pub cache: StatementCache,
    /// True until the first detected transport severance, and never again
    /// afterwards.
    pub healthy: bool,
    /// The configuration the connection was created with.
    pub settings: ConnectionSettings,
}

impl Connection {
    /// The statement cache is intact and bounded as the settings demand.
    pub open spec fn wf(&self) -> bool {
        &&& self.cache.wf()
        &&& self.cache.capacity_spec() == effective_cache_capacity(self.settings)
    }

    /// A fresh, healthy connection with an empty statement cache sized by the
    /// settings: the configured bound, or zero behind a multiplexer.
    pub fn new(settings: ConnectionSettings) -> (r: Connection)
        ensures
            r.wf(),
            r.healthy,
            r.settings == settings,
            r.cache.entries() == crate::cache::no_entries(),
            r.cache.hits_spec() == 0,
            r.cache.misses_spec() == 0,
    {
        let capacity: usize = if settings.pg_bouncer {
            0
        } else {
            settings.statement_cache_size
        };
        Connection { cache: StatementCache::new(capacity), healthy: true, settings }
    }

    /// A non-blocking read of the health flag: true until the first hard I/O
    /// failure.
    pub fn is_healthy(&self) -> (r: bool)
        ensures
            r == self.healthy,
    {
        self.healthy
    }

    /// Rejects a parameter list the wire protocol cannot carry, before any
    /// I/O is attempted. Only the PostgreSQL protocol carries the bound.
    pub fn check_bind_variables_len(&self, params_len: usize) -> (r: Result<(), ErrorKind>)
        ensures
            r is Ok <==> !(self.settings.dialect is Postgres && params_len > MAX_BIND_PARAMETERS),
            r matches Err(e) ==> (e matches ErrorKind::QueryInvalidInput { message } && message@
                == "too many bind variables in prepared statement, expected maximum of 32767, received "@
                + crate::strutil::dec_repr(params_len as nat)),
    {
        match self.settings.dialect {
            Dialect::Postgres => {
                if params_len > MAX_BIND_PARAMETERS {
                    let received = crate::strutil::usize_to_string(params_len);
                    let message = crate::strutil::str_concat(
                        "too many bind variables in prepared statement, expected maximum of 32767, received ",
                        received.as_str(),
                    );
                    Err(ErrorKind::QueryInvalidInput { message })
                } else {
                    Ok(())
                }
            }
            Dialect::SqlServer => Ok(()),
        }
    }

    /// Begins one raw query: rejects an oversized parameter list before
    /// anything else happens, then consults the statement cache by exact SQL
    /// text. A hit whose declared parameter count matches the supplied count
    /// yields the statement to run; a mismatch fails the query before any
    /// network write; a miss demands a prepare. Each consultation is counted
    /// for diagnostics.
    pub fn start_query(&mut self, sql: &String, params_len: usize) -> (r: Result<
        QueryAction,
        ErrorKind,
    >)
        requires
            old(self).wf(),
        ensures
            final(self).wf(),
            final(self).settings == old(self).settings,
            final(self).healthy == old(self).healthy,
            final(self).cache.entries() == old(self).cache.entries(),
            final(self).cache.capacity_spec() == old(self).cache.capacity_spec(),
            (old(self).settings.dialect is Postgres && params_len > MAX_BIND_PARAMETERS) ==> {
                &&& r matches Err(ErrorKind::QueryInvalidInput { .. })
                &&& final(self).cache == old(self).cache
            },
            !(old(self).settings.dialect is Postgres && params_len > MAX_BIND_PARAMETERS) ==> {
                &&& (old(self).cache.entries().dom().contains(sql@) ==> {
                    &&& r == (if old(self).cache.entries()[sql@].1 == params_len {
                        Ok::<QueryAction, ErrorKind>(
                            QueryAction::RunStatement(old(self).cache.entries()[sql@].0),
                        )
                    } else {
                        Err::<QueryAction, ErrorKind>(
                            ErrorKind::IncorrectNumberOfParameters {
                                expected: old(self).cache.entries()[sql@].1,
                                actual: params_len,
                            },
                        )
                    })
                    &&& final(self).cache.hits_spec() == bump(old(self).cache.hits_spec())
                    &&& final(self).cache.misses_spec() == old(self).cache.misses_spec()
                })
                &&& (!old(self).cache.entries().dom().contains(sql@) ==> {
                    &&& r == Ok::<QueryAction, ErrorKind>(QueryAction::PrepareStatement)
                    &&& final(self).cache.misses_spec() == bump(old(self).cache.misses_spec())
                    &&& final(self).cache.hits_spec() == old(self).cache.hits_spec()
                })
            },
    {
        if let Err(e) = self.check_bind_variables_len(params_len) {
            return Err(e);
        }
        match self.cache.lookup(sql) {
            Some(stmt) => {
                check_parameter_count(stmt, params_len)?;
                Ok(QueryAction::RunStatement(stmt.0))
            }
            None => Ok(QueryAction::PrepareStatement),
        }
    }

    /// Absorbs the outcome of one timeout-guarded socket I/O call: a deadline
    /// becomes a socket-timeout error and leaves the health flag alone; a
    /// driver failure classified as a severed transport demotes the health
    /// flag, exactly once and irreversibly, before the original error is
    /// propagated.
    pub fn absorb_socket_io<T>(&mut self, ev: IoEvent<T>) -> (r: Result<T, ErrorKind>)
        requires
            old(self).wf(),
            ev is DeadlineElapsed ==> old(self).settings.socket_timeout_ms is Some,
        ensures
            final(self).wf(),
            final(self).settings == old(self).settings,
            final(self).cache == old(self).cache,
            !old(self).healthy ==> !final(self).healthy,
            match ev {
                IoEvent::Done(t) => r == Ok::<T, ErrorKind>(t) && final(self).healthy == old(self).healthy,
                IoEvent::Failed { closed, error } => r == Err::<T, ErrorKind>(error) && final(self).healthy == (old(self).healthy && !closed),
                IoEvent::DeadlineElapsed => r == Err::<T, ErrorKind>(ErrorKind::SocketTimeout)
                    && final(self).healthy == old(self).healthy,
            },
    {
        match ev {
            IoEvent::Done(t) => Ok(t),
            IoEvent::Failed { closed, error } => {
                if closed {
                    self.healthy = false;
                }
                Err(error)
            }
            IoEvent::DeadlineElapsed => Err(ErrorKind::SocketTimeout),
        }
    }

    /// Finishes a cache miss: absorbs the prepare's outcome; on success the
    /// fresh statement is stored in the cache, where it survives whenever the
    /// cache's capacity is positive, and then the statement's declared
    /// parameter count is held against the supplied count — a mismatch fails
    /// the query before any network write for it.
    pub fn finish_prepare(
        &mut self,
        sql: &String,
        params_len: usize,
        ev: IoEvent<CachedStatement>,
    ) -> (r: Result<u64, ErrorKind>)
        requires
            old(self).wf(),
            ev is DeadlineElapsed ==> old(self).settings.socket_timeout_ms is Some,
        ensures
            final(self).wf(),
            final(self).settings == old(self).settings,
            !old(self).healthy ==> !final(self).healthy,
            final(self).cache.hits_spec() == old(self).cache.hits_spec(),
            final(self).cache.misses_spec() == old(self).cache.misses_spec(),
            match ev {
                IoEvent::Done(stmt) => {
                    &&& r == (if stmt.1 == params_len {
                        Ok::<u64, ErrorKind>(stmt.0)
                    } else {
                        Err::<u64, ErrorKind>(
                            ErrorKind::IncorrectNumberOfParameters {
                                expected: stmt.1,
                                actual: params_len,
                            },
                        )
                    })
                    &&& final(self).healthy == old(self).healthy
                    &&& (effective_cache_capacity(old(self).settings) > 0 ==> final(self).cache.entries().contains_pair(sql@, stmt))
                    &&& (effective_cache_capacity(old(self).settings) == 0 ==> final(self).cache.entries() == crate::cache::no_entries())
                    &&& forall|k: Seq<char>| #[trigger]
                        final(self).cache.entries().dom().contains(k) ==> k == sql@ || old(self).cache.entries().dom().contains(k)
                },
                IoEvent::Failed { closed, error } => r == Err::<u64, ErrorKind>(error)
                    && final(self).healthy == (old(self).healthy && !closed) && final(self).cache.entries() == old(self).cache.entries(),
                IoEvent::DeadlineElapsed => r == Err::<u64, ErrorKind>(ErrorKind::SocketTimeout)
                    && final(self).healthy == old(self).healthy && final(self).cache.entries() == old(self).cache.entries(),
            },
    {
        let stmt = self.absorb_socket_io(ev)?;
        self.cache.store(sql, stmt.0, stmt.1);
        check_parameter_count(stmt, params_len)?;
        Ok(stmt.0)
    }

    /// Issues the dialect-correct statement to change the session's isolation
    /// level, or rejects a level the dialect does not accept.
    pub fn set_tx_isolation_level(&self, level: IsolationLevel) -> (r: Result<String, ErrorKind>)
        ensures
            dialect_supports(self.settings.dialect, level) <==> r is Ok,
            r matches Ok(stmt) ==> stmt@ == "SET TRANSACTION ISOLATION LEVEL "@ + isolation_sql(level),
            r matches Err(e) ==> e matches ErrorKind::InvalidIsolationLevel,
    {
        if !self.settings.dialect.supports_isolation_level(level) {
            Err(ErrorKind::InvalidIsolationLevel)
        } else {
            Ok(set_isolation_statement(level))
        }
    }

    /// Plans one transaction start: resolves the isolation level from the
    /// caller's request, the connection string and the dialect default, in
    /// that order; rejects a resolved level the dialect does not accept; and
    /// otherwise emits the statements to issue, with the isolation statement
    /// before or after the begin statement as the dialect demands.
    pub fn start_transaction(&self, requested: Option<IsolationLevel>) -> (r: Result<
        Vec<String>,
        ErrorKind,
    >)
        ensures
            match resolved_isolation(
                requested,
                self.settings.url_isolation,
                self.settings.dialect,
            ) {
                None => r matches Ok(stmts) && stmts@.len() == 1 && stmts@[0]@ == begin_sql(self.settings.dialect),
                Some(level) => {
                    if dialect_supports(self.settings.dialect, level) {
                        &&& r matches Ok(stmts)
                        &&& stmts@.len() == 2
                        &&& (if self.settings.dialect is SqlServer {
                            stmts@[0]@ == "SET TRANSACTION ISOLATION LEVEL "@ + isolation_sql(level)
                                && stmts@[1]@ == begin_sql(self.settings.dialect)
                        } else {
                            stmts@[0]@ == begin_sql(self.settings.dialect) && stmts@[1]@
                                == "SET TRANSACTION ISOLATION LEVEL "@ + isolation_sql(level)
                        })
                    } else {
                        r matches Err(ErrorKind::InvalidIsolationLevel)
                    }
                },
            },
    {
        let resolved = resolve_isolation(
            requested,
            self.settings.url_isolation,
            self.settings.dialect,
        );
        if let Some(level) = resolved {
            if !self.settings.dialect.supports_isolation_level(level) {
                return Err(ErrorKind::InvalidIsolationLevel);
            }
        }
        let options = TransactionOptions::new(
            resolved,
            self.settings.dialect.requires_isolation_first(),
        );
        Ok(transaction_begin_statements(self.settings.dialect, options))
    }

    /// The statement to issue right after connecting, before any query: a
    /// dialect whose isolation setting is connection-scoped applies the
    /// connection string's isolation level once per physical connection.
    pub fn connect_initialization_statement(&self) -> (r: Option<String>)
        ensures
            match self.settings.url_isolation {
                Some(level) => {
                    if self.settings.dialect is SqlServer {
                        r matches Some(stmt) && stmt@ == "SET TRANSACTION ISOLATION LEVEL "@
                            + isolation_sql(level)
                    } else {
                        r is None
                    }
                },
                None => r is None,
            },
    {
        match self.settings.url_isolation {
            Some(level) => {
                if self.settings.dialect.requires_isolation_first() {
                    Some(set_isolation_statement(level))
                } else {
                    None
                }
            }
            None => None,
        }
    }

    /// The statement a pool must run to reset the server side of this
    /// connection before reuse: behind a multiplexer every server-side
    /// prepared statement is deallocated, elsewhere nothing is needed.
    pub fn server_reset_statement(&self) -> (r: Option<&'static str>)
        ensures
            self.settings.pg_bouncer ==> (r matches Some(stmt) && stmt@ == "DEALLOCATE ALL"@),
            !self.settings.pg_bouncer ==> r is None,
    {
        if self.settings.pg_bouncer {
            Some("DEALLOCATE ALL")
        } else {
            None
        }
    }
}

/// Law: the health flag is set false at most once and never restored. Given
/// the flag's value after each successive call on one connection, where every
/// single step keeps a false flag false — which each method of
/// [`Connection`] ensures — a flag once false is false at every later point.
pub proof fn lemma_health_never_reverts(states: Seq<bool>, k: int, n: int)
    requires
        0 <= k <= n < states.len(),
        forall|i: int| 0 <= i < states.len() - 1 ==> (!states[i] ==> !(#[trigger] states[i + 1])),
        !states[k],
    ensures
        !states[n],
    decreases n - k,
{
    if k < n {
        lemma_health_never_reverts(states, k + 1, n);
    }
}

/// Absorbs the outcome of the timeout-guarded connect: a deadline becomes a
/// connect-timeout error, any driver failure is propagated unchanged. There
/// is no health flag yet; a connection that never formed is simply not kept.
pub fn absorb_connect_io<T>(ev: IoEvent<T>) -> (r: Result<T, ErrorKind>)
    ensures
        match ev {
            IoEvent::Done(t) => r == Ok::<T, ErrorKind>(t),
            IoEvent::Failed { closed, error } => r == Err::<T, ErrorKind>(error),
            IoEvent::DeadlineElapsed => r == Err::<T, ErrorKind>(ErrorKind::ConnectTimeout),
        },
{
    match ev {
        IoEvent::Done(t) => Ok(t),
        IoEvent::Failed { closed: _, error } => Err(error),
        IoEvent::DeadlineElapsed => Err(ErrorKind::ConnectTimeout),
    }
}

/// Fails a statement whose declared parameter count does not match the number
/// of values supplied by the caller, before any I/O is attempted for it.
pub fn check_parameter_count(stmt: CachedStatement, params_len: usize) -> (r: Result<
    (),
    ErrorKind,
>)
    ensures
        r is Ok <==> stmt.1 == params_len,
        stmt.1 != params_len ==> r == Err::<(), ErrorKind>(
            ErrorKind::IncorrectNumberOfParameters { expected: stmt.1, actual: params_len },
        ),
{
    if stmt.1 != params_len {
        Err(ErrorKind::IncorrectNumberOfParameters { expected: stmt.1, actual: params_len })
    } else {
        Ok(())
    }
}

/// The query that asks the server for its version string.
pub fn version_query(dialect: Dialect) -> (r: &'static str)
    ensures
        dialect is Postgres ==> r@ == "SELECT version()"@,
        dialect is SqlServer ==> r@ == "SELECT @@VERSION AS version"@,
{
    match dialect {
        Dialect::Postgres => "SELECT version()",
        Dialect::SqlServer => "SELECT @@VERSION AS version",
    }
}

/// The best-effort server version string out of the row a version query
/// returned: the first `version` column of the first row, if the result has
/// one and it holds text. Parse trouble yields nothing rather than an error.
pub fn version_from_result(rows: &ResultSet) -> (r: Option<String>)
    requires
        rows.wf(),
    ensures
        match r {
            Some(s) => exists|j: int|
                {
                    &&& 0 <= j < rows.columns@.len()
                    &&& (#[trigger] rows.columns@[j])@ == "version"@
                    &&& (forall|k: int| 0 <= k < j ==> rows.columns@[k]@ != "version"@)
                    &&& rows.rows@.len() > 0
                    &&& (rows.rows@[0]@[j] matches Value::Text(t) && s@ == t@)
                },
            None => rows.rows@.len() == 0 || (forall|j: int|
                0 <= j < rows.columns@.len() ==> (#[trigger] rows.columns@[j])@ != "version"@)
                || exists|j: int|
                {
                    &&& 0 <= j < rows.columns@.len()
                    &&& (#[trigger] rows.columns@[j])@ == "version"@
                    &&& !(rows.rows@[0]@[j] matches Value::Text(_))
                },
        },
{
    match rows.get(0) {
        None => None,
        Some(row) => {
            match find_column(&rows.columns, "version") {
                None => None,
                Some(i) => row[i].to_text(),
            }
        }
    }
}

} // verus!
