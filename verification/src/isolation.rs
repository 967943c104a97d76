//! Transaction isolation levels and per-dialect negotiation policy.
//!
//! A transaction's isolation level is resolved in priority order: the level
//! requested by the caller for this transaction, then the level configured on
//! the connection string, then the dialect's hard-coded default. The dialect
//! also decides whether the isolation-setting statement is issued before or
//! after the transaction-begin statement.

use vstd::prelude::*;
use crate::strutil::str_concat;

verus! {

/// The standard transaction isolation levels.
#[derive(Debug, Clone, Copy, PartialEq, Eq, Structural)]
pub enum IsolationLevel {
    /// Reads may observe uncommitted writes.
    ReadUncommitted,
    /// Reads observe only committed writes.
    ReadCommitted,
    /// Repeated reads within one transaction observe the same rows.
    RepeatableRead,
    /// Reads observe a snapshot taken at transaction start.
    Snapshot,
    /// Transactions behave as if executed serially.
    Serializable,
}

/// The SQL keyword phrase for an isolation level.
pub open spec fn isolation_sql(level: IsolationLevel) -> Seq<char> {
    match level {
        IsolationLevel::ReadUncommitted => "READ UNCOMMITTED"@,
        IsolationLevel::ReadCommitted => "READ COMMITTED"@,
        IsolationLevel::RepeatableRead => "REPEATABLE READ"@,
        IsolationLevel::Snapshot => "SNAPSHOT"@,
        IsolationLevel::Serializable => "SERIALIZABLE"@,
    }
}

impl IsolationLevel {
    /// The SQL keyword phrase for this level.
    pub fn as_sql_str(&self) -> (r: &'static str)
        ensures
            r@ == isolation_sql(*self),
    {
        match self {
            IsolationLevel::ReadUncommitted => "READ UNCOMMITTED",
            IsolationLevel::ReadCommitted => "READ COMMITTED",
            IsolationLevel::RepeatableRead => "REPEATABLE READ",
            IsolationLevel::Snapshot => "SNAPSHOT",
            IsolationLevel::Serializable => "SERIALIZABLE",
        }
    }
}

/// A database product's SQL and transaction conventions.
#[derive(Debug, Clone, Copy, PartialEq, Eq, Structural)]
pub enum Dialect {
    /// PostgreSQL conventions.
    Postgres,
    /// Microsoft SQL Server conventions.
    SqlServer,
}

/// The dialect's transaction-begin statement text.
pub open spec fn begin_sql(d: Dialect) -> Seq<char> {
    match d {
        Dialect::Postgres => "BEGIN"@,
        Dialect::SqlServer => "BEGIN TRAN"@,
    }
}

/// The dialect's hard-coded default isolation level, used when neither the
/// caller nor the connection string chose one.
pub open spec fn dialect_default_isolation(d: Dialect) -> Option<IsolationLevel> {
    match d {
        Dialect::Postgres => None,
        Dialect::SqlServer => Some(IsolationLevel::ReadCommitted),
    }
}

/// Whether the dialect accepts the isolation level at all.
pub open spec fn dialect_supports(d: Dialect, level: IsolationLevel) -> bool {
    match d {
        Dialect::Postgres => !(level is Snapshot),
        Dialect::SqlServer => true,
    }
}

impl Dialect {
    /// True when isolation must be set before the transaction-begin
    /// statement: the dialect's isolation setting is connection-scoped, so it
    /// is issued first on every transaction start to override whatever a
    /// pooled connection carries.
    pub fn requires_isolation_first(&self) -> (r: bool)
        ensures
            r == (*self is SqlServer),
    {
        match self {
            Dialect::Postgres => false,
            Dialect::SqlServer => true,
        }
    }

    /// The dialect's transaction-begin statement.
    pub fn begin_statement(&self) -> (r: &'static str)
        ensures
            r@ == begin_sql(*self),
    {
        match self {
            Dialect::Postgres => "BEGIN",
            Dialect::SqlServer => "BEGIN TRAN",
        }
    }

    /// The dialect's hard-coded default isolation level.
    pub fn default_isolation(&self) -> (r: Option<IsolationLevel>)
        ensures
            r == dialect_default_isolation(*self),
    {
        match self {
            Dialect::Postgres => None,
            Dialect::SqlServer => Some(IsolationLevel::ReadCommitted),
        }
    }

    /// Whether the dialect accepts the isolation level.
    pub fn supports_isolation_level(&self, level: IsolationLevel) -> (r: bool)
        ensures
            r == dialect_supports(*self, level),
    {
        match self {
            Dialect::Postgres => !matches!(level, IsolationLevel::Snapshot),
            Dialect::SqlServer => true,
        }
    }
}

/// The isolation level a transaction will run under: the caller's request,
/// else the connection string's configured level, else the dialect default.
pub open spec fn resolved_isolation(
    requested: Option<IsolationLevel>,
    url_level: Option<IsolationLevel>,
    d: Dialect,
) -> Option<IsolationLevel> {
    if requested is Some {
        requested
    } else if url_level is Some {
        url_level
    } else {
        dialect_default_isolation(d)
    }
}

/// Resolves the isolation level for one transaction start.
pub fn resolve_isolation(
    requested: Option<IsolationLevel>,
    url_level: Option<IsolationLevel>,
    d: Dialect,
) -> (r: Option<IsolationLevel>)
    ensures
        r == resolved_isolation(requested, url_level, d),
{
    match requested {
        Some(level) => Some(level),
        None => match url_level {
            Some(level) => Some(level),
            None => d.default_isolation(),
        },
    }
}

/// The statement that changes the session's isolation level.
pub fn set_isolation_statement(level: IsolationLevel) -> (r: String)
    ensures
        r@ == "SET TRANSACTION ISOLATION LEVEL "@ + isolation_sql(level),
{
    str_concat("SET TRANSACTION ISOLATION LEVEL ", level.as_sql_str())
}

/// How one transaction is to be started.
#[derive(Debug, Clone, Copy)]
pub struct TransactionOptions {
    /// The resolved isolation level, if any is to be set.
    pub isolation_level: Option<IsolationLevel>,
    /// Whether the isolation statement goes before the begin statement.
    pub isolation_first: bool,
}

impl TransactionOptions {
    /// Packs the resolved isolation level with the dialect's ordering policy.
    pub fn new(isolation_level: Option<IsolationLevel>, isolation_first: bool) -> (r:
        TransactionOptions)
        ensures
            r.isolation_level == isolation_level,
            r.isolation_first == isolation_first,
    {
        TransactionOptions { isolation_level, isolation_first }
    }
}

/// The statements that open one transaction, in issue order: the begin
/// statement, with the isolation-setting statement before or after it
/// according to the dialect, and no isolation statement when no level was
/// resolved.
pub fn transaction_begin_statements(d: Dialect, options: TransactionOptions) -> (r: Vec<String>)
    ensures
        match options.isolation_level {
            None => r@.len() == 1 && r@[0]@ == begin_sql(d),
            Some(level) => {
                &&& r@.len() == 2
                &&& (if options.isolation_first {
                    r@[0]@ == "SET TRANSACTION ISOLATION LEVEL "@ + isolation_sql(level)
                        && r@[1]@ == begin_sql(d)
                } else {
                    r@[0]@ == begin_sql(d)
                        && r@[1]@ == "SET TRANSACTION ISOLATION LEVEL "@ + isolation_sql(level)
                })
            },
        },
{
    let mut stmts: Vec<String> = Vec::new();
    match options.isolation_level {
        None => {
            stmts.push(d.begin_statement().to_owned());
        }
        Some(level) => {
            if options.isolation_first {
                stmts.push(set_isolation_statement(level));
                stmts.push(d.begin_statement().to_owned());
            } else {
                stmts.push(d.begin_statement().to_owned());
                stmts.push(set_isolation_statement(level));
            }
        }
    }
    stmts
}

} // verus!
