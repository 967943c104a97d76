//! The unified error taxonomy of the execution core.
//!
//! Low-level driver failures are wrapped once into [`ErrorKind`] at the point
//! they cross the connection boundary; the executor does not reinterpret them
//! further except to decide rollback-versus-commit for transactional batches.

use vstd::prelude::*;
use crate::strutil::{newlines_to_spaces, replace_newlines, str_concat};

verus! {

/// The kinds of failure the execution core can surface.
#[derive(Debug, Clone, PartialEq, Eq)]
pub enum ErrorKind {
    /// The connect deadline elapsed before the handshake finished.
    ConnectTimeout,
    /// The per-call socket deadline elapsed before the server answered.
    SocketTimeout,
    /// The underlying transport was severed; always demotes the connection's
    /// health flag.
    ConnectionClosed,
    /// The server rejected the credentials at connect time.
    AuthenticationFailed { user: String },
    /// The target database was missing at connect time.
    DatabaseDoesNotExist { db_name: String },
    /// Certificate or identity loading, or the TLS handshake, failed.
    TlsError { message: String },
    /// The number of supplied parameters does not match what the prepared
    /// statement expects; raised before issuing the statement.
    IncorrectNumberOfParameters { expected: usize, actual: usize },
    /// The requested isolation level is unsupported by the active dialect.
    InvalidIsolationLevel,
    /// A caller-side precondition was violated; rejected without contacting
    /// the server.
    QueryInvalidInput { message: String },
    /// A column required by the caller is absent from a result set.
    ColumnNotFound { column: String },
}

impl ErrorKind {
    /// True for the error that signals a severed transport.
    pub fn is_closed(&self) -> (r: bool)
        ensures
            r == (*self matches ErrorKind::ConnectionClosed),
    {
        match self {
            ErrorKind::ConnectionClosed => true,
            _ => false,
        }
    }
}

/// Errors of the interactive-transaction lifecycle.
#[derive(Debug, PartialEq, Eq)]
pub enum TransactionError {
    /// The transaction could not be started in the given time.
    AcquisitionTimeout,
    /// A transaction start was attempted inside an open transaction.
    AlreadyStarted,
    /// The transaction id is unknown, expired, or predates a disconnect.
    NotFound,
    /// The transaction was already committed or rolled back.
    Closed { reason: String },
    /// The transaction manager answered something unexpected.
    Unknown { reason: String },
}

impl TransactionError {
    /// The user-facing message for this error.
    pub fn message(&self) -> (r: String)
        ensures
            match *self {
                TransactionError::AcquisitionTimeout =>
                    r@ == "Unable to start a transaction in the given time."@,
                TransactionError::AlreadyStarted =>
                    r@ == "Attempted to start a transaction inside of a transaction."@,
                TransactionError::NotFound =>
                    r@ == "Transaction not found. Transaction ID is invalid, refers to an old closed transaction Prisma doesn't have information about anymore, or was obtained before disconnecting."@,
                TransactionError::Closed { reason } =>
                    r@ == "Transaction already closed: "@ + reason@ + "."@,
                TransactionError::Unknown { reason } =>
                    r@ == "Unexpected response: "@ + reason@ + "."@,
            },
    {
        match self {
            TransactionError::AcquisitionTimeout => {
                "Unable to start a transaction in the given time.".to_owned()
            }
            TransactionError::AlreadyStarted => {
                "Attempted to start a transaction inside of a transaction.".to_owned()
            }
            TransactionError::NotFound => {
                "Transaction not found. Transaction ID is invalid, refers to an old closed transaction Prisma doesn't have information about anymore, or was obtained before disconnecting.".to_owned()
            }
            TransactionError::Closed { reason } => {
                let head = str_concat("Transaction already closed: ", reason.as_str());
                str_concat(head.as_str(), ".")
            }
            TransactionError::Unknown { reason } => {
                let head = str_concat("Unexpected response: ", reason.as_str());
                str_concat(head.as_str(), ".")
            }
        }
    }
}

/// Which database product a connection talks to, as user-facing metadata.
#[derive(Debug, Clone, Copy)]
pub enum ConnectionInfo {
    /// A PostgreSQL-compatible server.
    Postgres,
    /// A Microsoft SQL Server.
    Mssql,
}

/// A fully rendered, user-facing error.
#[derive(Debug, Clone)]
pub struct KnownError {
    /// The rendered message.
    pub message: String,
    /// The stable error code.
    pub error_code: u32,
}

/// Renders a driver error into a user-facing error, when a dedicated
/// rendering exists. No dedicated rendering is defined here, so every error
/// falls through to the generic presentation.
pub fn render_quaint_error(kind: &ErrorKind, connection_info: &ConnectionInfo) -> (r: Option<
    KnownError,
>)
    ensures
        r is None,
{
    None
}

/// Describes an unparsable connection string, pointing the reader at the
/// connection-URL documentation. The whole description is one line: any
/// newline in the details is replaced with a space.
pub fn invalid_connection_string_description(error_details: &str) -> (r: String)
    ensures
        r@ == newlines_to_spaces(error_details@)
            + " in database URL. Please refer to the documentation in https://www.prisma.io/docs/reference/database-reference/connection-urls for constructing a correct connection string. In some cases, certain characters must be escaped. Please check the string for any illegal characters."@,
{
    let details = replace_newlines(error_details);
    str_concat(
        details.as_str(),
        " in database URL. Please refer to the documentation in https://www.prisma.io/docs/reference/database-reference/connection-urls for constructing a correct connection string. In some cases, certain characters must be escaped. Please check the string for any illegal characters.",
    )
}

} // verus!
