//! The interpreting executor: single operations and batches.
//!
//! A batch runs under one of three policies. Inside a caller-supplied
//! transaction, operations run sequentially and the first failure aborts the
//! rest, with the caller owning rollback. As a new explicit transaction, one
//! connection runs every operation; any failure rolls the whole transaction
//! back and the single error is the batch's result, while success commits and
//! yields the per-operation results. Non-transactionally, every operation is
//! attempted exactly once and each slot of the result list independently
//! holds success or failure.

use vstd::prelude::*;
use crate::error::ErrorKind;
use crate::isolation::IsolationLevel;
use crate::values::Value;

verus! {

/// The protocol the engine speaks with its caller.
#[derive(Debug, Clone, Copy, PartialEq, Eq, Structural)]
pub enum EngineProtocol {
    /// The GraphQL-shaped protocol.
    Graphql,
    /// The JSON protocol.
    Json,
}

/// An opaque handle correlating externally issued calls to one open
/// transaction.
#[derive(Debug, Clone, PartialEq, Eq)]
pub struct TxId {
    /// The externally supplied identifier.
    pub value: String,
}

impl TxId {
    /// Wraps an externally supplied identifier.
    pub fn new(value: String) -> (r: TxId)
        ensures
            r.value == value,
    {
        TxId { value }
    }
}

/// One operation's serialized response.
#[derive(Debug)]
pub struct ResponseData {
    /// The name of the responded field.
    pub name: String,
    /// The response payload.
    pub data: Value,
}

impl ResponseData {
    /// Packs a response payload under its field name.
    pub fn new(name: String, data: Value) -> (r: ResponseData)
        ensures
            r.name == name,
            r.data == data,
    {
        ResponseData { name, data }
    }
}

/// Relies on chrono::Utc::now and chrono::DateTime::timestamp_millis for the
/// current wall-clock instant; nothing can be promised of the value.
#[verifier::external_body]
fn current_unix_millis() -> i64 {
    chrono::Utc::now().timestamp_millis()
}

/// The request-scoped context: one fixed timestamp used for every
/// `now()`-style default within the request, and the active protocol.
#[derive(Debug, Clone, Copy, PartialEq, Eq, Structural)]
pub struct RequestContext {
    /// The instant fixed at the start of the request, in milliseconds since
    /// the Unix epoch.
    pub request_now_ms: i64,
    /// The protocol the request arrived under.
    pub engine_protocol: EngineProtocol,
}

impl RequestContext {
    /// Opens a request context, fixing the request's timestamp once. Every
    /// later read of the timestamp through [`get_request_now`] observes this
    /// same instant.
    pub fn new(engine_protocol: EngineProtocol) -> (r: RequestContext)
        ensures
            r.engine_protocol == engine_protocol,
    {
        RequestContext { request_now_ms: current_unix_millis(), engine_protocol }
    }
}

/// The timestamp every `now()`-style default resolves to within the request:
/// always the instant fixed when the context was opened.
pub fn get_request_now(ctx: &RequestContext) -> (r: i64)
    ensures
        r == ctx.request_now_ms,
{
    ctx.request_now_ms
}

/// The engine protocol used for the whole duration of a request: the one the
/// request context was opened with, stable until the request ends.
pub fn get_engine_protocol(ctx: &RequestContext) -> (r: EngineProtocol)
    ensures
        r == ctx.engine_protocol,
{
    ctx.engine_protocol
}

/// A batch's transactional envelope, as requested by the caller.
#[derive(Debug, Clone, Copy)]
pub struct BatchDocumentTransaction {
    /// The isolation level to start the batch's transaction with.
    pub isolation_level: Option<IsolationLevel>,
}

/// How one batch of operations is executed.
#[derive(Debug, Clone, Copy, PartialEq, Eq, Structural)]
pub enum BatchMode {
    /// Operations run inside the caller's open transaction; the caller owns
    /// commit and rollback.
    ExistingTransaction,
    /// One new explicit transaction spans the whole batch.
    NewTransaction,
    /// Operations run independently, each on its own connection.
    Independent,
}

/// How one single operation is executed.
#[derive(Debug, Clone, PartialEq, Eq)]
pub enum ExecutionStrategy {
    /// The operation joins the caller's open transaction.
    InExistingTransaction(TxId),
    /// The operation runs self-contained, wrapped in its own transaction.
    SelfContainedTransaction,
    /// The operation runs self-contained on a bare connection.
    SelfContainedBare,
}

/// What running one batch produced.
pub struct BatchSummary {
    /// How many operations were actually attempted.
    pub attempted: usize,
    /// The batch's result: per-operation results, or the one error that
    /// failed the batch.
    pub results: Result<Vec<Result<ResponseData, ErrorKind>>, ErrorKind>,
    /// How many rollback commands the batch issued.
    pub rollbacks: usize,
    /// How many commit commands the batch issued.
    pub commits: usize,
}

/// Every outcome before `k` is a success.
pub open spec fn all_ok_before(outcomes: Seq<Result<ResponseData, ErrorKind>>, k: int) -> bool {
    forall|i: int| 0 <= i < k ==> outcomes[i] is Ok
}

/// The central query executor: executes operations through the loaded
/// connector, deciding transactional semantics.
pub struct InterpretingExecutor<C> {
    /// The loaded connector.
    pub connector: C,
    /// Forces individual operations to run in a transaction. Does not force
    /// batches to use transactions.
    pub force_transactions: bool,
}

impl<C> InterpretingExecutor<C> {
    /// Packs a connector with the transaction-forcing flag.
    pub fn new(connector: C, force_transactions: bool) -> (r: InterpretingExecutor<C>)
        ensures
            r.connector == connector,
            r.force_transactions == force_transactions,
    {
        InterpretingExecutor { connector, force_transactions }
    }

    /// The connector operations are executed against.
    pub fn primary_connector(&self) -> (r: &C)
        ensures
            r == &self.connector,
    {
        &self.connector
    }

    /// Decides how one single operation runs: inside the caller's transaction
    /// when a transaction id is supplied, else self-contained, wrapped in an
    /// implicit transaction exactly when the executor forces transactions.
    pub fn single_operation_strategy(&self, tx_id: Option<TxId>) -> (r: ExecutionStrategy)
        ensures
            match tx_id {
                Some(id) => r == ExecutionStrategy::InExistingTransaction(id),
                None => r == (if self.force_transactions {
                    ExecutionStrategy::SelfContainedTransaction
                } else {
                    ExecutionStrategy::SelfContainedBare
                }),
            },
    {
        match tx_id {
            Some(id) => ExecutionStrategy::InExistingTransaction(id),
            None => {
                if self.force_transactions {
                    ExecutionStrategy::SelfContainedTransaction
                } else {
                    ExecutionStrategy::SelfContainedBare
                }
            }
        }
    }

    /// Decides how a batch runs: inside the caller's transaction when a
    /// transaction id is supplied, as one new explicit transaction when the
    /// caller asked for a transactional batch, and independently otherwise.
    /// The transaction-forcing flag plays no part here.
    pub fn batch_mode(&self, has_tx_id: bool, transaction: Option<BatchDocumentTransaction>) -> (r:
        BatchMode)
        ensures
            has_tx_id ==> r is ExistingTransaction,
            !has_tx_id && transaction is Some ==> r is NewTransaction,
            !has_tx_id && transaction is None ==> r is Independent,
    {
        if has_tx_id {
            BatchMode::ExistingTransaction
        } else if transaction.is_some() {
            BatchMode::NewTransaction
        } else {
            BatchMode::Independent
        }
    }
}

/// Runs one batch over the outcomes its operations produce when attempted,
/// under the chosen policy. The embedding loop acquires the one connection a
/// transactional batch holds for its whole duration, starts the transaction
/// on it, feeds the outcomes that connection produced, and issues the commit
/// or rollback this summary demands; this function fixes the policy.
///
/// A new explicit transaction never yields a partial result list: the first
/// failure stops the batch, exactly one rollback is issued, and the single
/// error is the whole batch's result; full success issues exactly one commit.
/// Inside a caller-supplied transaction the first failure likewise stops the
/// batch, but no rollback or commit is issued here: the caller owns them.
/// A non-transactional batch never stops early: every operation is attempted
/// exactly once, and slot `k` of the result list holds exactly operation
/// `k`'s own outcome.
pub fn execute_batch(mode: BatchMode, outcomes: Vec<Result<ResponseData, ErrorKind>>) -> (r:
    BatchSummary)
    ensures
        mode is Independent ==> {
            &&& r.attempted == outcomes@.len()
            &&& r.rollbacks == 0
            &&& r.commits == 0
            &&& (r.results matches Ok(list) && list@ == outcomes@)
        },
        (mode is NewTransaction || mode is ExistingTransaction) && all_ok_before(
            outcomes@,
            outcomes@.len() as int,
        ) ==> {
            &&& r.attempted == outcomes@.len()
            &&& r.rollbacks == 0
            &&& r.commits == (if mode is NewTransaction {
                1usize
            } else {
                0usize
            })
            &&& (r.results matches Ok(list) && list@ == outcomes@)
        },
        (mode is NewTransaction || mode is ExistingTransaction) && !all_ok_before(
            outcomes@,
            outcomes@.len() as int,
        ) ==> exists|k: int|
            {
                &&& 0 <= k < outcomes@.len()
                &&& all_ok_before(outcomes@, k)
                &&& (#[trigger] outcomes@[k]) is Err
                &&& r.results == Err::<Vec<Result<ResponseData, ErrorKind>>, ErrorKind>(
                    outcomes@[k]->Err_0,
                )
                &&& r.attempted == k + 1
                &&& r.commits == 0
                &&& r.rollbacks == (if mode is NewTransaction {
                    1usize
                } else {
                    0usize
                })
            },
{
    match mode {
        BatchMode::Independent => {
            let n = outcomes.len();
            BatchSummary { attempted: n, results: Ok(outcomes), rollbacks: 0, commits: 0 }
        }
        _ => {
            let is_new_tx = matches!(mode, BatchMode::NewTransaction);
            let n = outcomes.len();
            let mut first_err: Option<usize> = None;
            let mut i: usize = 0;
            while i < n
                invariant
                    n == outcomes@.len(),
                    match first_err {
                        None => i <= n && all_ok_before(outcomes@, i as int),
                        Some(k) => k < n && outcomes@[k as int] is Err && all_ok_before(
                            outcomes@,
                            k as int,
                        ) && i == n,
                    },
                decreases n - i,
            {
                match &outcomes[i] {
                    Err(_) => {
                        first_err = Some(i);
                        i = n;
                    }
                    Ok(_) => {
                        i += 1;
                    }
                }
            }
            match first_err {
                None => {
                    let commits: usize = if is_new_tx {
                        1
                    } else {
                        0
                    };
                    BatchSummary { attempted: n, results: Ok(outcomes), rollbacks: 0, commits }
                }
                Some(k) => {
                    let mut rest = outcomes;
                    let oc = rest.remove(k);
                    let rollbacks: usize = if is_new_tx {
                        1
                    } else {
                        0
                    };
                    match oc {
                        Err(e) => {
                            proof {
                                assert(k < outcomes@.len());
                                assert(all_ok_before(outcomes@, k as int));
                                assert(outcomes@[k as int] is Err);
                                assert(outcomes@[k as int]->Err_0 == e);
                            }
                            BatchSummary { attempted: k + 1, results: Err(e), rollbacks, commits: 0 }
                        }
                        Ok(_) => {
                            // The scan found an error at this slot; this arm
                            // cannot be reached.
                            proof {
                                assert(false);
                            }
                            BatchSummary { attempted: 0, results: Ok(Vec::new()), rollbacks: 0, commits: 0 }
                        }
                    }
                }
            }
        }
    }
}

} // verus!
