use query_engine::error::ErrorKind;
use query_engine::executor::{
    execute_batch, get_engine_protocol, get_request_now, BatchDocumentTransaction, BatchMode,
    EngineProtocol, ExecutionStrategy, InterpretingExecutor, RequestContext, ResponseData, TxId,
};
use query_engine::values::Value;

fn ok(name: &str) -> Result<ResponseData, ErrorKind> {
    Ok(ResponseData::new(String::from(name), Value::Null))
}

fn err() -> Result<ResponseData, ErrorKind> {
    Err(ErrorKind::ConnectionClosed)
}

#[test]
fn transactional_batch_failure_rolls_back_once_and_returns_one_error() {
    // Operation 2 of 4 fails: a single error, one rollback, no commit, and
    // the operations after the failure are never attempted.
    let outcomes = vec![ok("a"), err(), ok("c"), ok("d")];
    let summary = execute_batch(BatchMode::NewTransaction, outcomes);
    match summary.results {
        Err(ErrorKind::ConnectionClosed) => {}
        _ => panic!("expected the single error of the failed operation"),
    }
    assert_eq!(summary.rollbacks, 1);
    assert_eq!(summary.commits, 0);
    assert_eq!(summary.attempted, 2);
}

#[test]
fn transactional_batch_success_commits_once() {
    let outcomes = vec![ok("a"), ok("b"), ok("c")];
    let summary = execute_batch(BatchMode::NewTransaction, outcomes);
    let results = summary.results.expect("all operations succeeded");
    assert_eq!(results.len(), 3);
    assert!(results.iter().all(|r| r.is_ok()));
    assert_eq!(summary.commits, 1);
    assert_eq!(summary.rollbacks, 0);
    assert_eq!(summary.attempted, 3);
}

#[test]
fn non_transactional_batch_attempts_every_operation() {
    // Operation 1 of 3 fails: the list still has three slots, slot 1 is the
    // error, and the other slots hold their own results.
    let outcomes = vec![ok("a"), err(), ok("c")];
    let summary = execute_batch(BatchMode::Independent, outcomes);
    let results = summary.results.expect("a non-transactional batch never fails as a whole");
    assert_eq!(results.len(), 3);
    assert!(results[0].is_ok());
    assert!(matches!(results[1], Err(ErrorKind::ConnectionClosed)));
    assert!(results[2].is_ok());
    assert_eq!(summary.attempted, 3);
    assert_eq!(summary.rollbacks, 0);
    assert_eq!(summary.commits, 0);
}

#[test]
fn existing_transaction_stops_early_but_issues_no_rollback() {
    let outcomes = vec![err(), ok("b")];
    let summary = execute_batch(BatchMode::ExistingTransaction, outcomes);
    assert!(summary.results.is_err());
    assert_eq!(summary.attempted, 1);
    assert_eq!(summary.rollbacks, 0);
    assert_eq!(summary.commits, 0);
}

#[test]
fn batch_mode_selection() {
    let executor = InterpretingExecutor::new((), false);
    assert_eq!(executor.batch_mode(true, None), BatchMode::ExistingTransaction);
    assert_eq!(
        executor.batch_mode(false, Some(BatchDocumentTransaction { isolation_level: None })),
        BatchMode::NewTransaction
    );
    assert_eq!(executor.batch_mode(false, None), BatchMode::Independent);
}

#[test]
fn single_operation_strategy_follows_tx_id_and_flag() {
    let forcing = InterpretingExecutor::new((), true);
    let plain = InterpretingExecutor::new((), false);
    let id = TxId::new(String::from("tx-1"));
    assert_eq!(
        forcing.single_operation_strategy(Some(id.clone())),
        ExecutionStrategy::InExistingTransaction(id)
    );
    assert_eq!(
        forcing.single_operation_strategy(None),
        ExecutionStrategy::SelfContainedTransaction
    );
    assert_eq!(plain.single_operation_strategy(None), ExecutionStrategy::SelfContainedBare);
}

#[test]
fn request_context_fixes_one_timestamp() {
    let ctx = RequestContext::new(EngineProtocol::Json);
    let first = get_request_now(&ctx);
    let second = get_request_now(&ctx);
    assert_eq!(first, second);
    assert_eq!(ctx.engine_protocol, EngineProtocol::Json);
}

#[test]
fn engine_protocol_follows_the_request_context() {
    let json_ctx = RequestContext::new(EngineProtocol::Json);
    assert_eq!(get_engine_protocol(&json_ctx), EngineProtocol::Json);
    let graphql_ctx = RequestContext::new(EngineProtocol::Graphql);
    assert_eq!(get_engine_protocol(&graphql_ctx), EngineProtocol::Graphql);
}
