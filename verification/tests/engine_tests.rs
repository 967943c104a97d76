use query_engine::engine::{ApiError, ConnectedEngine, EngineBuilder, Inner};
use query_engine::error::{
    invalid_connection_string_description, render_quaint_error, ConnectionInfo, ErrorKind,
    TransactionError,
};
use query_engine::executor::EngineProtocol;
use query_engine::protocols::{protocol_from_name, GraphqlBody, JsonBody, RequestBody};

fn builder() -> EngineBuilder {
    EngineBuilder {
        datamodel: String::from("model User { id Int @id }"),
        env: vec![(String::from("DATABASE_URL"), String::from("postgresql://localhost/db"))],
        engine_protocol: EngineProtocol::Json,
    }
}

#[test]
fn connect_moves_builder_to_engine_and_keeps_configuration() {
    let inner = Inner::Builder(builder());
    let connected = inner.connect().expect("a builder connects");
    let engine = connected.as_engine().expect("now connected");
    assert_eq!(engine.datamodel, "model User { id Int @id }");
    assert_eq!(engine.engine_protocol(), EngineProtocol::Json);
    assert!(matches!(connected.as_builder(), Err(ApiError::AlreadyConnected)));
}

#[test]
fn connecting_twice_is_rejected() {
    let inner = Inner::Builder(builder());
    let connected = inner.connect().expect("a builder connects");
    match connected.connect() {
        Err((state, ApiError::AlreadyConnected)) => {
            assert!(state.as_engine().is_ok());
        }
        _ => panic!("expected AlreadyConnected"),
    }
}

#[test]
fn disconnect_returns_to_builder_for_reconnect() {
    let inner = Inner::Builder(builder());
    let connected = inner.connect().expect("a builder connects");
    let back = connected.disconnect().expect("a connected engine disconnects");
    let b = back.as_builder().expect("a builder again");
    assert_eq!(b.datamodel, "model User { id Int @id }");
    assert!(matches!(back.as_engine(), Err(ApiError::NotConnected)));

    let lonely = Inner::Builder(builder());
    assert!(matches!(lonely.disconnect(), Err((_, ApiError::NotConnected))));
}

#[test]
fn transaction_error_messages() {
    assert_eq!(
        TransactionError::AcquisitionTimeout.message(),
        "Unable to start a transaction in the given time."
    );
    assert_eq!(
        TransactionError::AlreadyStarted.message(),
        "Attempted to start a transaction inside of a transaction."
    );
    assert!(TransactionError::NotFound.message().starts_with("Transaction not found."));
    assert_eq!(
        TransactionError::Closed { reason: String::from("committed") }.message(),
        "Transaction already closed: committed."
    );
    assert_eq!(
        TransactionError::Unknown { reason: String::from("odd reply") }.message(),
        "Unexpected response: odd reply."
    );
}

#[test]
fn quaint_error_rendering_falls_through() {
    assert!(render_quaint_error(&ErrorKind::ConnectionClosed, &ConnectionInfo::Postgres).is_none());
    assert!(render_quaint_error(
        &ErrorKind::AuthenticationFailed { user: String::from("WRONG") },
        &ConnectionInfo::Mssql,
    )
    .is_none());
}

#[test]
fn connection_string_description_names_the_details() {
    let text = invalid_connection_string_description("invalid port");
    assert!(text.starts_with("invalid port in database URL."));
    assert!(text.contains("connection-urls"));
    assert!(!text.contains('\n'));

    // Newlines inside the details are normalized away too: the whole
    // description is one line.
    let multiline = invalid_connection_string_description("bad\nport");
    assert!(multiline.starts_with("bad port in database URL."));
    assert!(!multiline.contains('\n'));
}

#[test]
fn protocol_names_resolve_or_are_refused() {
    assert_eq!(protocol_from_name(None), Some(EngineProtocol::Json));
    assert_eq!(protocol_from_name(Some("json")), Some(EngineProtocol::Json));
    assert_eq!(protocol_from_name(Some("graphql")), Some(EngineProtocol::Graphql));
    assert_eq!(protocol_from_name(Some("soap")), None);
}

#[test]
fn request_body_carries_its_protocol() {
    let graphql = RequestBody::Graphql(GraphqlBody {
        query: String::from("query { users { id } }"),
        operation_name: None,
    });
    assert_eq!(graphql.protocol(), EngineProtocol::Graphql);
    let json = RequestBody::Json(JsonBody {
        model_name: Some(String::from("User")),
        action: String::from("findMany"),
    });
    assert_eq!(json.protocol(), EngineProtocol::Json);
}
