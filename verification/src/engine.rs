//! The engine instance a host embeds: an explicitly owned state machine.
//!
//! An engine is either a builder, holding everything needed to form a
//! connection, or connected, holding everything needed to serve queries and
//! to disconnect. The host passes the instance by handle; there is no
//! process-wide mutable state.

use vstd::prelude::*;
use crate::executor::EngineProtocol;

verus! {

/// Errors of the host-facing engine API.
#[derive(Debug, PartialEq, Eq)]
pub enum ApiError {
    /// A connect was attempted on an engine that is already connected.
    AlreadyConnected,
    /// A query or disconnect was attempted before connecting.
    NotConnected,
    /// The host handed over a value that does not decode.
    JsonDecode(String),
    /// The engine's configuration is unusable.
    Configuration(String),
}

/// Everything needed to connect to the database and have the core running.
#[derive(Debug, PartialEq, Eq, Clone)]
pub struct EngineBuilder {
    /// The data-model source text.
    pub datamodel: String,
    /// The environment the datasource URL is resolved against.
    pub env: Vec<(String, String)>,
    /// The protocol the engine speaks.
    pub engine_protocol: EngineProtocol,
}

/// A connected engine, able to serve queries and to disconnect.
#[derive(Debug, PartialEq, Eq, Clone)]
pub struct ConnectedEngine {
    /// The data-model source text.
    pub datamodel: String,
    /// The environment the datasource URL was resolved against.
    pub env: Vec<(String, String)>,
    /// The protocol the engine speaks.
    pub engine_protocol: EngineProtocol,
}

impl ConnectedEngine {
    /// The protocol the engine speaks.
    pub fn engine_protocol(&self) -> (r: EngineProtocol)
        ensures
            r == self.engine_protocol,
    {
        self.engine_protocol
    }
}

/// The state of the engine.
#[derive(Debug, PartialEq, Eq)]
pub enum Inner {
    /// Not connected, holding all data to form a connection.
    Builder(EngineBuilder),
    /// Connected, holding all data to disconnect and reconnect.
    Connected(ConnectedEngine),
}

impl Inner {
    /// The builder, when the engine is not connected.
    pub fn as_builder(&self) -> (r: Result<&EngineBuilder, ApiError>)
        ensures
            match *self {
                Inner::Builder(b) => r matches Ok(rb) && *rb == b,
                Inner::Connected(_) => r == Err::<&EngineBuilder, ApiError>(
                    ApiError::AlreadyConnected,
                ),
            },
    {
        match self {
            Inner::Builder(builder) => Ok(builder),
            Inner::Connected(_) => Err(ApiError::AlreadyConnected),
        }
    }

    /// The engine, when connected.
    pub fn as_engine(&self) -> (r: Result<&ConnectedEngine, ApiError>)
        ensures
            match *self {
                Inner::Builder(_) => r == Err::<&ConnectedEngine, ApiError>(ApiError::NotConnected),
                Inner::Connected(e) => r matches Ok(re) && *re == e,
            },
    {
        match self {
            Inner::Builder(_) => Err(ApiError::NotConnected),
            Inner::Connected(engine) => Ok(engine),
        }
    }

    /// Connects: a builder becomes a connected engine carrying the same
    /// configuration; connecting twice is an error that leaves the state
    /// alone.
    pub fn connect(self) -> (r: Result<Inner, (Inner, ApiError)>)
        ensures
            match self {
                Inner::Builder(b) => r matches Ok(next) && next == Inner::Connected(
                    ConnectedEngine {
                        datamodel: b.datamodel,
                        env: b.env,
                        engine_protocol: b.engine_protocol,
                    },
                ),
                Inner::Connected(_) => r matches Err(p) && p.0 == self && p.1
                    == ApiError::AlreadyConnected,
            },
    {
        match self {
            Inner::Builder(builder) => {
                Ok(
                    Inner::Connected(
                        ConnectedEngine {
                            datamodel: builder.datamodel,
                            env: builder.env,
                            engine_protocol: builder.engine_protocol,
                        },
                    ),
                )
            }
            Inner::Connected(engine) => {
                Err((Inner::Connected(engine), ApiError::AlreadyConnected))
            }
        }
    }

    /// Disconnects: a connected engine becomes a builder again, keeping the
    /// configuration for a later reconnect; disconnecting a builder is an
    /// error that leaves the state alone.
    pub fn disconnect(self) -> (r: Result<Inner, (Inner, ApiError)>)
        ensures
            match self {
                Inner::Connected(e) => r matches Ok(next) && next == Inner::Builder(
                    EngineBuilder {
                        datamodel: e.datamodel,
                        env: e.env,
                        engine_protocol: e.engine_protocol,
                    },
                ),
                Inner::Builder(_) => r matches Err(p) && p.0 == self && p.1
                    == ApiError::NotConnected,
            },
    {
        match self {
            Inner::Connected(engine) => {
                Ok(
                    Inner::Builder(
                        EngineBuilder {
                            datamodel: engine.datamodel,
                            env: engine.env,
                            engine_protocol: engine.engine_protocol,
                        },
                    ),
                )
            }
            Inner::Builder(builder) => Err((Inner::Builder(builder), ApiError::NotConnected)),
        }
    }
}

} // verus!
