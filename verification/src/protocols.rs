//! The request envelopes the engine accepts.
//!
//! Decoding an external request out of its wire format is a collaborator's
//! job; the engine only ever receives an already shaped body and reads the
//! protocol off it.

use vstd::prelude::*;
use crate::executor::EngineProtocol;
use crate::strutil::str_eq;

verus! {

/// The protocol a host names when constructing an engine: nothing named
/// means the JSON protocol, and an unrecognized name is refused.
pub fn protocol_from_name(name: Option<&str>) -> (r: Option<EngineProtocol>)
    ensures
        match name {
            None => r == Some(EngineProtocol::Json),
            Some(t) => if t@ == "graphql"@ {
                r == Some(EngineProtocol::Graphql)
            } else if t@ == "json"@ {
                r == Some(EngineProtocol::Json)
            } else {
                r is None
            },
        },
{
    match name {
        None => Some(EngineProtocol::Json),
        Some(t) => {
            if str_eq(t, "graphql") {
                Some(EngineProtocol::Graphql)
            } else if str_eq(t, "json") {
                Some(EngineProtocol::Json)
            } else {
                None
            }
        }
    }
}

/// A GraphQL-shaped request body.
#[derive(Debug, PartialEq, Eq)]
pub struct GraphqlBody {
    /// The query text.
    pub query: String,
    /// The operation to run, when the text holds several.
    pub operation_name: Option<String>,
}

/// A JSON-protocol request body.
#[derive(Debug, PartialEq, Eq)]
pub struct JsonBody {
    /// The addressed model, absent for raw actions.
    pub model_name: Option<String>,
    /// The requested action.
    pub action: String,
}

/// A decoded request envelope.
#[derive(Debug, PartialEq, Eq)]
pub enum RequestBody {
    /// A GraphQL-shaped request.
    Graphql(GraphqlBody),
    /// A JSON-protocol request.
    Json(JsonBody),
}

impl RequestBody {
    /// The protocol the body arrived under.
    pub fn protocol(&self) -> (r: EngineProtocol)
        ensures
            *self matches RequestBody::Graphql(_) <==> r is Graphql,
            *self matches RequestBody::Json(_) <==> r is Json,
    {
        match self {
            RequestBody::Graphql(_) => EngineProtocol::Graphql,
            RequestBody::Json(_) => EngineProtocol::Json,
        }
    }
}

} // verus!
