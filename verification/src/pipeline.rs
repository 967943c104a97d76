//! The pipeline that turns one operation graph into a response.
//!
//! A pipeline owns the graph, the interpreter that walks it against a data
//! source, and the serializer that shapes the response envelope. Result
//! serialization to a wire format is a downstream collaborator; the envelope
//! here carries a null placeholder payload. The data source comes back out
//! with the response, so its call log witnesses what the pipeline did.

use vstd::prelude::*;
use crate::error::ErrorKind;
use crate::executor::ResponseData;
use crate::read::{
    execute, failure_witnessed, ok_calls_from, read_query_wf, DbCall, ReadOperations, ReadQuery,
    RecordId,
};
use crate::values::Value;

verus! {

/// Shapes the response envelope.
#[derive(Debug)]
pub struct IrSerializer {
    /// The key the response is filed under.
    pub key: String,
}

/// Walks an operation graph against one data source.
#[derive(Debug)]
pub struct QueryInterpreter<Q> {
    /// The data source the graph is interpreted against.
    pub conn: Q,
}

/// One operation graph with everything needed to run and shape it.
pub struct QueryPipeline<Q> {
    graph: ReadQuery,
    interpreter: QueryInterpreter<Q>,
    serializer: IrSerializer,
}

impl<Q: ReadOperations> QueryPipeline<Q> {
    /// Assembles a pipeline from its three parts.
    pub fn new(graph: ReadQuery, interpreter: QueryInterpreter<Q>, serializer: IrSerializer) -> (r:
        QueryPipeline<Q>)
        ensures
            r.graph_spec() == graph,
            r.conn_spec() == interpreter.conn,
            r.serializer_spec() == serializer,
    {
        QueryPipeline { graph, interpreter, serializer }
    }

    /// The graph the pipeline will interpret.
    pub closed spec fn graph_spec(&self) -> ReadQuery {
        self.graph
    }

    /// The interpreter's data source.
    pub closed spec fn conn_spec(&self) -> Q {
        self.interpreter.conn
    }

    /// The serializer shaping the response.
    pub closed spec fn serializer_spec(&self) -> IrSerializer {
        self.serializer
    }

    /// Interprets the graph and wraps the outcome in a response envelope,
    /// handing the data source back beside it. A successful run made only
    /// successful calls; an interpretation failure at any depth propagates
    /// unchanged, ending right at the failed call or at a missing identifier
    /// column. An aggregate graph makes exactly one counting call against
    /// its model.
    pub fn execute(self) -> (r: (Q, Result<ResponseData, ErrorKind>))
        requires
            self.conn_spec().inv(),
            read_query_wf(self.graph_spec()),
        ensures
            r.0.inv(),
            self.conn_spec().call_log().is_prefix_of(r.0.call_log()),
            r.1 matches Ok(data) ==> (data.name@ == "empty"@ && data.data is Null),
            r.1 is Ok ==> ok_calls_from(r.0.call_log(), self.conn_spec().call_log().len() as int),
            r.1 matches Err(e) ==> failure_witnessed(
                self.conn_spec().call_log(),
                r.0.call_log(),
                e,
            ),
            self.graph_spec() matches ReadQuery::AggregateRecordsQuery(aq) ==> {
                &&& r.0.call_log().len() == self.conn_spec().call_log().len() + 1
                &&& (r.0.call_log().last() matches DbCall::Count { model: m, .. } && m@
                    == aq.model.name@)
            },
    {
        let QueryPipeline { graph, interpreter, serializer: _ } = self;
        let mut conn = interpreter.conn;
        let parent_ids: Vec<RecordId> = Vec::new();
        match execute(&mut conn, &graph, &parent_ids) {
            Ok(_) => (conn, Ok(ResponseData::new("empty".to_owned(), Value::Null))),
            Err(e) => (conn, Err(e)),
        }
    }
}

} // verus!
