//! The query-graph interpreter for nested reads.
//!
//! A read operation may carry nested child reads whose filters depend on the
//! parent's resulting record identifiers. A single-record query feeds its one
//! identifier to its children; a many-records query feeds the full list of
//! identifiers to each child in one batched call per child, not one call per
//! parent row; a related-records query resolves against an explicit parent
//! relation and the identifiers threaded in from the enclosing call; an
//! aggregate query returns a count and never recurses. Any failure at any
//! depth aborts the whole read at once: a successful read made only
//! successful calls, and a failed read ends right at the failed call or at a
//! missing identifier column.
//!
//! The data-source contract records every call, with its arguments, in a
//! ghost log, so the interpreter's contracts can say which calls were made
//! and with what.

use vstd::prelude::*;
use crate::error::ErrorKind;
use crate::values::{find_column, value_eq_spec, ResultSet, Value};

verus! {

/// A model: its name and the columns that identify one of its rows.
#[derive(Debug)]
pub struct Model {
    /// The model's name.
    pub name: String,
    /// The columns whose values identify one row.
    pub id_columns: Vec<String>,
}

/// A filter over a model's rows: equality conditions, column to value.
#[derive(Debug)]
pub struct Filter {
    /// The conditions, conjoined.
    pub conditions: Vec<(String, Value)>,
}

/// Pagination and ordering arguments of a many-records query.
#[derive(Debug)]
pub struct QueryArguments {
    /// How many rows to return at most; absent means all.
    pub take: Option<usize>,
}

/// The relation field a related-records query resolves against.
#[derive(Debug)]
pub struct RelationField {
    /// The model the relation points at.
    pub related_model: Model,
}

/// The column values that identify one row, paired with the column names.
#[derive(Debug, PartialEq)]
pub struct RecordId {
    /// Column name and value, in identifier order.
    pub pairs: Vec<(String, Value)>,
}

/// A query for a single record by filter.
#[derive(Debug)]
pub struct RecordQuery {
    /// The responded field's name.
    pub name: String,
    /// The queried model.
    pub model: Model,
    /// The filter; the graph builder always sets it.
    pub filter: Option<Filter>,
    /// The selected columns.
    pub selected_fields: Vec<String>,
    /// The nested child reads.
    pub nested: Vec<ReadQuery>,
    /// The response's field order.
    pub selection_order: Vec<String>,
}

/// A query for the full set of records matching the arguments.
#[derive(Debug)]
pub struct ManyRecordsQuery {
    /// The responded field's name.
    pub name: String,
    /// The queried model.
    pub model: Model,
    /// Pagination and ordering arguments.
    pub args: QueryArguments,
    /// The selected columns.
    pub selected_fields: Vec<String>,
    /// The nested child reads.
    pub nested: Vec<ReadQuery>,
    /// The response's field order.
    pub selection_order: Vec<String>,
}

/// A query for the records related to a set of parent records.
#[derive(Debug)]
pub struct RelatedRecordsQuery {
    /// The responded field's name.
    pub name: String,
    /// The relation resolved against.
    pub parent_field: RelationField,
    /// The parent identifiers, when the query carries its own; otherwise the
    /// identifiers threaded in from the enclosing call are used.
    pub parent_ids: Option<Vec<RecordId>>,
    /// Pagination and ordering arguments.
    pub args: QueryArguments,
    /// The selected columns.
    pub selected_fields: Vec<String>,
    /// The nested child reads.
    pub nested: Vec<ReadQuery>,
    /// The response's field order.
    pub selection_order: Vec<String>,
}

/// A query for a count of records.
#[derive(Debug)]
pub struct AggregateRecordsQuery {
    /// The responded field's name.
    pub name: String,
    /// The queried model.
    pub model: Model,
}

/// One read node of the operation graph.
#[derive(Debug)]
pub enum ReadQuery {
    /// A single record by filter.
    RecordQuery(RecordQuery),
    /// The full set matching the arguments.
    ManyRecordsQuery(ManyRecordsQuery),
    /// Records related to a set of parents.
    RelatedRecordsQuery(RelatedRecordsQuery),
    /// A count; never recurses.
    AggregateRecordsQuery(AggregateRecordsQuery),
}

/// A record selection: the rows read for one node, with the results of its
/// nested children.
#[derive(Debug)]
pub struct RecordSelection {
    /// The responded field's name.
    pub name: String,
    /// The response's field order.
    pub fields: Vec<String>,
    /// The rows read for this node.
    pub scalars: ResultSet,
    /// One result per nested child query.
    pub nested: Vec<QueryResult>,
    /// The columns that identify a row of this node's model.
    pub model_id: Vec<String>,
}

/// The result of interpreting one read node.
#[derive(Debug)]
pub enum QueryResult {
    /// Rows with nested child results.
    RecordSelection(RecordSelection),
    /// A scalar count.
    Count(usize),
}

/// One call the interpreter issued to the data source, with the arguments it
/// was issued with and how it went, as the ghost call log records it.
#[derive(Debug, PartialEq)]
pub enum DbCall {
    /// A single-record fetch: the model, the filter conditions, how many
    /// rows came back (at most one), and whether the call succeeded.
    GetSingle { model: String, conditions: Vec<(String, Value)>, returned: usize, ok: bool },
    /// A many-records fetch: the model, how many rows came back, and whether
    /// the call succeeded.
    GetMany { model: String, returned: usize, ok: bool },
    /// A related-records fetch: the related model, every parent identifier
    /// handed over in this one call, how many rows came back, and whether
    /// the call succeeded.
    GetRelated { model: String, parents: Vec<RecordId>, returned: usize, ok: bool },
    /// A count: the model, the count that came back, and whether the call
    /// succeeded.
    Count { model: String, returned: usize, ok: bool },
}

/// Whether the logged call succeeded.
pub open spec fn call_ok(c: DbCall) -> bool {
    match c {
        DbCall::GetSingle { ok, .. } => ok,
        DbCall::GetMany { ok, .. } => ok,
        DbCall::GetRelated { ok, .. } => ok,
        DbCall::Count { ok, .. } => ok,
    }
}

/// Every call from position `from` on succeeded.
pub open spec fn ok_calls_from(log: Seq<DbCall>, from: int) -> bool {
    forall|i: int| from <= i < log.len() ==> call_ok(#[trigger] log[i])
}

/// How a failed read relates to the call log: the error is a missing
/// identifier column found by the interpreter itself, or the log ends with
/// the failed call and nothing ran after it.
pub open spec fn failure_witnessed(pre: Seq<DbCall>, post: Seq<DbCall>, e: ErrorKind) -> bool {
    ||| e matches ErrorKind::ColumnNotFound { .. }
    ||| (post.len() > pre.len() && !call_ok(post.last()))
}

/// The name lists are equal, text for text.
pub open spec fn strings_like(a: Seq<String>, b: Seq<String>) -> bool {
    a.len() == b.len() && (forall|i: int| 0 <= i < a.len() ==> (#[trigger] a[i])@ == b[i]@)
}

/// The name-value pair lists are equal, by text and value contents.
pub open spec fn pairs_like(a: Seq<(String, Value)>, b: Seq<(String, Value)>) -> bool {
    a.len() == b.len() && (forall|i: int|
        0 <= i < a.len() ==> ((#[trigger] a[i]).0@ == b[i].0@ && value_eq_spec(a[i].1, b[i].1)))
}

/// The record identifiers are equal, pair for pair.
pub open spec fn record_id_like(a: RecordId, b: RecordId) -> bool {
    pairs_like(a.pairs@, b.pairs@)
}

/// The identifier lists are equal, identifier for identifier.
pub open spec fn record_ids_like(a: Seq<RecordId>, b: Seq<RecordId>) -> bool {
    a.len() == b.len() && (forall|i: int| 0 <= i < a.len() ==> record_id_like(#[trigger] a[i], b[i]))
}

/// The result has the shape the query asked for: a record selection under
/// the query's responded name, field order and model identifier columns, or
/// a bare count for an aggregate.
pub open spec fn result_matches_query(res: QueryResult, query: ReadQuery) -> bool {
    match query {
        ReadQuery::RecordQuery(q) => res matches QueryResult::RecordSelection(sel) && sel.name@
            == q.name@ && strings_like(sel.fields@, q.selection_order@) && strings_like(
            sel.model_id@,
            q.model.id_columns@,
        ),
        ReadQuery::ManyRecordsQuery(q) => res matches QueryResult::RecordSelection(sel)
            && sel.name@ == q.name@ && strings_like(sel.fields@, q.selection_order@)
            && strings_like(sel.model_id@, q.model.id_columns@),
        ReadQuery::RelatedRecordsQuery(q) => res matches QueryResult::RecordSelection(sel)
            && sel.name@ == q.name@ && strings_like(sel.fields@, q.selection_order@)
            && strings_like(sel.model_id@, q.parent_field.related_model.id_columns@),
        ReadQuery::AggregateRecordsQuery(_) => res is Count,
    }
}

/// A copy of a name list, equal text for text.
pub fn copy_strings(v: &Vec<String>) -> (r: Vec<String>)
    ensures
        strings_like(r@, v@),
{
    let n = v.len();
    let mut out: Vec<String> = Vec::new();
    let mut i: usize = 0;
    while i < n
        invariant
            i <= n,
            n == v@.len(),
            out@.len() == i,
            forall|j: int| 0 <= j < i ==> (#[trigger] out@[j])@ == v@[j]@,
        decreases n - i,
    {
        out.push(v[i].clone());
        i += 1;
    }
    out
}

/// A copy of a condition list, equal by text and value contents.
pub fn copy_pairs(v: &Vec<(String, Value)>) -> (r: Vec<(String, Value)>)
    ensures
        pairs_like(r@, v@),
{
    let n = v.len();
    let mut out: Vec<(String, Value)> = Vec::new();
    let mut i: usize = 0;
    while i < n
        invariant
            i <= n,
            n == v@.len(),
            out@.len() == i,
            forall|j: int|
                0 <= j < i ==> ((#[trigger] out@[j]).0@ == v@[j].0@ && value_eq_spec(
                    out@[j].1,
                    v@[j].1,
                )),
        decreases n - i,
    {
        let pair = &v[i];
        out.push((pair.0.clone(), pair.1.copy_value()));
        i += 1;
    }
    out
}

/// A copy of an identifier list, equal identifier for identifier.
pub fn copy_record_ids(v: &Vec<RecordId>) -> (r: Vec<RecordId>)
    ensures
        record_ids_like(r@, v@),
{
    let n = v.len();
    let mut out: Vec<RecordId> = Vec::new();
    let mut i: usize = 0;
    while i < n
        invariant
            i <= n,
            n == v@.len(),
            out@.len() == i,
            forall|j: int| 0 <= j < i ==> record_id_like(#[trigger] out@[j], v@[j]),
        decreases n - i,
    {
        out.push(RecordId { pairs: copy_pairs(&v[i].pairs) });
        i += 1;
    }
    out
}

/// Prefixes compose.
proof fn lemma_prefix_chain(log0: Seq<DbCall>, log1: Seq<DbCall>, log2: Seq<DbCall>)
    requires
        log0.is_prefix_of(log1),
        log1.is_prefix_of(log2),
    ensures
        log0.is_prefix_of(log2),
{
    assert(log0 =~= log2.subrange(0, log0.len() as int));
}

/// Successful call ranges compose across a middle point.
proof fn lemma_ok_calls_chain(log0: Seq<DbCall>, log1: Seq<DbCall>, log2: Seq<DbCall>)
    requires
        log0.is_prefix_of(log1),
        log1.is_prefix_of(log2),
        ok_calls_from(log1, log0.len() as int),
        ok_calls_from(log2, log1.len() as int),
    ensures
        ok_calls_from(log2, log0.len() as int),
{
    assert forall|i: int| log0.len() <= i < log2.len() implies call_ok(log2[i]) by {
        if i < log1.len() {
            assert(log1 =~= log2.subrange(0, log1.len() as int));
            assert(log2[i] == log1[i]);
        }
    }
}

/// The read operations every data source offers the interpreter. Each
/// method's contract appends one entry to a ghost call log, carrying the
/// call's arguments and outcome, so that callers can state which calls an
/// interpretation makes, with what, and how they went; an implementation
/// tracks the log in its own state.
pub trait ReadOperations: Sized {
    /// The implementation's well-formedness condition, preserved by every
    /// call.
    spec fn inv(&self) -> bool;

    /// The calls made so far, oldest first.
    spec fn call_log(&self) -> Seq<DbCall>;

    /// Fetches at most one record by filter.
    fn get_single_record(&mut self, model: &Model, filter: &Filter, selected: &Vec<String>) -> (r:
        Result<Option<ResultSet>, ErrorKind>)
        requires
            old(self).inv(),
        ensures
            final(self).inv(),
            final(self).call_log().len() == old(self).call_log().len() + 1,
            final(self).call_log().drop_last() == old(self).call_log(),
            old(self).call_log().is_prefix_of(final(self).call_log()),
            (final(self).call_log().last() matches DbCall::GetSingle {
                model: m,
                conditions: c,
                returned: n,
                ok,
            } && m@ == model.name@ && pairs_like(c@, filter.conditions@) && ok == (r is Ok)
                && n as nat == (match r {
                Ok(Some(rs)) => rs.rows@.len(),
                _ => 0,
            })),
            r matches Ok(Some(rs)) ==> rs.wf() && rs.rows@.len() == 1,
    ;

    /// Fetches the full set matching the arguments.
    fn get_many_records(&mut self, model: &Model, args: &QueryArguments, selected: &Vec<String>)
        -> (r: Result<ResultSet, ErrorKind>)
        requires
            old(self).inv(),
        ensures
            final(self).inv(),
            final(self).call_log().len() == old(self).call_log().len() + 1,
            final(self).call_log().drop_last() == old(self).call_log(),
            old(self).call_log().is_prefix_of(final(self).call_log()),
            (final(self).call_log().last() matches DbCall::GetMany { model: m, returned: n, ok }
                && m@ == model.name@ && ok == (r is Ok) && n as nat == (match r {
                Ok(rs) => rs.rows@.len(),
                Err(_) => 0,
            })),
            r matches Ok(rs) ==> rs.wf(),
    ;

    /// Fetches the records related to the given parents, all in one call.
    fn get_related_records(
        &mut self,
        field: &RelationField,
        parent_ids: &Vec<RecordId>,
        args: &QueryArguments,
        selected: &Vec<String>,
    ) -> (r: Result<ResultSet, ErrorKind>)
        requires
            old(self).inv(),
        ensures
            final(self).inv(),
            final(self).call_log().len() == old(self).call_log().len() + 1,
            final(self).call_log().drop_last() == old(self).call_log(),
            old(self).call_log().is_prefix_of(final(self).call_log()),
            (final(self).call_log().last() matches DbCall::GetRelated {
                model: m,
                parents: p,
                returned: n,
                ok,
            } && m@ == field.related_model.name@ && record_ids_like(p@, parent_ids@) && ok == (
            r is Ok) && n as nat == (match r {
                Ok(rs) => rs.rows@.len(),
                Err(_) => 0,
            })),
            r matches Ok(rs) ==> rs.wf(),
    ;

    /// Counts the records of a model.
    fn count_by_model(&mut self, model: &Model, args: &QueryArguments) -> (r: Result<
        usize,
        ErrorKind,
    >)
        requires
            old(self).inv(),
        ensures
            final(self).inv(),
            final(self).call_log().len() == old(self).call_log().len() + 1,
            final(self).call_log().drop_last() == old(self).call_log(),
            old(self).call_log().is_prefix_of(final(self).call_log()),
            (final(self).call_log().last() matches DbCall::Count { model: m, returned: n, ok }
                && m@ == model.name@ && ok == (r is Ok) && (r matches Ok(c) ==> n == c)),
    ;
}

/// Some column of `columns` is named `name`.
pub open spec fn has_column(columns: Seq<String>, name: Seq<char>) -> bool {
    exists|j: int| 0 <= j < columns.len() && #[trigger] columns[j]@ == name
}

/// The first `upto` identifier pairs each carry the value of a row column
/// named like the pair.
pub open spec fn id_values_match(
    pairs: Seq<(String, Value)>,
    columns: Seq<String>,
    row: Seq<Value>,
    id_columns: Seq<String>,
    upto: int,
) -> bool {
    forall|k: int|
        0 <= k < upto ==> exists|j: int|
            0 <= j < columns.len() && columns[j]@ == id_columns[k]@ && value_eq_spec(
                (#[trigger] pairs[k]).1,
                row[j],
            )
}

/// `id` is the record identifier of `row`: one pair per identifying column,
/// named after it and carrying the row's value under it.
pub open spec fn is_record_identifier(
    id: RecordId,
    columns: Seq<String>,
    row: Seq<Value>,
    id_columns: Seq<String>,
) -> bool {
    &&& id.pairs@.len() == id_columns.len()
    &&& (forall|i: int| 0 <= i < id_columns.len() ==> (#[trigger] id.pairs@[i]).0@ == id_columns[i]@)
    &&& id_values_match(id.pairs@, columns, row, id_columns, id_columns.len() as int)
}

/// The record identifier of one row: the value of each identifying column,
/// paired with the column's name. Fails when an identifying column is absent
/// from the row.
pub fn record_identifier(columns: &Vec<String>, row: &Vec<Value>, id_columns: &Vec<String>) -> (r:
    Result<RecordId, ErrorKind>)
    requires
        row@.len() == columns@.len(),
    ensures
        r is Ok <==> (forall|i: int|
            0 <= i < id_columns@.len() ==> has_column(columns@, #[trigger] id_columns@[i]@)),
        r matches Ok(id) ==> is_record_identifier(id, columns@, row@, id_columns@),
        r matches Err(e) ==> e matches ErrorKind::ColumnNotFound { .. },
{
    let n = id_columns.len();
    let mut pairs: Vec<(String, Value)> = Vec::new();
    let mut i: usize = 0;
    while i < n
        invariant
            i <= n,
            n == id_columns@.len(),
            row@.len() == columns@.len(),
            pairs@.len() == i,
            forall|j: int| 0 <= j < i ==> has_column(columns@, #[trigger] id_columns@[j]@),
            forall|j: int| 0 <= j < i ==> (#[trigger] pairs@[j]).0@ == id_columns@[j]@,
            id_values_match(pairs@, columns@, row@, id_columns@, i as int),
        decreases n - i,
    {
        match find_column(columns, id_columns[i].as_str()) {
            Some(j) => {
                let value = row[j].copy_value();
                pairs.push((id_columns[i].clone(), value));
            }
            None => {
                return Err(ErrorKind::ColumnNotFound { column: id_columns[i].clone() });
            }
        }
        i += 1;
    }
    Ok(RecordId { pairs })
}

/// One record identifier per row of the result set, in row order. Fails
/// exactly when the result has rows but lacks an identifying column.
pub fn extract_identifiers(rs: &ResultSet, id_columns: &Vec<String>) -> (r: Result<
    Vec<RecordId>,
    ErrorKind,
>)
    requires
        rs.wf(),
    ensures
        r is Ok <==> (rs.rows@.len() == 0 || (forall|i: int|
            0 <= i < id_columns@.len() ==> has_column(rs.columns@, #[trigger] id_columns@[i]@))),
        r matches Ok(ids) ==> {
            &&& ids@.len() == rs.rows@.len()
            &&& (forall|i: int|
                0 <= i < ids@.len() ==> is_record_identifier(
                    #[trigger] ids@[i],
                    rs.columns@,
                    rs.rows@[i]@,
                    id_columns@,
                ))
        },
        r matches Err(e) ==> e matches ErrorKind::ColumnNotFound { .. },
{
    let n = rs.rows.len();
    let mut ids: Vec<RecordId> = Vec::new();
    let mut i: usize = 0;
    while i < n
        invariant
            i <= n,
            n == rs.rows@.len(),
            rs.wf(),
            ids@.len() == i,
            forall|j: int|
                0 <= j < i ==> is_record_identifier(
                    #[trigger] ids@[j],
                    rs.columns@,
                    rs.rows@[j]@,
                    id_columns@,
                ),
            i > 0 ==> (forall|k: int|
                0 <= k < id_columns@.len() ==> has_column(rs.columns@, #[trigger] id_columns@[k]@)),
        decreases n - i,
    {
        let id = record_identifier(&rs.columns, &rs.rows[i], id_columns)?;
        ids.push(id);
        i += 1;
    }
    Ok(ids)
}

/// Interprets one read node against the data source, threading the parent
/// identifiers into child queries.
///
/// A successful read made only successful calls — no child's failure is ever
/// swallowed — and returns a result shaped after the query; a failed read
/// ends at the failed call, or at a missing identifier column, with nothing
/// run after it. An aggregate makes exactly one counting call and answers
/// with exactly the count the data source returned. A childless related
/// query makes exactly one batched related call carrying its own parent ids
/// when it has them, else the threaded-in ones. A many-records node with one
/// nested related-records leaf makes exactly one batched related call whose
/// parents are the identifiers of the rows the many call returned: child
/// queries are never fanned out per parent row.
pub fn execute<Q: ReadOperations>(
    tx: &mut Q,
    query: &ReadQuery,
    parent_ids: &Vec<RecordId>,
) -> (r: Result<QueryResult, ErrorKind>)
    requires
        old(tx).inv(),
        read_query_wf(*query),
    ensures
        final(tx).inv(),
        old(tx).call_log().is_prefix_of(final(tx).call_log()),
        r matches Ok(res) ==> result_matches_query(res, *query),
        r is Ok ==> ok_calls_from(final(tx).call_log(), old(tx).call_log().len() as int),
        r matches Err(e) ==> failure_witnessed(old(tx).call_log(), final(tx).call_log(), e),
        query matches ReadQuery::AggregateRecordsQuery(aq) ==> {
            &&& final(tx).call_log().len() == old(tx).call_log().len() + 1
            &&& (final(tx).call_log().last() matches DbCall::Count { model: m, returned: n, ok }
                && m@ == aq.model.name@ && (r matches Ok(res2) ==> (
            res2 matches QueryResult::Count(c) && n == c && ok)))
        },
        query matches ReadQuery::RelatedRecordsQuery(rq) ==> ((rq.nested@.len() == 0 && r is Ok)
            ==> {
            &&& final(tx).call_log().len() == old(tx).call_log().len() + 1
            &&& (final(tx).call_log().last() matches DbCall::GetRelated { parents: p, .. } && (
            rq.parent_ids is None ==> record_ids_like(p@, parent_ids@)) && (
            rq.parent_ids matches Some(own) ==> record_ids_like(p@, own@)))
        }),
        query matches ReadQuery::ManyRecordsQuery(mq) ==> (mq.nested@.len() == 1 ==> (
        mq.nested@[0] matches ReadQuery::RelatedRecordsQuery(rq) ==> ((rq.nested@.len() == 0
            && rq.parent_ids is None) ==> (r matches Ok(QueryResult::RecordSelection(sel)) ==> {
            &&& final(tx).call_log().len() == old(tx).call_log().len() + 2
            &&& (final(tx).call_log()[old(tx).call_log().len() as int]
                matches DbCall::GetMany { returned: m2, .. } && m2 as nat
                == sel.scalars.rows@.len())
            &&& (final(tx).call_log().last() matches DbCall::GetRelated { parents: p, .. }
                && p@.len() == sel.scalars.rows@.len() && exists|ids: Seq<RecordId>|
                #[trigger] record_ids_like(p@, ids) && (forall|i: int|
                    0 <= i < ids.len() ==> is_record_identifier(
                        #[trigger] ids[i],
                        sel.scalars.columns@,
                        sel.scalars.rows@[i]@,
                        mq.model.id_columns@,
                    )))
        })))),
    decreases *query, 1int,
{
    match query {
        ReadQuery::RecordQuery(q) => read_one(tx, q),
        ReadQuery::ManyRecordsQuery(q) => read_many(tx, q),
        ReadQuery::RelatedRecordsQuery(q) => read_related(tx, q, parent_ids),
        ReadQuery::AggregateRecordsQuery(q) => aggregate(tx, q),
    }
}

/// The graph builder's guarantees about a read node: a single-record query
/// always carries a filter.
pub open spec fn read_query_wf(query: ReadQuery) -> bool
    decreases query,
{
    match query {
        ReadQuery::RecordQuery(q) => q.filter is Some && all_read_queries_wf(q.nested@),
        ReadQuery::ManyRecordsQuery(q) => all_read_queries_wf(q.nested@),
        ReadQuery::RelatedRecordsQuery(q) => all_read_queries_wf(q.nested@),
        ReadQuery::AggregateRecordsQuery(_) => true,
    }
}

/// Every node of the list satisfies [`read_query_wf`].
pub open spec fn all_read_queries_wf(queries: Seq<ReadQuery>) -> bool
    decreases queries,
{
    forall|i: int| 0 <= i < queries.len() ==> read_query_wf(#[trigger] queries[i])
}

/// Queries a single record: exactly one single fetch with the query's model
/// and filter; on a hit, the row's identifier is the parent-id set of every
/// nested child and the row is attached as the scalars; on no row, the shape
/// is attached with empty data and no nested query is executed.
fn read_one<Q: ReadOperations>(tx: &mut Q, query: &RecordQuery) -> (r: Result<
    QueryResult,
    ErrorKind,
>)
    requires
        old(tx).inv(),
        query.filter is Some,
        all_read_queries_wf(query.nested@),
    ensures
        final(tx).inv(),
        old(tx).call_log().is_prefix_of(final(tx).call_log()),
        final(tx).call_log().len() > old(tx).call_log().len(),
        (final(tx).call_log()[old(tx).call_log().len() as int] matches DbCall::GetSingle {
            model: m,
            conditions: c,
            ..
        } && m@ == query.model.name@ && (query.filter matches Some(f) ==> pairs_like(
            c@,
            f.conditions@,
        ))),
        r matches Ok(res) ==> (res matches QueryResult::RecordSelection(sel) && sel.name@
            == query.name@ && strings_like(sel.fields@, query.selection_order@) && strings_like(
            sel.model_id@,
            query.model.id_columns@,
        )),
        r is Ok ==> ok_calls_from(final(tx).call_log(), old(tx).call_log().len() as int),
        r matches Err(e) ==> failure_witnessed(old(tx).call_log(), final(tx).call_log(), e),
        r matches Ok(QueryResult::RecordSelection(sel)) ==> {
            &&& sel.scalars.rows@.len() <= 1
            &&& (final(tx).call_log()[old(tx).call_log().len() as int]
                matches DbCall::GetSingle { returned: n, .. } && n as nat
                == sel.scalars.rows@.len())
            &&& (sel.scalars.rows@.len() == 0 ==> final(tx).call_log().len() == old(
                tx,
            ).call_log().len() + 1 && sel.nested@.len() == 0)
            &&& (sel.scalars.rows@.len() == 1 ==> sel.nested@.len() == query.nested@.len())
        },
        query.nested@.len() == 1 ==> (query.nested@[0] matches ReadQuery::RelatedRecordsQuery(rq)
            ==> ((rq.nested@.len() == 0 && rq.parent_ids is None) ==> (r matches Ok(
            QueryResult::RecordSelection(sel),
        ) ==> (sel.scalars.rows@.len() == 1 ==> {
            &&& final(tx).call_log().len() == old(tx).call_log().len() + 2
            &&& (final(tx).call_log().last() matches DbCall::GetRelated { parents: p, .. }
                && p@.len() == 1 && exists|id: RecordId|
                #[trigger] record_id_like(p@[0], id) && is_record_identifier(
                    id,
                    sel.scalars.columns@,
                    sel.scalars.rows@[0]@,
                    query.model.id_columns@,
                ))
        })))),
    decreases query.nested, 2int,
{
    let ghost log0 = tx.call_log();
    let filter = match &query.filter {
        Some(f) => f,
        None => {
            // The caller guarantees a filter; this arm cannot be reached.
            proof {
                assert(false);
            }
            return Err(ErrorKind::ConnectionClosed);
        }
    };
    let scalars = tx.get_single_record(&query.model, filter, &query.selected_fields)?;
    let ghost log1 = tx.call_log();
    match scalars {
        Some(record) => {
            let row = match record.get(0) {
                Some(row) => row,
                None => {
                    // A found record carries exactly one row; this arm cannot
                    // be reached.
                    proof {
                        assert(false);
                    }
                    return Err(ErrorKind::ConnectionClosed);
                }
            };
            let id = record_identifier(&record.columns, row, &query.model.id_columns)?;
            let mut ids: Vec<RecordId> = Vec::new();
            ids.push(id);
            let nested = process_nested(tx, &query.nested, &ids)?;
            proof {
                lemma_prefix_chain(log0, log1, tx.call_log());
                lemma_ok_calls_chain(log0, log1, tx.call_log());
                assert(tx.call_log()[log0.len() as int] == log1.last());
                if query.nested@.len() == 1 {
                    match query.nested@[0] {
                        ReadQuery::RelatedRecordsQuery(rq) => {
                            if rq.nested@.len() == 0 && rq.parent_ids is None {
                                assert(tx.call_log().last()
                                    matches DbCall::GetRelated { parents: p, .. }
                                    && record_ids_like(p@, ids@) && record_id_like(
                                    p@[0],
                                    ids@[0],
                                ));
                                assert(is_record_identifier(
                                    ids@[0],
                                    record.columns@,
                                    record.rows@[0]@,
                                    query.model.id_columns@,
                                ));
                            }
                        }
                        _ => {}
                    }
                }
            }
            Ok(
                QueryResult::RecordSelection(
                    RecordSelection {
                        name: query.name.clone(),
                        fields: copy_strings(&query.selection_order),
                        scalars: record,
                        nested,
                        model_id: copy_strings(&query.model.id_columns),
                    },
                ),
            )
        }
        None => {
            Ok(
                QueryResult::RecordSelection(
                    RecordSelection {
                        name: query.name.clone(),
                        fields: copy_strings(&query.selection_order),
                        scalars: ResultSet::empty(),
                        nested: Vec::new(),
                        model_id: copy_strings(&query.model.id_columns),
                    },
                ),
            )
        }
    }
}

/// Queries a set of records and recursively executes the nested children
/// with the full identifier list of the returned rows as parent ids: one
/// batched call per child query.
fn read_many<Q: ReadOperations>(tx: &mut Q, query: &ManyRecordsQuery) -> (r: Result<
    QueryResult,
    ErrorKind,
>)
    requires
        old(tx).inv(),
        all_read_queries_wf(query.nested@),
    ensures
        final(tx).inv(),
        old(tx).call_log().is_prefix_of(final(tx).call_log()),
        final(tx).call_log().len() > old(tx).call_log().len(),
        (final(tx).call_log()[old(tx).call_log().len() as int] matches DbCall::GetMany {
            model: m,
            ..
        } && m@ == query.model.name@),
        r matches Ok(res) ==> (res matches QueryResult::RecordSelection(sel) && sel.name@
            == query.name@ && strings_like(sel.fields@, query.selection_order@) && strings_like(
            sel.model_id@,
            query.model.id_columns@,
        )),
        r is Ok ==> ok_calls_from(final(tx).call_log(), old(tx).call_log().len() as int),
        r matches Err(e) ==> failure_witnessed(old(tx).call_log(), final(tx).call_log(), e),
        r matches Ok(QueryResult::RecordSelection(sel)) ==> {
            &&& (final(tx).call_log()[old(tx).call_log().len() as int]
                matches DbCall::GetMany { returned: n, ok, .. } && n as nat
                == sel.scalars.rows@.len() && ok)
            &&& sel.nested@.len() == query.nested@.len()
        },
        query.nested@.len() == 1 ==> (query.nested@[0] matches ReadQuery::RelatedRecordsQuery(rq)
            ==> ((rq.nested@.len() == 0 && rq.parent_ids is None) ==> (r matches Ok(
            QueryResult::RecordSelection(sel),
        ) ==> {
            &&& final(tx).call_log().len() == old(tx).call_log().len() + 2
            &&& (final(tx).call_log().last() matches DbCall::GetRelated { parents: p, .. }
                && p@.len() == sel.scalars.rows@.len() && exists|ids: Seq<RecordId>|
                #[trigger] record_ids_like(p@, ids) && (forall|i: int|
                    0 <= i < ids.len() ==> is_record_identifier(
                        #[trigger] ids[i],
                        sel.scalars.columns@,
                        sel.scalars.rows@[i]@,
                        query.model.id_columns@,
                    )))
        }))),
    decreases query.nested, 2int,
{
    let ghost log0 = tx.call_log();
    let scalars = tx.get_many_records(&query.model, &query.args, &query.selected_fields)?;
    let ghost log1 = tx.call_log();
    let ids = extract_identifiers(&scalars, &query.model.id_columns)?;
    let nested = process_nested(tx, &query.nested, &ids)?;
    proof {
        lemma_prefix_chain(log0, log1, tx.call_log());
        lemma_ok_calls_chain(log0, log1, tx.call_log());
        assert(tx.call_log()[log0.len() as int] == log1.last());
        if query.nested@.len() == 1 {
            match query.nested@[0] {
                ReadQuery::RelatedRecordsQuery(rq) => {
                    if rq.nested@.len() == 0 && rq.parent_ids is None {
                        assert(tx.call_log().last() matches DbCall::GetRelated { parents: p, .. }
                            && record_ids_like(p@, ids@));
                    }
                }
                _ => {}
            }
        }
    }
    Ok(
        QueryResult::RecordSelection(
            RecordSelection {
                name: query.name.clone(),
                fields: copy_strings(&query.selection_order),
                scalars,
                nested,
                model_id: copy_strings(&query.model.id_columns),
            },
        ),
    )
}

/// Queries the records related to a set of parents, in one batched call
/// carrying the query's own parent ids when it has them, else the ids
/// threaded in from the enclosing call.
fn read_related<Q: ReadOperations>(
    tx: &mut Q,
    query: &RelatedRecordsQuery,
    parent_ids: &Vec<RecordId>,
) -> (r: Result<QueryResult, ErrorKind>)
    requires
        old(tx).inv(),
        all_read_queries_wf(query.nested@),
    ensures
        final(tx).inv(),
        old(tx).call_log().is_prefix_of(final(tx).call_log()),
        final(tx).call_log().len() > old(tx).call_log().len(),
        (final(tx).call_log()[old(tx).call_log().len() as int] matches DbCall::GetRelated {
            model: m,
            parents: p,
            ..
        } && m@ == query.parent_field.related_model.name@ && (query.parent_ids is None
            ==> record_ids_like(p@, parent_ids@)) && (query.parent_ids matches Some(own)
            ==> record_ids_like(p@, own@))),
        r matches Ok(res) ==> (res matches QueryResult::RecordSelection(sel) && sel.name@
            == query.name@ && strings_like(sel.fields@, query.selection_order@) && strings_like(
            sel.model_id@,
            query.parent_field.related_model.id_columns@,
        )),
        r is Ok ==> ok_calls_from(final(tx).call_log(), old(tx).call_log().len() as int),
        r matches Err(e) ==> failure_witnessed(old(tx).call_log(), final(tx).call_log(), e),
        r matches Ok(QueryResult::RecordSelection(sel)) ==> {
            &&& (final(tx).call_log()[old(tx).call_log().len() as int]
                matches DbCall::GetRelated { returned: n, ok, .. } && n as nat
                == sel.scalars.rows@.len() && ok)
            &&& sel.nested@.len() == query.nested@.len()
        },
        (query.nested@.len() == 0 && r is Ok) ==> final(tx).call_log().len() == old(
            tx,
        ).call_log().len() + 1,
    decreases query.nested, 2int,
{
    let ghost log0 = tx.call_log();
    let pids: &Vec<RecordId> = match &query.parent_ids {
        Some(ids) => ids,
        None => parent_ids,
    };
    let scalars = tx.get_related_records(
        &query.parent_field,
        pids,
        &query.args,
        &query.selected_fields,
    )?;
    let ghost log1 = tx.call_log();
    let model_id_columns = copy_strings(&query.parent_field.related_model.id_columns);
    let ids = extract_identifiers(&scalars, &query.parent_field.related_model.id_columns)?;
    let nested = process_nested(tx, &query.nested, &ids)?;
    proof {
        lemma_prefix_chain(log0, log1, tx.call_log());
        lemma_ok_calls_chain(log0, log1, tx.call_log());
        assert(tx.call_log()[log0.len() as int] == log1.last());
    }
    Ok(
        QueryResult::RecordSelection(
            RecordSelection {
                name: query.name.clone(),
                fields: copy_strings(&query.selection_order),
                scalars,
                nested,
                model_id: model_id_columns,
            },
        ),
    )
}

/// Returns a scalar count: exactly one counting call, answered with exactly
/// the count the data source returned; never recurses into children.
fn aggregate<Q: ReadOperations>(tx: &mut Q, query: &AggregateRecordsQuery) -> (r: Result<
    QueryResult,
    ErrorKind,
>)
    requires
        old(tx).inv(),
    ensures
        final(tx).inv(),
        old(tx).call_log().is_prefix_of(final(tx).call_log()),
        final(tx).call_log().len() == old(tx).call_log().len() + 1,
        (final(tx).call_log().last() matches DbCall::Count { model: m, returned: n, ok } && m@
            == query.model.name@ && ok == (r is Ok) && (r matches Ok(res) ==> (
        res matches QueryResult::Count(c) && n == c))),
        r matches Ok(res) ==> res is Count,
        r is Ok ==> ok_calls_from(final(tx).call_log(), old(tx).call_log().len() as int),
        r matches Err(e) ==> failure_witnessed(old(tx).call_log(), final(tx).call_log(), e),
{
    let args = QueryArguments { take: None };
    let result = tx.count_by_model(&query.model, &args)?;
    Ok(QueryResult::Count(result))
}

/// Executes the nested child queries in order, each with the same parent-id
/// set, collecting one result per child in child order; the first failure
/// aborts the remaining children and is returned as the whole result.
fn process_nested<Q: ReadOperations>(
    tx: &mut Q,
    nested: &Vec<ReadQuery>,
    parent_ids: &Vec<RecordId>,
) -> (r: Result<Vec<QueryResult>, ErrorKind>)
    requires
        old(tx).inv(),
        all_read_queries_wf(nested@),
    ensures
        final(tx).inv(),
        old(tx).call_log().is_prefix_of(final(tx).call_log()),
        nested@.len() == 0 ==> final(tx).call_log() == old(tx).call_log(),
        r matches Ok(results) ==> {
            &&& results@.len() == nested@.len()
            &&& (forall|i: int|
                0 <= i < results@.len() ==> result_matches_query(
                    #[trigger] results@[i],
                    nested@[i],
                ))
        },
        r is Ok ==> ok_calls_from(final(tx).call_log(), old(tx).call_log().len() as int),
        r matches Err(e) ==> failure_witnessed(old(tx).call_log(), final(tx).call_log(), e),
        nested@.len() == 1 ==> (nested@[0] matches ReadQuery::RelatedRecordsQuery(rq) ==> ((
        rq.nested@.len() == 0 && rq.parent_ids is None && r is Ok) ==> {
            &&& final(tx).call_log().len() == old(tx).call_log().len() + 1
            &&& (final(tx).call_log().last() matches DbCall::GetRelated { parents: p, .. }
                && record_ids_like(p@, parent_ids@))
        })),
    decreases *nested, 0int,
{
    let n = nested.len();
    let mut results: Vec<QueryResult> = Vec::new();
    let mut i: usize = 0;
    while i < n
        invariant
            i <= n,
            n == nested@.len(),
            tx.inv(),
            all_read_queries_wf(nested@),
            results@.len() == i,
            forall|j: int|
                0 <= j < i ==> result_matches_query(#[trigger] results@[j], nested@[j]),
            old(tx).call_log().is_prefix_of(tx.call_log()),
            ok_calls_from(tx.call_log(), old(tx).call_log().len() as int),
            i == 0 ==> tx.call_log() == old(tx).call_log(),
            n == 1 ==> (nested@[0] matches ReadQuery::RelatedRecordsQuery(rq) ==> ((i == 1
                && rq.nested@.len() == 0 && rq.parent_ids is None) ==> {
                &&& tx.call_log().len() == old(tx).call_log().len() + 1
                &&& (tx.call_log().last() matches DbCall::GetRelated { parents: p, .. }
                    && record_ids_like(p@, parent_ids@))
            })),
        decreases n - i,
    {
        proof {
            assert(read_query_wf(nested@[i as int]));
            assert(decreases_to!(*nested => nested@));
            assert(decreases_to!(nested@ => nested@[i as int]));
        }
        let ghost log_before = tx.call_log();
        let result = match execute(tx, &nested[i], parent_ids) {
            Ok(result) => result,
            Err(e) => {
                proof {
                    lemma_prefix_chain(old(tx).call_log(), log_before, tx.call_log());
                }
                return Err(e);
            }
        };
        proof {
            lemma_prefix_chain(old(tx).call_log(), log_before, tx.call_log());
            lemma_ok_calls_chain(old(tx).call_log(), log_before, tx.call_log());
        }
        results.push(result);
        i += 1;
    }
    Ok(results)
}

} // verus!
