//! A scripted data source for driving the interpreter without a server.
//!
//! The connection answers each read call with the next prepared result set,
//! front to back, and fails once the script is exhausted — the shape a driver
//! presents when its transport dies. Every call is recorded with its
//! arguments and outcome, so the call log the interpreter's contracts speak
//! of is observable.

use vstd::prelude::*;
use crate::error::ErrorKind;
use crate::read::{
    copy_pairs, copy_record_ids, DbCall, Filter, Model, QueryArguments, ReadOperations, RecordId,
    RelationField,
};
use crate::values::ResultSet;

verus! {

/// A data source that replays prepared result sets in order.
pub struct ScriptedConnection {
    /// The responses still to be handed out, next one first.
    pub responses: Vec<ResultSet>,
    /// Every call made so far, oldest first, with its arguments and outcome.
    pub calls: Vec<DbCall>,
}

impl ScriptedConnection {
    /// A connection that will answer with the given result sets in order.
    pub fn new(responses: Vec<ResultSet>) -> (r: ScriptedConnection)
        ensures
            r.responses == responses,
            r.calls@.len() == 0,
    {
        ScriptedConnection { responses, calls: Vec::new() }
    }
}

impl ReadOperations for ScriptedConnection {
    /// Every prepared response is a well-formed result set.
    open spec fn inv(&self) -> bool {
        forall|i: int| 0 <= i < self.responses@.len() ==> (#[trigger] self.responses@[i]).wf()
    }

    open spec fn call_log(&self) -> Seq<DbCall> {
        self.calls@
    }

    fn get_single_record(&mut self, model: &Model, filter: &Filter, selected: &Vec<String>) -> (r:
        Result<Option<ResultSet>, ErrorKind>)
    {
        if self.responses.len() == 0 {
            self.calls.push(
                DbCall::GetSingle {
                    model: model.name.clone(),
                    conditions: copy_pairs(&filter.conditions),
                    returned: 0,
                    ok: false,
                },
            );
            proof {
                assert(old(self).calls@.is_prefix_of(self.calls@));
            }
            return Err(ErrorKind::ConnectionClosed);
        }
        let mut rs = self.responses.remove(0);
        rs.rows.truncate(1);
        proof {
            assert(rs.wf());
        }
        let returned = rs.rows.len();
        self.calls.push(
            DbCall::GetSingle {
                model: model.name.clone(),
                conditions: copy_pairs(&filter.conditions),
                returned,
                ok: true,
            },
        );
        proof {
            assert(old(self).calls@.is_prefix_of(self.calls@));
        }
        if returned == 0 {
            Ok(None)
        } else {
            Ok(Some(rs))
        }
    }

    fn get_many_records(&mut self, model: &Model, args: &QueryArguments, selected: &Vec<String>)
        -> (r: Result<ResultSet, ErrorKind>)
    {
        if self.responses.len() == 0 {
            self.calls.push(
                DbCall::GetMany { model: model.name.clone(), returned: 0, ok: false },
            );
            proof {
                assert(old(self).calls@.is_prefix_of(self.calls@));
            }
            return Err(ErrorKind::ConnectionClosed);
        }
        let rs = self.responses.remove(0);
        self.calls.push(
            DbCall::GetMany { model: model.name.clone(), returned: rs.rows.len(), ok: true },
        );
        proof {
            assert(old(self).calls@.is_prefix_of(self.calls@));
        }
        Ok(rs)
    }

    fn get_related_records(
        &mut self,
        field: &RelationField,
        parent_ids: &Vec<RecordId>,
        args: &QueryArguments,
        selected: &Vec<String>,
    ) -> (r: Result<ResultSet, ErrorKind>)
    {
        if self.responses.len() == 0 {
            self.calls.push(
                DbCall::GetRelated {
                    model: field.related_model.name.clone(),
                    parents: copy_record_ids(parent_ids),
                    returned: 0,
                    ok: false,
                },
            );
            proof {
                assert(old(self).calls@.is_prefix_of(self.calls@));
            }
            return Err(ErrorKind::ConnectionClosed);
        }
        let rs = self.responses.remove(0);
        self.calls.push(
            DbCall::GetRelated {
                model: field.related_model.name.clone(),
                parents: copy_record_ids(parent_ids),
                returned: rs.rows.len(),
                ok: true,
            },
        );
        proof {
            assert(old(self).calls@.is_prefix_of(self.calls@));
        }
        Ok(rs)
    }

    fn count_by_model(&mut self, model: &Model, args: &QueryArguments) -> (r: Result<
        usize,
        ErrorKind,
    >)
    {
        if self.responses.len() == 0 {
            self.calls.push(DbCall::Count { model: model.name.clone(), returned: 0, ok: false });
            proof {
                assert(old(self).calls@.is_prefix_of(self.calls@));
            }
            return Err(ErrorKind::ConnectionClosed);
        }
        let rs = self.responses.remove(0);
        self.calls.push(
            DbCall::Count { model: model.name.clone(), returned: rs.rows.len(), ok: true },
        );
        proof {
            assert(old(self).calls@.is_prefix_of(self.calls@));
        }
        Ok(rs.rows.len())
    }
}

} // verus!
