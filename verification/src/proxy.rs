//! The query proxy: it takes the scope and the current handle for one
//! query, wraps the caller's SQL, and reads the reply out of the outcome.

use vstd::prelude::*;
use crate::connection::ProcessState;
use crate::error::{QueryError, QueryErrorView};
use crate::model::Phase;
use crate::outcome::{extract_reply, reply_for, reply_view, ExecOutcome};
use crate::statement::{execution_record, record_for, wrap_query, wrapped_statement};

verus! {

/// What the host is to execute against the current handle, and the record
/// it is to emit before it does so.
#[derive(Debug, PartialEq, Eq)]
pub struct ExecRequest {
    pub statement: String,
    pub record: String,
}

impl ExecRequest {
    /// The request that `execute_query` makes for the raw query text `sql`.
    pub open spec fn is_for(self, sql: Seq<char>) -> bool {
        &&& self.statement@ == wrapped_statement(sql)
        &&& self.record@ == execution_record(self.statement@)
    }
}

/// What the host is to do next for an `execute_query` call.
#[derive(Debug, PartialEq, Eq)]
pub enum QueryStep {
    /// Another call holds the scope: wait until it has ended and submit again.
    Wait,
    /// The call has ended with this error; the scope was not taken.
    Reject(QueryError),
    /// Execute the request against the current handle and report with
    /// `execution_finished`.
    Execute(ExecRequest),
}

impl<T> ProcessState<T> {
    /// Submits an `execute_query` call for the raw query text `sql`.
    ///
    /// With the scope taken the answer is `Wait`. With the scope free and
    /// no live handle the call is rejected as not connected. Otherwise the
    /// call takes the scope, which it holds until `execution_finished`, and
    /// the host is handed the wrapped statement. The wrapping is applied to
    /// every text alike; nothing is rejected for what it says. The slot is
    /// not touched in any case.
    pub fn execute_query(&mut self, sql: &str) -> (step: QueryStep)
        ensures
            final(self)@ == old(self)@.execute_query(),
            final(self)@.slot == old(self)@.slot,
            final(self)@.wf(),
            match step {
                QueryStep::Wait => old(self)@.phase != Phase::Idle,
                QueryStep::Reject(error) => {
                    &&& old(self)@.phase == Phase::Idle
                    &&& old(self)@.current() matches Err(reason)
                    &&& error@ == QueryErrorView::NotConnected(reason)
                },
                QueryStep::Execute(request) => {
                    &&& old(self)@.phase == Phase::Idle
                    &&& old(self)@.connected()
                    &&& request.is_for(sql@)
                },
            },
    {
        proof {
            use_type_invariant(&*self);
        }
        if self.phase != Phase::Idle {
            return QueryStep::Wait;
        }
        match self.get_handle() {
            Err(reason) => {
                return QueryStep::Reject(QueryError::NotConnected(reason));
            },
            Ok(_) => {},
        }
        self.phase = Phase::Querying;
        let statement = wrap_query(sql);
        let record = record_for(statement.as_str());
        QueryStep::Execute(ExecRequest { statement, record })
    }

    /// Reports how the execution of the statement in flight ended, and
    /// returns the reply of the call.
    ///
    /// The scope is freed. The slot is left as it was, whatever the outcome:
    /// a failed query does not make the handle any less current.
    pub fn execution_finished(&mut self, outcome: ExecOutcome) -> (reply: Result<
        String,
        QueryError,
    >)
        requires
            old(self)@.phase == Phase::Querying,
        ensures
            final(self)@ == old(self)@.execution_finished(),
            final(self)@.slot == old(self)@.slot,
            final(self)@.phase == Phase::Idle,
            final(self)@.connected(),
            reply_view(reply) == reply_for(outcome@),
    {
        proof {
            use_type_invariant(&*self);
        }
        self.phase = Phase::Idle;
        extract_reply(outcome)
    }
}

} // verus!
