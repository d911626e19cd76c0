//! Validated poll responses, and what the task manager asks of activations.

use crate::protos::{
    ActivationJob, HistoryEvent, QueryWorkflow, RemoveFromCache, TaskToken, WorkflowActivation,
};
use crate::workflow::is_legacy_query_id;
use vstd::prelude::*;

verus! {

/// Identifies one execution of a workflow.
#[derive(Clone, Debug, PartialEq, Eq)]
pub struct WorkflowExecution {
    pub workflow_id: String,
    pub run_id: String,
}

/// A page of workflow history.
#[derive(Clone, Debug, PartialEq, Eq)]
pub struct History {
    pub events: Vec<HistoryEvent>,
}

/// A query as the server attaches it to a poll response, encoded.
#[derive(Clone, Debug, PartialEq, Eq)]
pub struct WorkflowQuery(pub Vec<u8>);

/// A workflow task poll response whose required fields are all present.
#[derive(Clone, Debug, PartialEq, Eq)]
pub struct ValidPollWFTQResponse {
    pub task_token: TaskToken,
    pub workflow_execution: WorkflowExecution,
    pub workflow_type: String,
    pub history: History,
    pub next_page_token: Vec<u8>,
    pub attempt: u32,
    pub previous_started_event_id: i64,
    pub query_requests: Vec<QueryWorkflow>,
    pub legacy_query: Option<WorkflowQuery>,
}

impl ValidPollWFTQResponse {
    /// The response continues a history the worker is expected to hold
    /// already: its first event is not the first of the run, or it has no
    /// events at all.
    pub open spec fn spec_is_incremental(&self) -> bool {
        self.history.events@.len() == 0 || self.history.events@[0].event_id > 1
    }

    #[verifier::when_used_as_spec(spec_is_incremental)]
    pub fn is_incremental(&self) -> (r: bool)
        ensures
            r == self.spec_is_incremental(),
    {
        if self.history.events.len() == 0 {
            true
        } else {
            self.history.events[0].event_id > 1
        }
    }
}

/// Turns a query attached to a poll response into a query job with the given id.
pub fn query_to_job(id: String, q: WorkflowQuery) -> (r: QueryWorkflow)
    ensures
        r.query_id == id,
        r.query == q.0,
{
    QueryWorkflow { query_id: id, query: q.0 }
}

/// An activation for `run_id` whose only job is to answer `query`.
pub fn create_query_activation(run_id: String, query: QueryWorkflow) -> (r: WorkflowActivation)
    ensures
        r.run_id == run_id,
        r.context@.len() == 0,
        r.jobs@ == seq![ActivationJob::QueryWorkflow(query)],
{
    let mut jobs: Vec<ActivationJob> = Vec::new();
    jobs.push(ActivationJob::QueryWorkflow(query));
    proof {
        assert(jobs@ =~= seq![ActivationJob::QueryWorkflow(query)]);
    }
    WorkflowActivation { run_id, context: Vec::new(), jobs }
}

/// Some job of `jobs` is an eviction.
pub open spec fn has_eviction_job(jobs: Seq<ActivationJob>) -> bool {
    exists|i: int| 0 <= i < jobs.len() && (#[trigger] jobs[i]).is_eviction()
}

impl WorkflowActivation {
    /// The activation consists of exactly one job, a legacy query.
    pub open spec fn spec_is_legacy_query(&self) -> bool {
        self.jobs@.len() == 1 && self.jobs@[0].is_legacy_query()
    }

    #[verifier::when_used_as_spec(spec_is_legacy_query)]
    pub fn is_legacy_query(&self) -> (r: bool)
        ensures
            r == self.spec_is_legacy_query(),
    {
        if self.jobs.len() != 1 {
            return false;
        }
        match &self.jobs[0] {
            ActivationJob::QueryWorkflow(q) => is_legacy_query_id(&q.query_id),
            _ => false,
        }
    }

    /// Index of the first eviction job, if there is one.
    pub fn eviction_index(&self) -> (r: Option<usize>)
        ensures
            r is Some <==> has_eviction_job(self.jobs@),
            r matches Some(i) ==> i < self.jobs@.len() && self.jobs@[i as int].is_eviction()
                && forall|j: int| 0 <= j < i ==> !(#[trigger] self.jobs@[j]).is_eviction(),
    {
        let mut i: usize = 0;
        while i < self.jobs.len()
            invariant
                i <= self.jobs.len(),
                forall|j: int| 0 <= j < i ==> !(#[trigger] self.jobs@[j]).is_eviction(),
            decreases self.jobs.len() - i,
        {
            let is_evict = match &self.jobs[i] {
                ActivationJob::RemoveFromCache(_) => true,
                _ => false,
            };
            if is_evict {
                return Some(i);
            }
            i += 1;
        }
        None
    }

    /// Appends an eviction job, unless the last job already is one.
    pub fn append_evict_job(&mut self, evict_job: RemoveFromCache)
        ensures
            final(self).run_id == old(self).run_id,
            final(self).context == old(self).context,
            final(self).jobs@ == (if old(self).jobs@.len() > 0 && old(
                self,
            ).jobs@.last().is_eviction() {
                old(self).jobs@
            } else {
                old(self).jobs@.push(ActivationJob::RemoveFromCache(evict_job))
            }),
            has_eviction_job(final(self).jobs@),
            final(self).jobs@.len() > 0,
    {
        let n = self.jobs.len();
        if n > 0 {
            let last_is_evict = match &self.jobs[n - 1] {
                ActivationJob::RemoveFromCache(_) => true,
                _ => false,
            };
            if last_is_evict {
                assert(self.jobs@[n - 1].is_eviction());
                return ;
            }
        }
        self.jobs.push(ActivationJob::RemoveFromCache(evict_job));
        assert(self.jobs@[n as int].is_eviction());
    }
}

} // verus!
