//! Management of workflow tasks.
//!
//! The task manager applies workflow tasks as they arrive from the server,
//! decides which activation goes to the language host next, and records what
//! the host answers. It never suspends and never talks to the server or to the
//! workflow state machines: where the next decision needs something from
//! them, a function returns what is to be asked, and the function for the
//! following step takes the answer.

use crate::durations::{four_fifths, spec_four_fifths};
use crate::pending_activations::{
    activation_noted, any_eviction, distinct_runs, entry_removed, eviction_noted, has_entry,
    lemma_eviction_noted_twice, PendingActInfo, PendingActivations,
};
use crate::protos::{
    ActivationJob, EvictionReason, ProtoCommand, QueryResult, QueryWorkflow, TaskToken,
    WorkflowActivation,
};
use crate::protosext::{
    create_query_activation, has_eviction_job, query_to_job, ValidPollWFTQResponse,
};
use crate::workflow::workflow_tasks::cache_manager::{
    after_insert, after_remove, after_touch, insert_evicts, WorkflowCacheManager,
    WorkflowCachingPolicy,
};
use crate::workflow::workflow_tasks::concurrency_manager::{
    activation_of, any_outstanding_eviction, buffered_of, is_busy, runs_with_task, task_of,
    ManagedRun, WorkflowConcurrencyManager,
};
use crate::workflow::workflow_tasks::queues::{
    new_activation_queue, new_poll_queue, pop_activation, pop_poll, push_activation, push_poll,
    queued_activations, queued_polls,
};
use crate::workflow::{is_legacy_query_id, WFCommand, WFMachinesError, LEGACY_QUERY_ID};
use crossbeam::queue::SegQueue;
use vstd::prelude::*;

pub mod cache_manager;
pub mod concurrency_manager;
pub mod queues;

verus! {

/// What is remembered about a workflow task while the language host works
/// on it.
#[derive(Clone, Debug, PartialEq, Eq)]
pub struct WorkflowTaskInfo {
    pub task_token: TaskToken,
    pub attempt: u32,
}

/// A workflow task that has been applied and not yet completed.
#[derive(Clone, Debug, PartialEq, Eq)]
pub struct OutstandingTask {
    pub info: WorkflowTaskInfo,
    /// Queries that must be answered once replay is over.
    pub pending_queries: Vec<QueryWorkflow>,
    /// When the task was applied, in nanoseconds on the worker's clock.
    pub start_time: u128,
}

/// The state machines of a run were expected to be cached but were not.
#[derive(Debug, PartialEq, Eq)]
pub struct WorkflowMissingError {
    /// The run id of the erring workflow.
    pub run_id: String,
}

/// The message of the error that stands for missing state machines.
pub const MACHINES_MISSING: &'static str = "Workflow machines missing";

/// Applying a workflow task, or what the language host made of it, failed.
#[derive(Debug, PartialEq, Eq)]
pub struct WorkflowUpdateError {
    /// Underlying workflow error.
    pub source: WFMachinesError,
    /// The run id of the erring workflow.
    pub run_id: String,
}

impl WorkflowUpdateError {
    /// The reason to give when evicting the run because of this error.
    pub fn evict_reason(&self) -> (r: EvictionReason)
        ensures
            r == self.source.spec_evict_reason(),
    {
        self.source.evict_reason()
    }

}

impl From<WorkflowMissingError> for WorkflowUpdateError {
    /// The fatal error that stands for missing state machines.
    fn from(wme: WorkflowMissingError) -> (r: Self)
        ensures
            r.run_id == wme.run_id,
            r.source matches WFMachinesError::Fatal(m) && m@ == MACHINES_MISSING@,
    {
        WorkflowUpdateError {
            source: WFMachinesError::Fatal(MACHINES_MISSING.to_owned()),
            run_id: wme.run_id,
        }
    }
}

impl vstd::std_specs::convert::FromSpecImpl<WorkflowMissingError> for WorkflowUpdateError {
    /// The message of the error is a string of its own, which is known by
    /// its characters only: what `from` gives is stated on `from`, and no
    /// value can be named for it here.
    open spec fn obeys_from_spec() -> bool {
        false
    }

    open spec fn from_spec(wme: WorkflowMissingError) -> Self {
        arbitrary()
    }
}

/// What kind of activation has been handed to the language host for a run and
/// not yet answered.
#[derive(Copy, Clone, Debug, PartialEq, Eq, Structural)]
pub enum OutstandingActivation {
    /// A normal activation with a job list.
    Normal {
        /// True if there is an eviction in the job list.
        contains_eviction: bool,
        /// Number of jobs in the activation.
        num_jobs: usize,
    },
    /// An activation for a legacy query.
    LegacyQuery,
}

impl OutstandingActivation {
    /// The activation carries an eviction job and nothing else.
    pub open spec fn spec_has_only_eviction(self) -> bool {
        self matches OutstandingActivation::Normal { contains_eviction, num_jobs }
            && contains_eviction && num_jobs == 1
    }

    /// The activation carries an eviction job.
    pub open spec fn spec_has_eviction(self) -> bool {
        self matches OutstandingActivation::Normal { contains_eviction, .. } && contains_eviction
    }

    /// Whether the activation carries an eviction job and nothing else.
    #[verifier::when_used_as_spec(spec_has_only_eviction)]
    pub fn has_only_eviction(self) -> (r: bool)
        ensures
            r == self.spec_has_only_eviction(),
    {
        match self {
            OutstandingActivation::Normal { contains_eviction, num_jobs } => {
                contains_eviction && num_jobs == 1
            },
            OutstandingActivation::LegacyQuery => false,
        }
    }

    /// Whether the activation carries an eviction job.
    #[verifier::when_used_as_spec(spec_has_eviction)]
    pub fn has_eviction(self) -> (r: bool)
        ensures
            r == self.spec_has_eviction(),
    {
        match self {
            OutstandingActivation::Normal { contains_eviction, .. } => contains_eviction,
            OutstandingActivation::LegacyQuery => false,
        }
    }

    /// The kind under which `act` is recorded while it is outstanding.
    pub open spec fn spec_of(act: WorkflowActivation) -> OutstandingActivation {
        if act.spec_is_legacy_query() {
            OutstandingActivation::LegacyQuery
        } else {
            OutstandingActivation::Normal {
                contains_eviction: has_eviction_job(act.jobs@),
                num_jobs: act.jobs@.len() as usize,
            }
        }
    }

    /// The kind under which `act` is recorded while it is outstanding.
    pub fn of(act: &WorkflowActivation) -> (r: OutstandingActivation)
        ensures
            r == Self::spec_of(*act),
    {
        if act.is_legacy_query() {
            OutstandingActivation::LegacyQuery
        } else {
            OutstandingActivation::Normal {
                contains_eviction: act.eviction_index().is_some(),
                num_jobs: act.jobs.len(),
            }
        }
    }
}

/// What to do with a workflow task that has just been applied.
#[derive(Debug, PartialEq, Eq)]
pub enum NewWfTaskOutcome {
    /// A new activation for the workflow should be issued to the language host.
    IssueActivation(WorkflowActivation),
    /// The workflow task should be completed at once with an empty command
    /// list: it must be replied to but there is nothing for the host to do.
    Autocomplete,
    /// The workflow task ran into problems while being applied and the
    /// workflow must now be evicted.
    Evict(WorkflowUpdateError),
    /// No action should be taken: local activities are still running.
    LocalActsOutstanding,
}

/// Whether a failed activation is reported to the server, and how.
#[derive(Debug, PartialEq, Eq)]
pub enum FailedActivationOutcome {
    NoReport,
    Report(TaskToken),
    ReportLegacyQueryFailure(TaskToken),
}

/// What is sent to the server once an activation has been completed.
#[derive(Debug, PartialEq, Eq)]
pub struct ServerCommandsWithWorkflowInfo {
    pub task_token: TaskToken,
    pub action: ActivationAction,
}

/// How a completed activation is answered to the server.
#[derive(Debug, PartialEq, Eq)]
pub enum ActivationAction {
    /// Respond that the workflow task is complete.
    WftComplete {
        commands: Vec<ProtoCommand>,
        query_responses: Vec<QueryResult>,
        force_new_wft: bool,
    },
    /// Respond to a legacy query request.
    RespondLegacyQuery { result: QueryResult },
}

/// The answer to a request for eviction, with the attempt number of the
/// run's current workflow task where it has one.
#[derive(Copy, Clone, Debug, PartialEq, Eq, Structural)]
pub enum EvictionRequestResult {
    EvictionRequested(Option<u32>),
    NotFound,
    EvictionAlreadyRequested(Option<u32>),
}

/// Wake-ups that the task manager owes to tasks suspended elsewhere. The
/// caller delivers them and clears the record with
/// [`WorkflowTaskManager::take_wakeups`].
#[derive(Copy, Clone, Debug, PartialEq, Eq, Structural)]
pub struct Wakeups {
    /// Wake everything that waits for pending activations.
    pub pending_activations_all: bool,
    /// Wake one of those that wait for pending activations.
    pub pending_activations_one: bool,
    /// Wake one of those that wait for room in the run cache.
    pub cache_capacity: bool,
}

impl Wakeups {
    /// No wake-up is owed.
    pub open spec fn none() -> Wakeups {
        Wakeups {
            pending_activations_all: false,
            pending_activations_one: false,
            cache_capacity: false,
        }
    }

    /// These wake-ups and one for everything that waits for pending
    /// activations.
    pub open spec fn with_all(self) -> Wakeups {
        Wakeups { pending_activations_all: true, ..self }
    }

    /// These wake-ups and one for a single waiter for pending activations.
    pub open spec fn with_one(self) -> Wakeups {
        Wakeups { pending_activations_one: true, ..self }
    }

    /// These wake-ups and one for a waiter for room in the cache.
    pub open spec fn with_capacity(self) -> Wakeups {
        Wakeups { cache_capacity: true, ..self }
    }
}

/// The task manager's state, as mathematics.
#[verifier::ext_equal]
pub struct TaskManagerState {
    /// What is tracked for each run that has state machines, by run id.
    pub machines: Map<Seq<char>, ManagedRun>,
    /// The runs that owe the language host an activation, oldest notice first.
    pub pending_activations: Seq<PendingActInfo>,
    /// Activations that answer legacy queries, oldest first.
    pub pending_queries: Seq<WorkflowActivation>,
    /// Poll responses that were held back and may now be applied, oldest first.
    pub ready_buffered_wft: Seq<ValidPollWFTQResponse>,
    /// The cached run ids, least recently used first.
    pub cache: Seq<Seq<char>>,
    /// The most runs the cache may hold.
    pub cache_capacity: usize,
    /// Wake-ups not yet taken by the caller.
    pub wakeups: Wakeups,
}

impl TaskManagerState {
    /// The attempt number of the run's outstanding workflow task.
    pub open spec fn attempt_of(self, run_id: Seq<char>) -> Option<u32> {
        match task_of(self.machines, run_id) {
            Some(t) => Some(t.info.attempt),
            None => None,
        }
    }

    /// The run's outstanding activation carries an eviction.
    pub open spec fn evicting(self, run_id: Seq<char>) -> bool {
        activation_of(self.machines, run_id) is Some && activation_of(
            self.machines,
            run_id,
        ).unwrap().has_eviction()
    }

    /// The run's outstanding activation carries an eviction and nothing else.
    pub open spec fn only_evicting(self, run_id: Seq<char>) -> bool {
        activation_of(self.machines, run_id) is Some && activation_of(
            self.machines,
            run_id,
        ).unwrap().has_only_eviction()
    }

    /// What holds of every state the task manager can be in.
    pub open spec fn valid(self) -> bool {
        &&& distinct_runs(self.pending_activations)
        &&& self.cache.no_duplicates()
        &&& self.cache.len() <= self.cache_capacity
        &&& self.machines.dom().finite()
        &&& forall|k: Seq<char>|
            self.machines.contains_key(k) ==> (#[trigger] self.machines[k]).run_id@ == k
    }

    /// A request to evict `run_id` is taken up: the run is tracked and its
    /// outstanding activation carries no eviction yet.
    pub open spec fn eviction_wanted(self, run_id: Seq<char>) -> bool {
        self.machines.contains_key(run_id) && !self.evicting(run_id)
    }

    /// The answer to a request to evict `run_id` in this state.
    pub open spec fn eviction_request_result(self, run_id: Seq<char>) -> EvictionRequestResult {
        if !self.machines.contains_key(run_id) {
            EvictionRequestResult::NotFound
        } else if self.evicting(run_id) {
            EvictionRequestResult::EvictionAlreadyRequested(self.attempt_of(run_id))
        } else {
            EvictionRequestResult::EvictionRequested(self.attempt_of(run_id))
        }
    }
}

/// What a request to evict `run_id` in state `pre` makes of the queue of
/// pending activations: the eviction is noted if the request is taken up,
/// else the queue stays as it is.
pub open spec fn eviction_queued(
    pre: TaskManagerState,
    pending_after: Seq<PendingActInfo>,
    run_id: Seq<char>,
    message: Seq<char>,
    reason: EvictionReason,
) -> bool {
    if pre.eviction_wanted(run_id) {
        eviction_noted(pre.pending_activations, pending_after, run_id, message, reason)
    } else {
        pending_after == pre.pending_activations
    }
}

/// The wake-ups owed after a request to evict `run_id` in state `pre`:
/// everything that waits for pending activations is woken if the request is
/// taken up.
pub open spec fn wakeups_after_request(pre: TaskManagerState, run_id: Seq<char>) -> Wakeups {
    if pre.eviction_wanted(run_id) {
        pre.wakeups.with_all()
    } else {
        pre.wakeups
    }
}

/// What a request to evict `run_id` does to the queue of pending
/// activations and to the wake-ups.
pub open spec fn eviction_requested(
    pre: TaskManagerState,
    post: TaskManagerState,
    run_id: Seq<char>,
    message: Seq<char>,
    reason: EvictionReason,
) -> bool {
    &&& eviction_queued(pre, post.pending_activations, run_id, message, reason)
    &&& post.wakeups == wakeups_after_request(pre, run_id)
}

/// `post` is `pre` without `run_id`, wake-ups aside: the run is gone from
/// the cache, from the tracked runs and from the pending activations, and
/// its buffered poll response, if it had one, is ready to be applied.
pub open spec fn run_removed(
    pre: TaskManagerState,
    post: TaskManagerState,
    run_id: Seq<char>,
) -> bool {
    &&& post.cache == after_remove(pre.cache, run_id)
    &&& post.cache_capacity == pre.cache_capacity
    &&& post.machines == pre.machines.remove(run_id)
    &&& entry_removed(pre.pending_activations, post.pending_activations, run_id)
    &&& post.pending_queries == pre.pending_queries
    &&& post.ready_buffered_wft == (match buffered_of(pre.machines, run_id) {
        Some(buffered) => pre.ready_buffered_wft.push(buffered),
        None => pre.ready_buffered_wft,
    })
}

/// `post` is `pre` after `run_id` has been evicted: the run is removed and
/// a waiter for room in the cache is to be woken.
pub open spec fn run_evicted(
    pre: TaskManagerState,
    post: TaskManagerState,
    run_id: Seq<char>,
) -> bool {
    &&& run_removed(pre, post, run_id)
    &&& post.wakeups == pre.wakeups.with_capacity()
}

/// Centralizes what is known about workflow tasks and the activations they
/// produce.
pub struct WorkflowTaskManager {
    /// What is tracked for each run that has state machines.
    workflow_machines: WorkflowConcurrencyManager,
    /// Runs that owe the language host an activation, for instance after a
    /// requested eviction.
    pending_activations: PendingActivations,
    /// Activations which are purely query activations needed to respond to
    /// legacy queries.
    pending_queries: SegQueue<WorkflowActivation>,
    /// Poll responses from the server that need to be applied.
    ready_buffered_wft: SegQueue<ValidPollWFTQResponse>,
    /// The authority for limit-based eviction of runs from the cache.
    cache_manager: WorkflowCacheManager,
    /// Wake-ups owed to suspended tasks.
    wakeups: Wakeups,
}

impl View for WorkflowTaskManager {
    type V = TaskManagerState;

    closed spec fn view(&self) -> TaskManagerState {
        TaskManagerState {
            machines: self.workflow_machines@,
            pending_activations: self.pending_activations@,
            pending_queries: queued_activations(self.pending_queries),
            ready_buffered_wft: queued_polls(self.ready_buffered_wft),
            cache: self.cache_manager@,
            cache_capacity: self.cache_manager.spec_capacity(),
            wakeups: self.wakeups,
        }
    }
}

impl WorkflowTaskManager {
    /// The parts of the task manager are each in order.
    pub closed spec fn wf(&self) -> bool {
        &&& self.workflow_machines.wf()
        &&& self.pending_activations.wf()
        &&& self.cache_manager.wf()
    }

    /// A task manager that is in order is in a valid state.
    pub proof fn lemma_wf_valid(&self)
        requires
            self.wf(),
        ensures
            self@.valid(),
    {
    }

    pub fn new(eviction_policy: WorkflowCachingPolicy) -> (r: Self)
        ensures
            r.wf(),
            r@.machines == (Map::<Seq<char>, ManagedRun>::empty()),
            r@.pending_activations.len() == 0,
            r@.pending_queries.len() == 0,
            r@.ready_buffered_wft.len() == 0,
            r@.cache.len() == 0,
            r@.cache_capacity == eviction_policy.spec_capacity(),
            r@.wakeups == Wakeups::none(),
    {
        WorkflowTaskManager {
            workflow_machines: WorkflowConcurrencyManager::new(),
            pending_activations: PendingActivations::new(),
            pending_queries: new_activation_queue(),
            ready_buffered_wft: new_poll_queue(),
            cache_manager: WorkflowCacheManager::new(eviction_policy),
            wakeups: Wakeups {
                pending_activations_all: false,
                pending_activations_one: false,
                cache_capacity: false,
            },
        }
    }

    /// Hands the wake-ups owed so far to the caller, who delivers them.
    pub fn take_wakeups(&mut self) -> (r: Wakeups)
        requires
            old(self).wf(),
        ensures
            final(self).wf(),
            r == old(self)@.wakeups,
            final(self)@ == (TaskManagerState { wakeups: Wakeups::none(), ..old(self)@ }),
    {
        let r = self.wakeups;
        self.wakeups = Wakeups {
            pending_activations_all: false,
            pending_activations_one: false,
            cache_capacity: false,
        };
        r
    }

    /// Returns number of currently cached workflows.
    pub fn cached_workflows(&self) -> (r: usize)
        requires
            self.wf(),
        ensures
            r == self@.machines.dom().len(),
    {
        self.workflow_machines.cached_workflows()
    }

    /// Returns number of runs that have an outstanding workflow task.
    pub fn outstanding_wft(&self) -> (r: usize)
        requires
            self.wf(),
        ensures
            r == runs_with_task(self@.machines).len(),
    {
        self.workflow_machines.outstanding_wft()
    }

    /// Whether the run is tracked.
    pub fn run_exists(&self, run_id: &str) -> (r: bool)
        requires
            self.wf(),
        ensures
            r == self@.machines.contains_key(run_id@),
    {
        let run_id = &run_id.to_owned();
        self.workflow_machines.run_exists(run_id)
    }

    /// The run's outstanding workflow task, if it has one.
    pub fn get_task(&self, run_id: &str) -> (r: Option<&OutstandingTask>)
        requires
            self.wf(),
        ensures
            r matches Some(t) ==> task_of(self@.machines, run_id@) == Some(*t),
            r is None ==> task_of(self@.machines, run_id@) is None,
    {
        let run_id = &run_id.to_owned();
        self.workflow_machines.get_task(run_id)
    }

    /// The run's outstanding activation, if it has one.
    pub fn get_activation(&self, run_id: &str) -> (r: Option<OutstandingActivation>)
        requires
            self.wf(),
        ensures
            r == activation_of(self@.machines, run_id@),
    {
        let run_id = &run_id.to_owned();
        self.workflow_machines.get_activation(run_id)
    }

    /// Whether a poll response is kept back in the run's buffer slot.
    pub fn has_buffered_poll(&self, run_id: &str) -> (r: bool)
        requires
            self.wf(),
        ensures
            r == buffered_of(self@.machines, run_id@).is_some(),
    {
        let run_id = &run_id.to_owned();
        self.workflow_machines.has_buffered_poll(run_id)
    }

    /// Whether the run has a pending activation.
    pub fn has_pending_activation(&self, run_id: &str) -> (r: bool)
        requires
            self.wf(),
        ensures
            r == has_entry(self@.pending_activations, run_id@),
    {
        let run_id = &run_id.to_owned();
        self.pending_activations.has_pending(run_id)
    }

    /// Whether a caller that wants to add a run must first wait for room in
    /// the cache: the cache is full and an eviction is pending or under way.
    /// Without one there is nothing to wait for, as nothing would ever make
    /// room.
    pub fn wait_for_cache_capacity(&self) -> (must_wait: bool)
        requires
            self.wf(),
        ensures
            must_wait == ((any_eviction(self@.pending_activations) || any_outstanding_eviction(
                self@.machines,
            )) && self@.cache.len() >= self@.cache_capacity),
    {
        let are_no_pending_evictions = !self.pending_activations.is_some_eviction()
            && !self.workflow_machines.are_outstanding_evictions();
        if !are_no_pending_evictions {
            self.cache_manager.wait_for_capacity(are_no_pending_evictions)
        } else {
            false
        }
    }

    /// Takes the oldest poll response that is ready to be applied.
    pub fn next_buffered_poll(&mut self) -> (r: Option<ValidPollWFTQResponse>)
        requires
            old(self).wf(),
        ensures
            final(self).wf(),
            old(self)@.ready_buffered_wft.len() == 0 ==> r is None && final(self)@ == old(self)@,
            old(self)@.ready_buffered_wft.len() > 0 ==> r == Some(old(self)@.ready_buffered_wft[0])
                && final(self)@ == (TaskManagerState {
                ready_buffered_wft: old(self)@.ready_buffered_wft.drop_first(),
                ..old(self)@
            }),
    {
        pop_poll(&mut self.ready_buffered_wft)
    }

    /// Requests a workflow eviction. This queues up an activation that evicts
    /// the workflow on the language host's side; the run is not actually
    /// evicted until the host has replied to that activation.
    ///
    /// Returns, if found, the number of attempts on the current workflow task.
    pub fn request_eviction(&mut self, run_id: &str, message: String, reason: EvictionReason) -> (r:
        EvictionRequestResult)
        requires
            old(self).wf(),
        ensures
            final(self).wf(),
            r == old(self)@.eviction_request_result(run_id@),
            eviction_requested(old(self)@, final(self)@, run_id@, message@, reason),
            final(self)@ == (TaskManagerState {
                pending_activations: final(self)@.pending_activations,
                wakeups: final(self)@.wakeups,
                ..old(self)@
            }),
    {
        let run_id = &run_id.to_owned();
        if self.workflow_machines.run_exists(run_id) {
            let attempts = match self.workflow_machines.get_task(run_id) {
                Some(wt) => Some(wt.info.attempt),
                None => None,
            };
            if !self.activation_has_eviction(run_id) {
                self.pending_activations.notify_needs_eviction(run_id, message, reason);
                self.wakeups.pending_activations_all = true;
                EvictionRequestResult::EvictionRequested(attempts)
            } else {
                EvictionRequestResult::EvictionAlreadyRequested(attempts)
            }
        } else {
            EvictionRequestResult::NotFound
        }
    }

    /// Evicts a workflow from the cache by its run id. Any existing pending
    /// activations are destroyed, and any outstanding activations invalidated.
    fn evict_run(&mut self, run_id: &String)
        requires
            old(self).wf(),
        ensures
            final(self).wf(),
            run_evicted(old(self)@, final(self)@, run_id@),
    {
        let _ = self.cache_manager.remove(run_id);
        self.wakeups.cache_capacity = true;
        let maybe_buffered = self.workflow_machines.evict(run_id);
        self.pending_activations.remove_all_with_run_id(run_id);
        if let Some(buffered) = maybe_buffered {
            self.make_buffered_poll_ready(buffered);
        }
    }

    fn make_buffered_poll_ready(&mut self, buffd: ValidPollWFTQResponse)
        requires
            old(self).wf(),
        ensures
            final(self).wf(),
            final(self)@ == (TaskManagerState {
                ready_buffered_wft: old(self)@.ready_buffered_wft.push(buffd),
                ..old(self)@
            }),
    {
        push_poll(&mut self.ready_buffered_wft, buffd);
    }

    /// Records `act` as the outstanding activation of its run.
    ///
    /// A run has at most one outstanding activation, so the run must have
    /// none. Fails, changing nothing, if the run is not tracked.
    fn insert_outstanding_activation(&mut self, act: &WorkflowActivation) -> (r: Result<
        (),
        WorkflowMissingError,
    >)
        requires
            old(self).wf(),
            activation_of(old(self)@.machines, act.run_id@) is None,
        ensures
            final(self).wf(),
            r is Ok <==> old(self)@.machines.contains_key(act.run_id@),
            r is Ok ==> final(self)@ == (TaskManagerState {
                machines: old(self)@.machines.insert(
                    act.run_id@,
                    ManagedRun {
                        activation: Some(OutstandingActivation::spec_of(*act)),
                        ..old(self)@.machines[act.run_id@]
                    },
                ),
                ..old(self)@
            }),
            r matches Err(e) ==> e.run_id@ == act.run_id@ && final(self)@ == old(self)@,
    {
        let act_type = OutstandingActivation::of(act);
        match self.workflow_machines.insert_activation(&act.run_id, act_type) {
            Ok(_) => Ok(()),
            Err(e) => Err(e),
        }
    }

    /// Whether the run's outstanding activation carries an eviction and
    /// nothing else.
    pub fn activation_has_only_eviction(&self, run_id: &str) -> (r: bool)
        requires
            self.wf(),
        ensures
            r == self@.only_evicting(run_id@),
    {
        let run_id = &run_id.to_owned();
        match self.workflow_machines.get_activation(run_id) {
            Some(a) => a.has_only_eviction(),
            None => false,
        }
    }

    /// Whether the run's outstanding activation carries an eviction.
    pub fn activation_has_eviction(&self, run_id: &str) -> (r: bool)
        requires
            self.wf(),
        ensures
            r == self@.evicting(run_id@),
    {
        let run_id = &run_id.to_owned();
        match self.workflow_machines.get_activation(run_id) {
            Some(a) => a.has_eviction(),
            None => false,
        }
    }

    /// Records that the run needs another activation and that everything
    /// waiting for pending activations is to be woken.
    pub fn needs_activation(&mut self, run_id: &str)
        requires
            old(self).wf(),
        ensures
            final(self).wf(),
            activation_noted(
                old(self)@.pending_activations,
                final(self)@.pending_activations,
                run_id@,
            ),
            final(self)@ == (TaskManagerState {
                pending_activations: final(self)@.pending_activations,
                wakeups: old(self)@.wakeups.with_all(),
                ..old(self)@
            }),
    {
        let run_id = &run_id.to_owned();
        self.pending_activations.notify_needs_activation(run_id);
        self.wakeups.pending_activations_all = true;
    }
}

/// The message of the error raised when the answer to a legacy query comes
/// with other commands.
pub const LEGACY_QUERY_WITH_OTHER_COMMANDS: &'static str = "Legacy query activation response \
included other commands, this is not allowed and constitutes an error in the lang SDK";

/// The answers to queries among `cmds`, in order.
pub open spec fn query_responses_in(cmds: Seq<WFCommand>) -> Seq<QueryResult>
    decreases cmds.len(),
{
    if cmds.len() == 0 {
        Seq::empty()
    } else {
        let before = query_responses_in(cmds.drop_last());
        match cmds.last() {
            WFCommand::QueryResponse(qr) => before.push(qr),
            _ => before,
        }
    }
}

/// The commands among `cmds` that are for the state machines, in order.
pub open spec fn machine_commands_in(cmds: Seq<WFCommand>) -> Seq<WFCommand>
    decreases cmds.len(),
{
    if cmds.len() == 0 {
        Seq::empty()
    } else {
        let before = machine_commands_in(cmds.drop_last());
        if cmds.last().is_query_response() {
            before
        } else {
            before.push(cmds.last())
        }
    }
}

/// `cmds` is the answer to a legacy query and nothing else.
pub open spec fn is_lone_legacy_response(cmds: Seq<WFCommand>) -> bool {
    cmds.len() == 1 && cmds[0].is_legacy_query_response()
}

/// Some command of `cmds` answers a legacy query.
pub open spec fn has_legacy_response(cmds: Seq<WFCommand>) -> bool {
    exists|i: int| 0 <= i < cmds.len() && (#[trigger] cmds[i]).is_legacy_query_response()
}

/// What remains to be decided about a completed activation once the state
/// machines have taken the host's commands.
#[derive(Debug, PartialEq, Eq)]
pub struct PendingCompletion {
    pub run_id: String,
    /// Token of the run's outstanding workflow task.
    pub task_token: TaskToken,
    /// The host's answers to queries, in the order given.
    pub query_responses: Vec<QueryResult>,
    /// The outstanding task has queries that wait for the end of replay.
    pub has_pending_query: bool,
    /// When the outstanding task was applied.
    pub start_time: u128,
    /// The activation just completed carried an eviction and nothing else.
    pub activation_was_only_eviction: bool,
}

/// What the language host's reply to an activation calls for.
#[derive(Debug, PartialEq, Eq)]
pub enum ActivationCompletion {
    /// The run has no outstanding workflow task: there is nothing to report.
    NoTask,
    /// The reply answers a legacy query: send the answer, leave the state
    /// machines alone.
    Respond(ServerCommandsWithWorkflowInfo),
    /// Feed `commands` to the run's state machines; if `apply_next_task`,
    /// have them apply the next buffered task where one is ready; then
    /// decide with [`WorkflowTaskManager::complete_activation`].
    PushCommands { commands: Vec<WFCommand>, apply_next_task: bool, completion: PendingCompletion },
}

/// Whether the wait for local activities is over.
#[derive(Copy, Clone, Debug, PartialEq, Eq, Structural)]
pub enum LocalActsWait {
    /// No local activity is outstanding: no heartbeat is needed.
    AllResolved,
    /// The deadline has passed with local activities outstanding: the
    /// workflow task must be heartbeated.
    MustHeartbeat,
    /// Wait for a pending activation or the deadline, whichever comes first,
    /// and ask again.
    KeepWaiting,
}

/// Whether a completed activation is answered to the server.
///
/// Nothing is answered while the run has pending activations, while the
/// state machines are replaying, while replay only serves to answer a query
/// that is still pending, or where the activation was nothing but an
/// eviction and produced no commands. Answers to queries are sent
/// regardless.
pub open spec fn should_send(
    has_pending_activation: bool,
    replaying: bool,
    has_pending_query: bool,
    has_query_responses: bool,
    has_commands: bool,
    activation_was_only_eviction: bool,
) -> bool {
    let is_query_playback = has_pending_query && !has_query_responses;
    let no_commands_and_evicting = !has_commands && activation_was_only_eviction;
    let should_respond = !(has_pending_activation || replaying || is_query_playback
        || no_commands_and_evicting);
    should_respond || has_query_responses
}

/// The point in time at which a workflow task that started at `start_time`
/// and times out after `wft_timeout` must be heartbeated: when four fifths
/// of the timeout have passed. There is none if that point lies beyond the
/// end of the clock.
pub fn wft_heartbeat_deadline(start_time: u128, wft_timeout: u128) -> (deadline: Option<u128>)
    ensures
        start_time + spec_four_fifths(wft_timeout as nat) <= u128::MAX ==> deadline == Some(
            (start_time + spec_four_fifths(wft_timeout as nat)) as u128,
        ),
        start_time + spec_four_fifths(wft_timeout as nat) > u128::MAX ==> deadline is None,
{
    let wait = four_fifths(wft_timeout);
    if wait <= u128::MAX - start_time {
        Some(start_time + wait)
    } else {
        None
    }
}

/// Decides whether to go on waiting for local activities: with none
/// outstanding the wait is over and no heartbeat is needed; else a heartbeat
/// is due once `now` has reached the deadline.
pub fn wait_for_local_acts_or_heartbeat(
    la_count: usize,
    now: u128,
    wft_heartbeat_deadline: u128,
) -> (r: LocalActsWait)
    ensures
        la_count == 0 ==> r == LocalActsWait::AllResolved,
        la_count > 0 && now >= wft_heartbeat_deadline ==> r == LocalActsWait::MustHeartbeat,
        la_count > 0 && now < wft_heartbeat_deadline ==> r == LocalActsWait::KeepWaiting,
{
    if la_count == 0 {
        LocalActsWait::AllResolved
    } else if now >= wft_heartbeat_deadline {
        LocalActsWait::MustHeartbeat
    } else {
        LocalActsWait::KeepWaiting
    }
}

/// What [`WorkflowTaskManager::successful_activation`] returns in state
/// `s` for the commands `commands` that the host replied with for `run_id`.
pub open spec fn successful_activation_post(
    s: TaskManagerState,
    run_id: Seq<char>,
    commands: Seq<WFCommand>,
    r: Result<ActivationCompletion, WorkflowUpdateError>,
) -> bool {
    match task_of(s.machines, run_id) {
        None => r matches Ok(ActivationCompletion::NoTask),
        Some(task) => if is_lone_legacy_response(commands) {
            &&& r matches Ok(ActivationCompletion::Respond(sent))
            &&& sent.task_token@ == task.info.task_token@
            &&& sent.action matches ActivationAction::RespondLegacyQuery { result }
            &&& WFCommand::QueryResponse(result) == commands[0]
        } else if has_legacy_response(commands) {
            &&& r matches Err(e)
            &&& e.run_id@ == run_id
            &&& e.source matches WFMachinesError::Fatal(m)
            &&& m@ == LEGACY_QUERY_WITH_OTHER_COMMANDS@
        } else {
            &&& r matches Ok(
                ActivationCompletion::PushCommands {
                    commands: for_machines,
                    apply_next_task,
                    completion,
                },
            )
            &&& for_machines@ == machine_commands_in(commands)
            &&& apply_next_task == !s.evicting(run_id)
            &&& completion.run_id@ == run_id
            &&& completion.task_token@ == task.info.task_token@
            &&& completion.query_responses@ == query_responses_in(commands)
            &&& completion.has_pending_query == (task.pending_queries@.len() > 0)
            &&& completion.start_time == task.start_time
            &&& completion.activation_was_only_eviction == s.only_evicting(run_id)
        },
    }
}

/// What [`WorkflowTaskManager::notify_of_local_result`] does and returns.
pub open spec fn notify_of_local_result_post(
    pre: TaskManagerState,
    post: TaskManagerState,
    run_id: Seq<char>,
    machines_result: Result<bool, WFMachinesError>,
    r: Result<(), WorkflowUpdateError>,
) -> bool {
    if !pre.machines.contains_key(run_id) {
        &&& post == pre
        &&& r matches Err(e)
        &&& e.run_id@ == run_id
        &&& e.source matches WFMachinesError::Fatal(m)
        &&& m@ == MACHINES_MISSING@
    } else {
        match machines_result {
            Err(source) => {
                &&& post == pre
                &&& r matches Err(e)
                &&& e.source == source
                &&& e.run_id@ == run_id
            },
            Ok(false) => r is Ok && post == pre,
            Ok(true) => {
                &&& r is Ok
                &&& activation_noted(pre.pending_activations, post.pending_activations, run_id)
                &&& post == (TaskManagerState {
                    pending_activations: post.pending_activations,
                    wakeups: pre.wakeups.with_all(),
                    ..pre
                })
            },
        }
    }
}

/// What [`WorkflowTaskManager::failed_activation`] does and returns.
pub open spec fn failed_activation_post(
    pre: TaskManagerState,
    post: TaskManagerState,
    run_id: Seq<char>,
    reason: EvictionReason,
    failstr: Seq<char>,
    r: FailedActivationOutcome,
) -> bool {
    match task_of(pre.machines, run_id) {
        None => r is NoReport && post == pre,
        Some(task) => if activation_of(pre.machines, run_id) == Some(
            OutstandingActivation::LegacyQuery,
        ) {
            &&& post == pre
            &&& r matches FailedActivationOutcome::ReportLegacyQueryFailure(tt)
            &&& tt@ == task.info.task_token@
        } else {
            &&& eviction_requested(pre, post, run_id, failstr, reason)
            &&& post == (TaskManagerState {
                pending_activations: post.pending_activations,
                wakeups: post.wakeups,
                ..pre
            })
            &&& if task.info.attempt <= 1 {
                r matches FailedActivationOutcome::Report(tt) && tt@ == task.info.task_token@
            } else {
                r is NoReport
            }
        },
    }
}

impl WorkflowTaskManager {
    /// Records a successful activation: sorts the commands the host replied
    /// with and says what they call for.
    ///
    /// Without an outstanding workflow task there is nothing to report. A
    /// reply that is the answer to a legacy query and nothing else is sent as
    /// such. An answer to a legacy query among other commands is a fatal
    /// error of the host. Otherwise the answers to queries are set apart and
    /// the other commands go to the state machines.
    pub fn successful_activation(&self, run_id: &str, commands: Vec<WFCommand>) -> (r: Result<
        ActivationCompletion,
        WorkflowUpdateError,
    >)
        requires
            self.wf(),
        ensures
            successful_activation_post(self@, run_id@, commands@, r),
    {
        let run = run_id.to_owned();
        let activation_was_only_eviction = self.activation_has_only_eviction(run_id);
        let (task_token, has_pending_query, start_time) = match self.workflow_machines.get_task(
            &run,
        ) {
            Some(entry) => (
                entry.info.task_token.clone(),
                entry.pending_queries.len() > 0,
                entry.start_time,
            ),
            None => {
                return Ok(ActivationCompletion::NoTask);
            },
        };
        let ghost orig = commands@;
        let mut rest = commands;

        // If the only command from the activation is a legacy query response,
        // the reply is made differently than for a typical activation.
        if rest.len() == 1 {
            let lone_legacy = match &rest[0] {
                WFCommand::QueryResponse(qr) => is_legacy_query_id(&qr.query_id),
                _ => false,
            };
            if lone_legacy {
                match rest.remove(0) {
                    WFCommand::QueryResponse(qr) => {
                        return Ok(
                            ActivationCompletion::Respond(
                                ServerCommandsWithWorkflowInfo {
                                    task_token,
                                    action: ActivationAction::RespondLegacyQuery { result: qr },
                                },
                            ),
                        );
                    },
                    _ => {
                        assert(false);
                        return Ok(ActivationCompletion::NoTask);
                    },
                }
            }
        }
        // Strip out query responses from the commands that affect the machines.

        let mut i: usize = 0;
        let mut query_responses: Vec<QueryResult> = Vec::new();
        let ghost mut k: int = 0;
        proof {
            assert(orig.take(0) =~= Seq::<WFCommand>::empty());
            assert(orig.skip(0) =~= orig);
            assert(rest@ =~= machine_commands_in(orig.take(0)) + orig.skip(0));
        }
        while i < rest.len()
            invariant
                0 <= k <= orig.len(),
                i == machine_commands_in(orig.take(k)).len(),
                rest@ == machine_commands_in(orig.take(k)) + orig.skip(k),
                orig == commands@,
                task_of(self@.machines, run_id@) is Some,
                query_responses@ == query_responses_in(orig.take(k)),
                forall|j: int| 0 <= j < k ==> !(#[trigger] orig[j]).is_legacy_query_response(),
                !is_lone_legacy_response(orig),
            decreases orig.len() - k,
        {
            proof {
                assert(rest@[i as int] == orig.skip(k)[0]);
                assert(orig.take(k + 1).drop_last() =~= orig.take(k));
                assert(orig.take(k + 1).last() == orig[k]);
            }
            let is_query_response = match &rest[i] {
                WFCommand::QueryResponse(_) => true,
                _ => false,
            };
            if is_query_response {
                                let c = rest.remove(i);
                proof {
                    assert(c == orig[k]);
                    assert(rest@ =~= machine_commands_in(orig.take(k + 1)) + orig.skip(k + 1));
                }
                match c {
                    WFCommand::QueryResponse(qr) => {
                        if is_legacy_query_id(&qr.query_id) {
                            assert(orig[k].is_legacy_query_response());
                            return Err(
                                WorkflowUpdateError {
                                    source: WFMachinesError::Fatal(
                                        LEGACY_QUERY_WITH_OTHER_COMMANDS.to_owned(),
                                    ),
                                    run_id: run_id.to_owned(),
                                },
                            );
                        }
                        query_responses.push(qr);
                    },
                    _ => {
                        assert(false);
                    },
                }
            } else {
                proof {
                    assert(rest@ =~= machine_commands_in(orig.take(k + 1)) + orig.skip(k + 1));
                }
                i += 1;
            }
            proof {
                k = k + 1;
            }
        }
        proof {
            assert(k == orig.len());
            assert(orig.take(k) =~= orig);
            assert(rest@ =~= machine_commands_in(orig));
        }
        let activation_was_eviction = self.activation_has_eviction(run_id);
        Ok(
            ActivationCompletion::PushCommands {
                commands: rest,
                apply_next_task: !activation_was_eviction,
                completion: PendingCompletion {
                    run_id: run,
                    task_token,
                    query_responses,
                    has_pending_query,
                    start_time,
                    activation_was_only_eviction,
                },
            },
        )
    }

    /// Decides what is sent to the server for a completed activation, once
    /// the state machines have taken the host's commands and local
    /// activities have been waited for.
    ///
    /// `server_commands` are the commands the machines have for the server,
    /// `replaying` says whether they are still replaying, and
    /// `must_heartbeat` whether the wait ended at the heartbeat deadline.
    pub fn complete_activation(
        &self,
        completion: PendingCompletion,
        server_commands: Vec<ProtoCommand>,
        replaying: bool,
        must_heartbeat: bool,
    ) -> (r: Option<ServerCommandsWithWorkflowInfo>)
        requires
            self.wf(),
        ensures
            r is Some <==> should_send(
                has_entry(self@.pending_activations, completion.run_id@),
                replaying,
                completion.has_pending_query,
                completion.query_responses@.len() > 0,
                server_commands@.len() > 0,
                completion.activation_was_only_eviction,
            ),
            r matches Some(s) ==> s.task_token == completion.task_token && s.action == (
            ActivationAction::WftComplete {
                commands: server_commands,
                query_responses: completion.query_responses,
                force_new_wft: must_heartbeat,
            }),
    {
        let has_query_responses = completion.query_responses.len() > 0;
        let is_query_playback = completion.has_pending_query && !has_query_responses;
        let no_commands_and_evicting = server_commands.len() == 0
            && completion.activation_was_only_eviction;
        let should_respond = !(self.pending_activations.has_pending(&completion.run_id)
            || replaying || is_query_playback || no_commands_and_evicting);
        let to_be_sent = ServerCommandsWithWorkflowInfo {
            task_token: completion.task_token,
            action: ActivationAction::WftComplete {
                force_new_wft: must_heartbeat,
                commands: server_commands,
                query_responses: completion.query_responses,
            },
        };
        if should_respond || has_query_responses {
            Some(to_be_sent)
        } else {
            None
        }
    }

    /// Lets a workflow know that something it has been waiting on locally has
    /// resolved, like a local activity. `machines_result` is what the run's
    /// state machines made of the resolution: whether it calls for another
    /// activation, or an error.
    pub fn notify_of_local_result(
        &mut self,
        run_id: &str,
        machines_result: Result<bool, WFMachinesError>,
    ) -> (r: Result<(), WorkflowUpdateError>)
        requires
            old(self).wf(),
        ensures
            final(self).wf(),
            notify_of_local_result_post(old(self)@, final(self)@, run_id@, machines_result, r),
    {
        let run_id = &run_id.to_owned();
        if !self.workflow_machines.run_exists(run_id) {
            return Err(
                WorkflowUpdateError::from(WorkflowMissingError { run_id: run_id.clone() }),
            );
        }
        match machines_result {
            Err(source) => Err(WorkflowUpdateError { source, run_id: run_id.clone() }),
            Ok(result_was_important) => {
                if result_was_important {
                    self.needs_activation(run_id);
                }
                Ok(())
            },
        }
    }

    /// Records that an activation failed, and says whether the failure should
    /// be reported to the server.
    ///
    /// Without an outstanding workflow task nothing is reported. The failure
    /// of a legacy query is reported as such. Otherwise the run is to be
    /// evicted, and the failure is reported only on the task's first
    /// attempt, so that the server's retries are not amplified.
    pub fn failed_activation(&mut self, run_id: &str, reason: EvictionReason, failstr: String) -> (r:
        FailedActivationOutcome)
        requires
            old(self).wf(),
        ensures
            final(self).wf(),
            failed_activation_post(old(self)@, final(self)@, run_id@, reason, failstr@, r),
    {
        let run_id = &run_id.to_owned();
        let tt = match self.workflow_machines.get_task(run_id) {
            Some(t) => t.info.task_token.clone(),
            None => {
                return FailedActivationOutcome::NoReport;
            },
        };
        // If the outstanding activation is a legacy query task, report that
        // it must be failed.
        let is_legacy_query = match self.workflow_machines.get_activation(run_id) {
            Some(OutstandingActivation::LegacyQuery) => true,
            _ => false,
        };
        if is_legacy_query {
            FailedActivationOutcome::ReportLegacyQueryFailure(tt)
        } else {
            // Blow up any cached data associated with the workflow.
            let should_report = match self.request_eviction(run_id, failstr, reason) {
                EvictionRequestResult::EvictionRequested(Some(attempt)) => attempt <= 1,
                EvictionRequestResult::EvictionAlreadyRequested(Some(attempt)) => attempt <= 1,
                _ => false,
            };
            if should_report {
                FailedActivationOutcome::Report(tt)
            } else {
                FailedActivationOutcome::NoReport
            }
        }
    }
}

/// The message of the error raised when a workflow task carries both
/// ordinary queries and a legacy query.
pub const BOTH_NORMAL_AND_LEGACY_QUERY: &'static str = "Server issued both normal and legacy query";

/// Where the history of a run is to be read from.
#[derive(Clone, Debug, PartialEq, Eq)]
pub enum NextPageToken {
    /// There is no page, kick it off.
    FetchFromStart,
    /// There are no more pages.
    Done,
    /// The page after the one at hand.
    Next(Vec<u8>),
}

impl NextPageToken {
    /// The token a poll response's page token stands for: none if it is
    /// empty, else the next page.
    pub fn from_token(token: Vec<u8>) -> (r: NextPageToken)
        ensures
            token@.len() == 0 ==> r is Done,
            token@.len() > 0 ==> r == NextPageToken::Next(token),
    {
        if token.len() == 0 {
            NextPageToken::Done
        } else {
            NextPageToken::Next(token)
        }
    }
}

/// What the state machines of a run need to be created or brought up to
/// date: the history at hand and where to read on.
#[derive(Debug, PartialEq, Eq)]
pub struct HistoryUpdateRequest {
    pub workflow_execution: crate::protosext::WorkflowExecution,
    pub workflow_type: String,
    pub history: crate::protosext::History,
    pub page_token: NextPageToken,
    pub previous_started_event_id: i64,
}

/// A workflow task on its way through the state machines.
#[derive(Debug, PartialEq, Eq)]
pub struct PendingWft {
    pub run_id: String,
    pub info: WorkflowTaskInfo,
    /// The task did not find the run cached and up to date, so that replay
    /// is needed before its queries can be answered.
    pub did_miss_cache: bool,
    pub query_requests: Vec<QueryWorkflow>,
    /// The task's legacy query, as a query job.
    pub legacy_query: Option<QueryWorkflow>,
}

/// What to do with a poll response that has just arrived.
#[derive(Debug, PartialEq, Eq)]
pub enum PollApplication {
    /// The run is busy: the response has been kept back, and the poll loop
    /// should be restarted.
    TaskBuffered,
    /// Create or update the run's state machines with `update`, then go on
    /// with [`WorkflowTaskManager::apply_history_update`]. With
    /// `sticky_cache_miss` the response continued a history that the worker
    /// no longer holds, which is worth counting.
    Apply { update: HistoryUpdateRequest, task: PendingWft, sticky_cache_miss: bool },
}

/// The query jobs for the queries `queries`, in order.
pub open spec fn query_jobs(queries: Seq<QueryWorkflow>) -> Seq<ActivationJob> {
    Seq::new(queries.len(), |i: int| ActivationJob::QueryWorkflow(queries[i]))
}

/// The jobs of a new task's activation before its legacy query is placed:
/// the jobs the state machines produced, followed on a cache hit by the
/// task's queries.
pub open spec fn jobs_with_queries(machine_jobs: Seq<ActivationJob>, task: PendingWft) -> Seq<
    ActivationJob,
> {
    if task.did_miss_cache {
        machine_jobs
    } else {
        machine_jobs + query_jobs(task.query_requests@)
    }
}

/// The jobs of the activation for a new task. A legacy query becomes the
/// only job where there is no other.
pub open spec fn new_task_jobs(machine_jobs: Seq<ActivationJob>, task: PendingWft) -> Seq<
    ActivationJob,
> {
    if task.legacy_query is Some && jobs_with_queries(machine_jobs, task).len() == 0 {
        seq![ActivationJob::QueryWorkflow(task.legacy_query.unwrap())]
    } else {
        jobs_with_queries(machine_jobs, task)
    }
}

/// The queries of a new task that have to wait: on a cache miss the task's
/// queries, and a legacy query where the activation has other jobs.
pub open spec fn new_task_pending_queries(machine_jobs: Seq<ActivationJob>, task: PendingWft) -> Seq<
    QueryWorkflow,
> {
    let deferred = if task.did_miss_cache {
        task.query_requests@
    } else {
        Seq::empty()
    };
    if task.legacy_query is Some && jobs_with_queries(machine_jobs, task).len() > 0 {
        deferred.push(task.legacy_query.unwrap())
    } else {
        deferred
    }
}

/// `post` tracks what `pre` tracks, each run as before, and `run_id`,
/// with nothing outstanding if it is new.
pub open spec fn run_tracked(
    pre: Map<Seq<char>, ManagedRun>,
    post: Map<Seq<char>, ManagedRun>,
    run_id: Seq<char>,
) -> bool {
    if pre.contains_key(run_id) {
        post == pre
    } else {
        &&& post.dom() == pre.dom().insert(run_id)
        &&& forall|k: Seq<char>| pre.contains_key(k) ==> #[trigger] post[k] == pre[k]
        &&& post[run_id].run_id@ == run_id
        &&& post[run_id].wft is None
        &&& post[run_id].activation is None
        &&& post[run_id].buffered_resp is None
    }
}

/// What [`WorkflowTaskManager::apply_new_poll_resp`] does and returns.
pub open spec fn apply_new_poll_resp_post(
    pre: TaskManagerState,
    post: TaskManagerState,
    work: ValidPollWFTQResponse,
    r: PollApplication,
) -> bool {
    let run_id = work.workflow_execution.run_id@;
    if is_busy(pre.machines, run_id) {
        &&& r is TaskBuffered
        &&& post == (TaskManagerState {
            machines: pre.machines.insert(
                run_id,
                ManagedRun { buffered_resp: Some(work), ..pre.machines[run_id] },
            ),
            ..pre
        })
    } else {
        &&& post == pre
        &&& r matches PollApplication::Apply { update, task, sticky_cache_miss }
        &&& sticky_cache_miss == (work.spec_is_incremental() && !pre.machines.contains_key(run_id))
        &&& update.workflow_execution == work.workflow_execution
        &&& update.workflow_type == work.workflow_type
        &&& update.history == work.history
        &&& update.previous_started_event_id == work.previous_started_event_id
        &&& if sticky_cache_miss {
            update.page_token is FetchFromStart
        } else if work.next_page_token@.len() == 0 {
            update.page_token is Done
        } else {
            update.page_token == NextPageToken::Next(work.next_page_token)
        }
        &&& task.run_id == work.workflow_execution.run_id
        &&& task.info.task_token == work.task_token
        &&& task.info.attempt == work.attempt
        &&& task.did_miss_cache == !(work.spec_is_incremental() && pre.machines.contains_key(
            run_id,
        ))
        &&& task.query_requests == work.query_requests
        &&& match work.legacy_query {
            Some(q) => {
                &&& task.legacy_query matches Some(job)
                &&& job.query_id@ == LEGACY_QUERY_ID@
                &&& job.query == q.0
            },
            None => task.legacy_query is None,
        }
    }
}

/// What [`WorkflowTaskManager::apply_history_update`] does and returns.
pub open spec fn apply_history_update_post(
    pre: TaskManagerState,
    post: TaskManagerState,
    task: PendingWft,
    machines_result: Result<WorkflowActivation, WFMachinesError>,
    outstanding_local_activities: usize,
    now: u128,
    r: NewWfTaskOutcome,
) -> bool {
    let run_id = task.run_id@;
    match machines_result {
        Err(source) => {
            &&& post == pre
            &&& r matches NewWfTaskOutcome::Evict(e)
            &&& e.source == source
            &&& e.run_id@ == run_id
        },
        Ok(activation) => {
            &&& post == (TaskManagerState { machines: post.machines, ..pre })
            &&& post.machines.dom() == pre.machines.dom().insert(run_id)
            &&& forall|k: Seq<char>|
                k != run_id && pre.machines.contains_key(k) ==> #[trigger] post.machines[k]
                    == pre.machines[k]
            &&& post.machines[run_id].run_id@ == run_id
            &&& post.machines[run_id].buffered_resp == buffered_of(pre.machines, run_id)
            &&& if task.query_requests@.len() > 0 && task.legacy_query is Some {
                &&& post.machines[run_id].wft == task_of(pre.machines, run_id)
                &&& post.machines[run_id].activation is None
                &&& r matches NewWfTaskOutcome::Evict(e)
                &&& e.run_id@ == run_id
                &&& e.source matches WFMachinesError::Fatal(m)
                &&& m@ == BOTH_NORMAL_AND_LEGACY_QUERY@
            } else {
                let jobs = new_task_jobs(activation.jobs@, task);
                &&& post.machines[run_id].wft matches Some(t)
                &&& t.info == task.info
                &&& t.start_time == now
                &&& t.pending_queries@ == new_task_pending_queries(activation.jobs@, task)
                &&& if jobs.len() == 0 {
                    &&& post.machines[run_id].activation is None
                    &&& if outstanding_local_activities > 0 {
                        r is LocalActsOutstanding
                    } else {
                        r is Autocomplete
                    }
                } else {
                    &&& r matches NewWfTaskOutcome::IssueActivation(issued)
                    &&& issued.run_id == activation.run_id
                    &&& issued.context == activation.context
                    &&& issued.jobs@ == jobs
                    &&& post.machines[run_id].activation == Some(
                        OutstandingActivation::spec_of(issued),
                    )
                }
            }
        },
    }
}

/// Appends the query jobs for `queries` to `jobs`.
fn append_query_jobs(jobs: &mut Vec<ActivationJob>, queries: Vec<QueryWorkflow>)
    ensures
        final(jobs)@ == old(jobs)@ + query_jobs(queries@),
{
    let ghost all = queries@;
    let mut rest = queries;
    let ghost mut k: int = 0;
    proof {
        assert(jobs@ =~= old(jobs)@ + query_jobs(all.take(0)));
        assert(rest@ =~= all.skip(0));
    }
    while rest.len() > 0
        invariant
            0 <= k <= all.len(),
            rest@ == all.skip(k),
            jobs@ == old(jobs)@ + query_jobs(all.take(k)),
        decreases rest.len(),
    {
        let q = rest.remove(0);
        jobs.push(ActivationJob::QueryWorkflow(q));
        proof {
            assert(q == all[k]);
            assert(rest@ =~= all.skip(k + 1));
            assert(jobs@ =~= old(jobs)@ + query_jobs(all.take(k + 1)));
            k = k + 1;
        }
    }
    proof {
        assert(all.take(k) =~= all);
    }
}

impl WorkflowTaskManager {
    /// Given a validated poll response from the server, prepares its
    /// application to the run's state machines.
    ///
    /// A response for a run that has an outstanding task or activation is
    /// kept back in the run's buffer slot. The server sends one task per run
    /// at a time, so the slot of a busy run must be free.
    pub fn apply_new_poll_resp(&mut self, work: ValidPollWFTQResponse) -> (r: PollApplication)
        requires
            old(self).wf(),
            is_busy(old(self)@.machines, work.workflow_execution.run_id@) ==> buffered_of(
                old(self)@.machines,
                work.workflow_execution.run_id@,
            ) is None,
        ensures
            final(self).wf(),
            apply_new_poll_resp_post(old(self)@, final(self)@, work, r),
    {
        let work = match self.workflow_machines.buffer_resp_if_outstanding_work(work) {
            Some(w) => w,
            None => {
                return PollApplication::TaskBuffered;
            },
        };
        let ValidPollWFTQResponse {
            task_token,
            workflow_execution,
            workflow_type,
            history,
            next_page_token,
            attempt,
            previous_started_event_id,
            query_requests,
            legacy_query,
        } = work;
        // Check if there is a legacy query that either is issued at once (if
        // there is no more replay work to do) or stored for later answering.
        let legacy_query = match legacy_query {
            Some(q) => Some(query_to_job(LEGACY_QUERY_ID.to_owned(), q)),
            None => None,
        };
        let poll_resp_is_incremental = if history.events.len() == 0 {
            true
        } else {
            history.events[0].event_id > 1
        };
        let run_is_cached = self.workflow_machines.run_exists(&workflow_execution.run_id);
        let sticky_cache_miss = !run_is_cached && poll_resp_is_incremental;
        let did_miss_cache = !poll_resp_is_incremental || sticky_cache_miss;
        let page_token = if sticky_cache_miss {
            NextPageToken::FetchFromStart
        } else {
            NextPageToken::from_token(next_page_token)
        };
        let run_id = workflow_execution.run_id.clone();
        PollApplication::Apply {
            update: HistoryUpdateRequest {
                workflow_execution,
                workflow_type,
                history,
                page_token,
                previous_started_event_id,
            },
            task: PendingWft {
                run_id,
                info: WorkflowTaskInfo { task_token, attempt },
                did_miss_cache,
                query_requests,
                legacy_query,
            },
            sticky_cache_miss,
        }
    }

    /// Tracks the run of a workflow task whose state machines have been
    /// created or updated, and places the task's queries.
    ///
    /// `machines_result` is what creating or updating the machines gave: the
    /// next activation, or an error. On a cache hit the queries become jobs
    /// of the activation; otherwise they are returned, to be answered once
    /// replay is over.
    fn instantiate_or_update_workflow(
        &mut self,
        run_id: String,
        did_miss_cache: bool,
        query_requests: Vec<QueryWorkflow>,
        machines_result: Result<WorkflowActivation, WFMachinesError>,
    ) -> (r: Result<(WorkflowActivation, Vec<QueryWorkflow>), WorkflowUpdateError>)
        requires
            old(self).wf(),
        ensures
            final(self).wf(),
            match machines_result {
                Err(source) => {
                    &&& final(self)@ == old(self)@
                    &&& r matches Err(e)
                    &&& e.source == source
                    &&& e.run_id == run_id
                },
                Ok(activation) => {
                    &&& final(self)@ == (TaskManagerState {
                        machines: final(self)@.machines,
                        ..old(self)@
                    })
                    &&& run_tracked(old(self)@.machines, final(self)@.machines, run_id@)
                    &&& r matches Ok((act, pending_queries))
                    &&& act.run_id == activation.run_id
                    &&& act.context == activation.context
                    &&& act.jobs@ == (if did_miss_cache {
                        activation.jobs@
                    } else {
                        activation.jobs@ + query_jobs(query_requests@)
                    })
                    &&& pending_queries@ == (if did_miss_cache {
                        query_requests@
                    } else {
                        Seq::<QueryWorkflow>::empty()
                    })
                },
            },
    {
        match machines_result {
            Ok(activation) => {
                let _ = self.workflow_machines.create_or_update(&run_id);
                let mut activation = activation;
                // If there are in-poll queries, insert jobs for those queries
                // into the activation, but only on a cache hit. Otherwise
                // those queries are dealt with once replay is over.
                if !did_miss_cache {
                    append_query_jobs(&mut activation.jobs, query_requests);
                    Ok((activation, Vec::new()))
                } else {
                    Ok((activation, query_requests))
                }
            },
            Err(source) => Err(WorkflowUpdateError { source, run_id }),
        }
    }

    /// Records a workflow task whose state machines have been created or
    /// updated, and says what is to be done with it.
    ///
    /// `machines_result` is what the machines gave for the task: the next
    /// activation, which must be for the task's run, or an error.
    /// `outstanding_local_activities` is the number of local activities the
    /// machines are waiting for, and `now` the time at which the task
    /// arrived. The run must have no outstanding activation.
    ///
    /// The task becomes the run's outstanding task. If its activation has
    /// jobs, the activation becomes outstanding and is to be issued. If it
    /// has none, the task is to be completed at once, unless local
    /// activities are outstanding.
    pub fn apply_history_update(
        &mut self,
        task: PendingWft,
        machines_result: Result<WorkflowActivation, WFMachinesError>,
        outstanding_local_activities: usize,
        now: u128,
    ) -> (r: NewWfTaskOutcome)
        requires
            old(self).wf(),
            activation_of(old(self)@.machines, task.run_id@) is None,
            machines_result matches Ok(activation) ==> activation.run_id@ == task.run_id@,
        ensures
            final(self).wf(),
            apply_history_update_post(
                old(self)@,
                final(self)@,
                task,
                machines_result,
                outstanding_local_activities,
                now,
                r,
            ),
    {
        let PendingWft { run_id, info, did_miss_cache, query_requests, legacy_query } = task;
        let has_query_requests = query_requests.len() > 0;
        let (mut next_activation, mut pending_queries) = match self.instantiate_or_update_workflow(
            run_id,
            did_miss_cache,
            query_requests,
            machines_result,
        ) {
            Ok(res) => res,
            Err(e) => {
                return NewWfTaskOutcome::Evict(e);
            },
        };
        proof {
            self.lemma_wf_valid();
            assert(self@.machines.dom() =~= old(self)@.machines.dom().insert(task.run_id@));
        }

        if has_query_requests && legacy_query.is_some() {
            return NewWfTaskOutcome::Evict(
                WorkflowUpdateError {
                    source: WFMachinesError::Fatal(BOTH_NORMAL_AND_LEGACY_QUERY.to_owned()),
                    run_id: next_activation.run_id,
                },
            );
        }
        // Immediately dispatch query activation if no other jobs.

        if let Some(lq) = legacy_query {
            if next_activation.jobs.len() == 0 {
                next_activation.jobs.push(ActivationJob::QueryWorkflow(lq));
                proof {
                    assert(next_activation.jobs@ =~= seq![ActivationJob::QueryWorkflow(lq)]);
                }
            } else {
                pending_queries.push(lq);
            }
        }
        let ghost mid = self@;
        let inserted = self.workflow_machines.insert_wft(
            &next_activation.run_id,
            OutstandingTask { info, pending_queries, start_time: now },
        );
        assert(inserted is Ok);
        assert(self@.machines.dom() =~= old(self)@.machines.dom().insert(task.run_id@));

        if next_activation.jobs.len() == 0 {
            if outstanding_local_activities > 0 {
                // If there are outstanding local activities, the task is
                // not completed at once, to give them a chance to complete.
                NewWfTaskOutcome::LocalActsOutstanding
            } else {
                NewWfTaskOutcome::Autocomplete
            }
        } else {
            match self.insert_outstanding_activation(&next_activation) {
                Err(wme) => {
                    assert(false);
                    NewWfTaskOutcome::Evict(WorkflowUpdateError::from(wme))
                },
                Ok(()) => {
                    assert(self@.machines.dom() =~= old(self)@.machines.dom().insert(
                        task.run_id@,
                    ));
                    NewWfTaskOutcome::IssueActivation(next_activation)
                },
            }
        }
    }
}

/// A legacy query is dispatched at once where the state machines have no
/// jobs for the host, and waits where they have.
pub proof fn lemma_legacy_query_interleaving(machine_jobs: Seq<ActivationJob>, task: PendingWft)
    requires
        task.legacy_query is Some,
        task.query_requests@.len() == 0,
    ensures
        machine_jobs.len() == 0 ==> new_task_jobs(machine_jobs, task) == seq![
            ActivationJob::QueryWorkflow(task.legacy_query.unwrap()),
        ] && new_task_pending_queries(machine_jobs, task).len() == 0,
        machine_jobs.len() > 0 ==> new_task_jobs(machine_jobs, task) == machine_jobs
            && new_task_pending_queries(machine_jobs, task) == seq![task.legacy_query.unwrap()],
{
    assert(query_jobs(task.query_requests@) =~= Seq::<ActivationJob>::empty());
    assert(machine_jobs + Seq::<ActivationJob>::empty() =~= machine_jobs);
    if machine_jobs.len() > 0 {
        assert(new_task_pending_queries(machine_jobs, task) =~= seq![task.legacy_query.unwrap()]);
    } else {
        assert(task.query_requests@ =~= Seq::<QueryWorkflow>::empty());
    }
}

/// The message of an eviction that makes room in the cache.
pub const CACHE_FULL: &'static str = "Workflow cache full";

/// The message of the eviction requested when a pending activation is for a
/// run without state machines.
pub const PENDING_ACTIVATION_FOR_MISSING_RUN: &'static str =
    "Tried to apply pending activation for missing run";

/// Position of the first entry of `q` whose run has no outstanding
/// activation in `m`, or `q.len()` if every entry's run has one.
pub open spec fn first_unblocked(q: Seq<PendingActInfo>, m: Map<Seq<char>, ManagedRun>) -> int
    decreases q.len(),
{
    if q.len() == 0 {
        0
    } else if activation_of(m, q[0].run_id@) is None {
        0
    } else {
        1 + first_unblocked(q.drop_first(), m)
    }
}

/// `first_unblocked` is the one position whose run has no outstanding
/// activation while the runs of all entries before it have one.
pub proof fn lemma_first_unblocked(q: Seq<PendingActInfo>, m: Map<Seq<char>, ManagedRun>, idx: int)
    requires
        0 <= idx <= q.len(),
        idx < q.len() ==> activation_of(m, q[idx].run_id@) is None,
        forall|j: int| 0 <= j < idx ==> activation_of(m, (#[trigger] q[j]).run_id@) is Some,
    ensures
        first_unblocked(q, m) == idx,
    decreases q.len(),
{
    if q.len() == 0 {
    } else if idx == 0 {
    } else {
        assert(activation_of(m, q[0].run_id@) is Some);
        let rest = q.drop_first();
        assert forall|j: int| 0 <= j < idx - 1 implies activation_of(
            m,
            (#[trigger] rest[j]).run_id@,
        ) is Some by {
            assert(rest[j] == q[j + 1]);
        }
        if idx < q.len() {
            assert(rest[idx - 1] == q[idx]);
        }
        lemma_first_unblocked(rest, m, idx - 1);
    }
}

/// What is to be done about the next pending activation.
#[derive(Debug, PartialEq, Eq)]
pub enum PendingActivationStep {
    /// Issue this activation, which answers a legacy query.
    Issue(WorkflowActivation),
    /// Ask the state machines of the entry's run for their activation and
    /// go on with [`WorkflowTaskManager::issue_pending_activation`].
    Snapshot(PendingActInfo),
    /// The entry taken was for a run without state machines and has been
    /// dropped: ask again.
    Retry,
    /// No run is both pending and free to be activated.
    Nothing,
}

/// What became of a pending activation.
#[derive(Debug, PartialEq, Eq)]
pub enum PendingActivationOutcome {
    /// Issue this activation; it is now the run's outstanding activation.
    Issue(WorkflowActivation),
    /// The activation was for a run without state machines: ask for the
    /// next pending activation.
    Retry,
    /// There was no work to be done after all.
    Nothing,
}

/// What [`WorkflowTaskManager::next_pending_activation`] does and returns.
pub open spec fn next_pending_activation_post(
    pre: TaskManagerState,
    post: TaskManagerState,
    r: PendingActivationStep,
) -> bool {
    let idx = first_unblocked(pre.pending_activations, pre.machines);
    if pre.pending_queries.len() > 0 {
        &&& r == PendingActivationStep::Issue(pre.pending_queries[0])
        &&& post == (TaskManagerState { pending_queries: pre.pending_queries.drop_first(), ..pre })
    } else if idx >= pre.pending_activations.len() {
        &&& r is Nothing
        &&& post == pre
    } else {
        &&& post == (TaskManagerState {
            pending_activations: pre.pending_activations.remove(idx),
            ..pre
        })
        &&& if pre.machines.contains_key(pre.pending_activations[idx].run_id@) {
            r == PendingActivationStep::Snapshot(pre.pending_activations[idx])
        } else {
            r is Retry
        }
    }
}

/// The jobs of the activation for a pending entry whose run's state
/// machines produced `machine_jobs`: those jobs, or the entry's eviction
/// where there are none.
pub open spec fn pending_activation_jobs(
    machine_jobs: Seq<ActivationJob>,
    pending_info: PendingActInfo,
) -> Seq<ActivationJob> {
    if machine_jobs.len() == 0 && pending_info.needs_eviction is Some {
        seq![ActivationJob::RemoveFromCache(pending_info.needs_eviction.unwrap())]
    } else {
        machine_jobs
    }
}

/// What [`WorkflowTaskManager::issue_pending_activation`] does and returns.
pub open spec fn issue_pending_activation_post(
    pre: TaskManagerState,
    post: TaskManagerState,
    pending_info: PendingActInfo,
    snapshot: WorkflowActivation,
    r: PendingActivationOutcome,
) -> bool {
    let jobs = pending_activation_jobs(snapshot.jobs@, pending_info);
    let run_id = snapshot.run_id@;
    if jobs.len() == 0 {
        &&& r is Nothing
        &&& post == pre
    } else if !pre.machines.contains_key(run_id) {
        &&& r is Retry
        &&& eviction_requested(
            pre,
            post,
            pending_info.run_id@,
            PENDING_ACTIVATION_FOR_MISSING_RUN@,
            EvictionReason::Fatal,
        )
        &&& post == (TaskManagerState {
            pending_activations: post.pending_activations,
            wakeups: post.wakeups,
            ..pre
        })
    } else {
        &&& r matches PendingActivationOutcome::Issue(issued)
        &&& issued.run_id == snapshot.run_id
        &&& issued.context == snapshot.context
        &&& issued.jobs@ == jobs
        &&& post == (TaskManagerState {
            machines: pre.machines.insert(
                run_id,
                ManagedRun {
                    activation: Some(OutstandingActivation::spec_of(issued)),
                    ..pre.machines[run_id]
                },
            ),
            cache: after_touch(pre.cache, run_id),
            ..pre
        })
    }
}

/// What keeping back `poll` does to the tracked runs and to the poll
/// responses that are ready: the response goes into the buffer slot of a
/// busy run, and is ready to be applied otherwise.
pub open spec fn poll_kept_back(
    pre: TaskManagerState,
    post: TaskManagerState,
    poll: ValidPollWFTQResponse,
) -> bool {
    let run_id = poll.workflow_execution.run_id@;
    if is_busy(pre.machines, run_id) {
        &&& post.machines == pre.machines.insert(
            run_id,
            ManagedRun { buffered_resp: Some(poll), ..pre.machines[run_id] },
        )
        &&& post.ready_buffered_wft == pre.ready_buffered_wft
    } else {
        &&& post.machines == pre.machines
        &&& post.ready_buffered_wft == pre.ready_buffered_wft.push(poll)
    }
}

/// What [`WorkflowTaskManager::add_new_run_to_cache`] does and returns.
pub open spec fn add_new_run_to_cache_post(
    pre: TaskManagerState,
    post: TaskManagerState,
    poll_resp: ValidPollWFTQResponse,
    r: Option<ValidPollWFTQResponse>,
) -> bool {
    let run_id = poll_resp.workflow_execution.run_id@;
    &&& post.cache == after_insert(pre.cache, pre.cache_capacity as int, run_id)
    &&& post.cache_capacity == pre.cache_capacity
    &&& post.pending_queries == pre.pending_queries
    &&& match insert_evicts(pre.cache, pre.cache_capacity as int, run_id) {
        None => {
            &&& r == Some(poll_resp)
            &&& post == (TaskManagerState { cache: post.cache, ..pre })
        },
        Some(evicted) => {
            &&& r is None
            &&& eviction_requested(pre, post, evicted, CACHE_FULL@, EvictionReason::CacheFull)
            &&& poll_kept_back(pre, post, poll_resp)
        },
    }
}

/// The tracked runs `m` after the activation of `run_id` has been answered:
/// the run has no outstanding activation, no outstanding task if `complete`,
/// and no buffered poll response if `take_buffered`.
pub open spec fn activation_done(
    m: Map<Seq<char>, ManagedRun>,
    run_id: Seq<char>,
    complete: bool,
    take_buffered: bool,
) -> Map<Seq<char>, ManagedRun> {
    if m.contains_key(run_id) {
        m.insert(
            run_id,
            ManagedRun {
                run_id: m[run_id].run_id,
                wft: if complete {
                    None
                } else {
                    m[run_id].wft
                },
                activation: None,
                buffered_resp: if take_buffered {
                    None
                } else {
                    m[run_id].buffered_resp
                },
            },
        )
    } else {
        m
    }
}

/// `post` is `pre` with, for each query of `queries` in order, an
/// activation behind it that asks `run_id` to answer that query.
pub open spec fn query_activations_queued(
    pre: Seq<WorkflowActivation>,
    post: Seq<WorkflowActivation>,
    run_id: Seq<char>,
    queries: Seq<QueryWorkflow>,
) -> bool {
    &&& post.len() == pre.len() + queries.len()
    &&& forall|i: int| 0 <= i < pre.len() ==> #[trigger] post[i] == pre[i]
    &&& forall|j: int|
        0 <= j < queries.len() ==> {
            let a = #[trigger] post[pre.len() + j];
            &&& a.run_id@ == run_id
            &&& a.context@.len() == 0
            &&& a.jobs@ == seq![ActivationJob::QueryWorkflow(queries[j])]
        }
}

/// `post` tracks what `pre` tracks, each run as before, but that the
/// outstanding task of `run_id` has no pending queries left.
pub open spec fn queries_taken(
    pre: Map<Seq<char>, ManagedRun>,
    post: Map<Seq<char>, ManagedRun>,
    run_id: Seq<char>,
) -> bool {
    &&& post.dom() == pre.dom()
    &&& forall|k: Seq<char>| k != run_id && pre.contains_key(k) ==> #[trigger] post[k] == pre[k]
    &&& post[run_id].run_id == pre[run_id].run_id
    &&& post[run_id].activation == pre[run_id].activation
    &&& post[run_id].buffered_resp == pre[run_id].buffered_resp
    &&& post[run_id].wft is Some
    &&& post[run_id].wft.unwrap().info == pre[run_id].wft.unwrap().info
    &&& post[run_id].wft.unwrap().start_time == pre[run_id].wft.unwrap().start_time
    &&& post[run_id].wft.unwrap().pending_queries@.len() == 0
}

/// What [`WorkflowTaskManager::after_wft_report`] does and returns.
///
/// If the activation carried an eviction, the run is evicted. Else, if the
/// run has no pending activation: where its task has queries that waited
/// for the end of replay, they are queued as activations and the task stays
/// outstanding, with its activation; otherwise the run is inserted into the
/// cache, whatever that evicts is requested to be evicted, and a buffered
/// poll response becomes ready. Unless queries were queued, the task is
/// completed if it was reported or the run has ended, the activation is no
/// longer outstanding, and one waiter for pending activations is woken.
pub open spec fn after_wft_report_post(
    pre: TaskManagerState,
    post: TaskManagerState,
    run_id: Seq<char>,
    reported_wft_to_server: bool,
    saw_final_event: bool,
    wft_marked_complete: bool,
) -> bool {
    let complete = reported_wft_to_server || saw_final_event;
    if pre.evicting(run_id) {
        &&& !wft_marked_complete
        &&& run_removed(pre, post, run_id)
        &&& post.wakeups == pre.wakeups.with_capacity().with_one()
    } else if has_entry(pre.pending_activations, run_id) {
        &&& wft_marked_complete == (complete && task_of(pre.machines, run_id) is Some)
        &&& post == (TaskManagerState {
            machines: activation_done(pre.machines, run_id, complete, false),
            wakeups: pre.wakeups.with_one(),
            ..pre
        })
    } else if task_of(pre.machines, run_id) is Some && task_of(
        pre.machines,
        run_id,
    ).unwrap().pending_queries@.len() > 0 {
        &&& !wft_marked_complete
        &&& queries_taken(pre.machines, post.machines, run_id)
        &&& query_activations_queued(
            pre.pending_queries,
            post.pending_queries,
            run_id,
            task_of(pre.machines, run_id).unwrap().pending_queries@,
        )
        &&& post == (TaskManagerState {
            machines: post.machines,
            pending_queries: post.pending_queries,
            wakeups: pre.wakeups.with_all(),
            ..pre
        })
    } else {
        &&& wft_marked_complete == (complete && task_of(pre.machines, run_id) is Some)
        &&& post.machines == activation_done(pre.machines, run_id, complete, true)
        &&& post.cache == after_insert(pre.cache, pre.cache_capacity as int, run_id)
        &&& post.cache_capacity == pre.cache_capacity
        &&& post.pending_queries == pre.pending_queries
        &&& post.ready_buffered_wft == (match buffered_of(pre.machines, run_id) {
            Some(buffered) => pre.ready_buffered_wft.push(buffered),
            None => pre.ready_buffered_wft,
        })
        &&& match insert_evicts(pre.cache, pre.cache_capacity as int, run_id) {
            Some(evicted) => {
                &&& eviction_queued(
                    pre,
                    post.pending_activations,
                    evicted,
                    CACHE_FULL@,
                    EvictionReason::CacheFull,
                )
                &&& post.wakeups == wakeups_after_request(pre, evicted).with_one()
            },
            None => {
                &&& post.pending_activations == pre.pending_activations
                &&& post.wakeups == pre.wakeups.with_one()
            },
        }
    }
}

impl WorkflowTaskManager {
    /// Adds a new run, as just received from polling, to the cache. If that
    /// overflows the cache, an eviction is requested to make room, the task
    /// is kept back and `None` is returned.
    ///
    /// If the task is for a run already in the cache, or there is room, the
    /// poll response is returned right away and should be applied.
    pub fn add_new_run_to_cache(&mut self, poll_resp: ValidPollWFTQResponse) -> (r: Option<
        ValidPollWFTQResponse,
    >)
        requires
            old(self).wf(),
            is_busy(old(self)@.machines, poll_resp.workflow_execution.run_id@) ==> buffered_of(
                old(self)@.machines,
                poll_resp.workflow_execution.run_id@,
            ) is None,
        ensures
            final(self).wf(),
            add_new_run_to_cache_post(old(self)@, final(self)@, poll_resp, r),
    {
        let maybe_evicted = self.cache_manager.insert(&poll_resp.workflow_execution.run_id);
        if let Some(evicted_run_id) = maybe_evicted {
            let _ = self.request_eviction(
                &evicted_run_id,
                CACHE_FULL.to_owned(),
                EvictionReason::CacheFull,
            );
            // Buffer the task.
            if let Some(not_buffered) = self.workflow_machines.buffer_resp_if_outstanding_work(
                poll_resp,
            ) {
                self.make_buffered_poll_ready(not_buffered);
            }
            return None;
        }
        Some(poll_resp)
    }

    /// Takes the next pending activation.
    ///
    /// Activations that answer legacy queries come first. After them comes
    /// the first run in the queue of pending activations that has no
    /// outstanding activation: issuing a pending activation for a run that
    /// has one would let a completion in progress appear to be the last of
    /// its task.
    pub fn next_pending_activation(&mut self) -> (r: PendingActivationStep)
        requires
            old(self).wf(),
        ensures
            final(self).wf(),
            next_pending_activation_post(old(self)@, final(self)@, r),
    {
        // Dispatch pending queries first.
        if let Some(leg_q) = pop_activation(&mut self.pending_queries) {
            return PendingActivationStep::Issue(leg_q);
        }
        let machines = &self.workflow_machines;
        let is_free = |rid: &String| -> (free: bool)
            ensures
                free == (activation_of(machines@, rid@) is None),
            { machines.get_activation(rid).is_none() };
        let maybe_act = self.pending_activations.pop_first_matching(is_free);
        match maybe_act {
            Some(pending_info) => {
                proof {
                    let q = old(self)@.pending_activations;
                    let idx = choose|idx: int|
                        0 <= idx < q.len() && pending_info == q[idx] && self@.pending_activations
                            == q.remove(idx) && call_ensures(is_free, (&q[idx].run_id,), true)
                            && forall|j: int|
                            0 <= j < idx ==> call_ensures(
                                is_free,
                                (&(#[trigger] q[j]).run_id,),
                                false,
                            );
                    lemma_first_unblocked(q, old(self)@.machines, idx);
                }
                if self.workflow_machines.run_exists(&pending_info.run_id) {
                    PendingActivationStep::Snapshot(pending_info)
                } else {
                    let _ = self.request_eviction(
                        &pending_info.run_id,
                        PENDING_ACTIVATION_FOR_MISSING_RUN.to_owned(),
                        EvictionReason::Fatal,
                    );
                    PendingActivationStep::Retry
                }
            },
            None => {
                proof {
                    let q = old(self)@.pending_activations;
                    lemma_first_unblocked(q, old(self)@.machines, q.len() as int);
                }
                PendingActivationStep::Nothing
            },
        }
    }

    /// Issues the activation for a pending entry, given the activation that
    /// the state machines of the entry's run produced.
    ///
    /// A run is evicted only after all its other pending work is done: the
    /// entry's eviction becomes a job only where the machines have none. An
    /// activation without jobs is dropped. Otherwise the activation becomes
    /// the outstanding activation of its run, which must have none, and the
    /// run becomes the most recently used in the cache.
    pub fn issue_pending_activation(
        &mut self,
        pending_info: PendingActInfo,
        snapshot: WorkflowActivation,
    ) -> (r: PendingActivationOutcome)
        requires
            old(self).wf(),
            pending_activation_jobs(snapshot.jobs@, pending_info).len() > 0 ==> activation_of(
                old(self)@.machines,
                snapshot.run_id@,
            ) is None,
        ensures
            final(self).wf(),
            issue_pending_activation_post(old(self)@, final(self)@, pending_info, snapshot, r),
    {
        let mut act = snapshot;
        let PendingActInfo { run_id, needs_eviction } = pending_info;
        // Only evict workflows after all other pending work is complete.
        if act.jobs.len() == 0 {
            if let Some(reason) = needs_eviction {
                act.append_evict_job(reason);
                proof {
                    assert(act.jobs@ =~= seq![ActivationJob::RemoveFromCache(reason)]);
                }
            }
        }
        if act.jobs.len() > 0 {
            match self.insert_outstanding_activation(&act) {
                Ok(()) => {
                    self.cache_manager.touch(&act.run_id);
                    PendingActivationOutcome::Issue(act)
                },
                Err(_) => {
                    let _ = self.request_eviction(
                        &run_id,
                        PENDING_ACTIVATION_FOR_MISSING_RUN.to_owned(),
                        EvictionReason::Fatal,
                    );
                    PendingActivationOutcome::Retry
                },
            }
        } else {
            // If a pending activation was triggered but there was not
            // actually any work to be done, just ignore that.
            PendingActivationOutcome::Nothing
        }
    }

    /// Must be called after every activation is replied to, whether or not
    /// reporting it to the server went well: every activation issued to the
    /// language host has exactly one reply.
    fn on_activation_done(&mut self, run_id: &String)
        requires
            old(self).wf(),
        ensures
            final(self).wf(),
            final(self)@ == (TaskManagerState {
                machines: activation_done(old(self)@.machines, run_id@, false, false),
                wakeups: old(self)@.wakeups.with_one(),
                ..old(self)@
            }),
    {
        proof {
            self.lemma_wf_valid();
        }
        let _ = self.workflow_machines.delete_activation(run_id);
        // Only one waiter is woken: whoever waits on a cache slot must not
        // miss that pending activations have to be issued before a slot
        // frees up.
        self.wakeups.pending_activations_one = true;
        proof {
            assert(self@.machines =~= activation_done(old(self)@.machines, run_id@, false, false));
        }
    }

    /// Queues one activation per query of `queries`, in order, each asking
    /// `run_id` to answer that query alone.
    fn queue_query_activations(&mut self, run_id: &String, queries: Vec<QueryWorkflow>)
        requires
            old(self).wf(),
        ensures
            final(self).wf(),
            query_activations_queued(
                old(self)@.pending_queries,
                final(self)@.pending_queries,
                run_id@,
                queries@,
            ),
            final(self)@ == (TaskManagerState {
                pending_queries: final(self)@.pending_queries,
                ..old(self)@
            }),
    {
        let ghost all = queries@;
        let mut rest = queries;
        let ghost mut k: int = 0;
        proof {
            assert(rest@ =~= all.skip(0));
        }
        while rest.len() > 0
            invariant
                self.wf(),
                0 <= k <= all.len(),
                rest@ == all.skip(k),
                query_activations_queued(
                    old(self)@.pending_queries,
                    self@.pending_queries,
                    run_id@,
                    all.take(k),
                ),
                self@ == (TaskManagerState {
                    pending_queries: self@.pending_queries,
                    ..old(self)@
                }),
            decreases rest.len(),
        {
            let query = rest.remove(0);
            let ghost before = self@.pending_queries;
            let na = create_query_activation(run_id.clone(), query);
            push_activation(&mut self.pending_queries, na);
            proof {
                assert(query == all[k]);
                assert(rest@ =~= all.skip(k + 1));
                let pre = old(self)@.pending_queries;
                let post = self@.pending_queries;
                assert forall|j: int| 0 <= j < all.take(k + 1).len() implies {
                    let a = #[trigger] post[pre.len() + j];
                    &&& a.run_id@ == run_id@
                    &&& a.context@.len() == 0
                    &&& a.jobs@ == seq![ActivationJob::QueryWorkflow(all.take(k + 1)[j])]
                } by {
                    if j < k {
                        assert(post[pre.len() + j] == before[pre.len() + j]);
                        assert(all.take(k)[j] == all.take(k + 1)[j]);
                    }
                }
                assert forall|i: int| 0 <= i < pre.len() implies #[trigger] post[i] == pre[i] by {
                    assert(post[i] == before[i]);
                }
                k = k + 1;
            }
        }
        proof {
            assert(all.take(k) =~= all);
        }
    }

    /// Called after every workflow activation completion or failure: updates
    /// the outstanding task and issues evictions if required.
    ///
    /// It is important that this is called after the workflow task has been
    /// reported to the server, where it is, as some replies (task not found)
    /// may require an eviction, which is avoided if this is called too early.
    /// `saw_final_event` says whether the run's state machines have seen the
    /// run's final event. The run must be tracked or have a pending
    /// activation.
    ///
    /// Returns true if the workflow task was marked completed internally.
    pub fn after_wft_report(
        &mut self,
        run_id: &str,
        reported_wft_to_server: bool,
        saw_final_event: bool,
    ) -> (wft_marked_complete: bool)
        requires
            old(self).wf(),
            old(self)@.machines.contains_key(run_id@) || has_entry(
                old(self)@.pending_activations,
                run_id@,
            ),
        ensures
            final(self).wf(),
            after_wft_report_post(
                old(self)@,
                final(self)@,
                run_id@,
                reported_wft_to_server,
                saw_final_event,
                wft_marked_complete,
            ),
    {
        let run_id = &run_id.to_owned();
        proof {
            self.lemma_wf_valid();
        }
        let mut just_evicted = false;
        if self.activation_has_eviction(run_id) {
            self.evict_run(run_id);
            just_evicted = true;
        }
        // Workflows with no more pending activations (they have completed
        // a workflow task) must be removed from the outstanding tasks.

        if !just_evicted && !self.pending_activations.has_pending(run_id) {
            // Check if there was a pending query which must be fulfilled,
            // and if there is create a new pending activation for it.
            let has_pending_queries = match self.workflow_machines.get_task(run_id) {
                Some(ot) => ot.pending_queries.len() > 0,
                None => false,
            };
            if has_pending_queries {
                let queries = self.workflow_machines.take_pending_queries(run_id);
                self.queue_query_activations(run_id, queries);
                self.wakeups.pending_activations_all = true;
                return false;
            }
            // Evict run id if cache is full. Non-sticky will always evict.

            let maybe_evicted = self.cache_manager.insert(run_id);
            if let Some(evicted_run_id) = maybe_evicted {
                let _ = self.request_eviction(
                    &evicted_run_id,
                    CACHE_FULL.to_owned(),
                    EvictionReason::CacheFull,
                );
            }
            // If there was a buffered poll response from the server, it is
            // now ready to be handled.

            if let Some(buffd) = self.workflow_machines.take_buffered_poll(run_id) {
                self.make_buffered_poll_ready(buffd);
            }
        }
        // If we reported to server, we always want to mark it complete.

        let wft_marked_complete = self.workflow_machines.complete_wft(
            run_id,
            reported_wft_to_server,
            saw_final_event,
        ).is_some();
        self.on_activation_done(run_id);
        proof {
            let complete = reported_wft_to_server || saw_final_event;
            let pre = old(self)@;
            if pre.evicting(run_id@) {
                assert(self@.machines =~= pre.machines.remove(run_id@));
            } else if has_entry(pre.pending_activations, run_id@) {
                assert(self@.machines =~= activation_done(pre.machines, run_id@, complete, false));
            } else {
                assert(self@.machines =~= activation_done(pre.machines, run_id@, complete, true));
            }
        }
        wft_marked_complete
    }
}

/// What `first_unblocked` finds: the run of the entry at that position has
/// no outstanding activation, and the runs of all entries before it have one.
pub proof fn lemma_first_unblocked_is_first(q: Seq<PendingActInfo>, m: Map<Seq<char>, ManagedRun>)
    ensures
        0 <= first_unblocked(q, m) <= q.len(),
        first_unblocked(q, m) < q.len() ==> activation_of(
            m,
            q[first_unblocked(q, m)].run_id@,
        ) is None,
        forall|j: int|
            0 <= j < first_unblocked(q, m) ==> activation_of(m, (#[trigger] q[j]).run_id@) is Some,
    decreases q.len(),
{
    if q.len() == 0 {
    } else if activation_of(m, q[0].run_id@) is None {
    } else {
        let rest = q.drop_first();
        lemma_first_unblocked_is_first(rest, m);
        let p = first_unblocked(rest, m);
        assert forall|j: int| 0 <= j < 1 + p implies activation_of(m, (#[trigger] q[j]).run_id@)
            is Some by {
            if j > 0 {
                assert(q[j] == rest[j - 1]);
            }
        }
        if p < rest.len() {
            assert(q[1 + p] == rest[p]);
        }
    }
}

/// While a run has an outstanding activation, no pending activation is
/// taken for it: with no legacy query waiting, the next pending activation
/// is for another run, the run's own entry stays queued, and its
/// outstanding activation stays as it is.
pub proof fn lemma_busy_run_is_skipped(
    pre: TaskManagerState,
    post: TaskManagerState,
    r: PendingActivationStep,
    run_id: Seq<char>,
)
    requires
        pre.valid(),
        next_pending_activation_post(pre, post, r),
        activation_of(pre.machines, run_id) is Some,
        pre.pending_queries.len() == 0,
    ensures
        !(r matches PendingActivationStep::Snapshot(info) && info.run_id@ == run_id),
        !(r is Issue),
        has_entry(pre.pending_activations, run_id) ==> has_entry(post.pending_activations, run_id),
        activation_of(post.machines, run_id) == activation_of(pre.machines, run_id),
{
    let q = pre.pending_activations;
    lemma_first_unblocked_is_first(q, pre.machines);
    let idx = first_unblocked(q, pre.machines);
    if idx < q.len() {
        crate::pending_activations::lemma_remove_entry(q, post.pending_activations, idx);
    }
}

/// Requesting the eviction of a run twice in a row gives the same answer
/// both times and leaves the queue of pending activations as one request
/// leaves it.
pub proof fn lemma_request_eviction_twice(
    s0: TaskManagerState,
    s1: TaskManagerState,
    s2: TaskManagerState,
    run_id: Seq<char>,
    message: Seq<char>,
    reason: EvictionReason,
)
    requires
        s0.valid(),
        eviction_requested(s0, s1, run_id, message, reason),
        s1 == (TaskManagerState {
            pending_activations: s1.pending_activations,
            wakeups: s1.wakeups,
            ..s0
        }),
        eviction_requested(s1, s2, run_id, message, reason),
        s2 == (TaskManagerState {
            pending_activations: s2.pending_activations,
            wakeups: s2.wakeups,
            ..s1
        }),
    ensures
        s1.eviction_request_result(run_id) == s0.eviction_request_result(run_id),
        eviction_requested(s0, s2, run_id, message, reason),
        s2.pending_activations.len() == s1.pending_activations.len(),
        s2.wakeups == s1.wakeups,
{
    if s0.machines.contains_key(run_id) && !s0.evicting(run_id) {
        lemma_eviction_noted_twice(
            s0.pending_activations,
            s1.pending_activations,
            s2.pending_activations,
            run_id,
            message,
            reason,
        );
    }
}

/// Once the eviction requested for a run has been issued to the language
/// host, a further request is answered with `EvictionAlreadyRequested` and
/// changes nothing.
///
/// The eviction is issued when the run's pending entry is taken while the
/// run's state machines have no jobs: the activation issued then consists
/// of the eviction alone.
pub proof fn lemma_issued_eviction_is_already_requested(
    pre: TaskManagerState,
    post: TaskManagerState,
    after: TaskManagerState,
    pending_info: PendingActInfo,
    snapshot: WorkflowActivation,
    r: PendingActivationOutcome,
    message: Seq<char>,
    reason: EvictionReason,
)
    requires
        pre.valid(),
        pre.machines.contains_key(snapshot.run_id@),
        pending_info.needs_eviction is Some,
        snapshot.jobs@.len() == 0,
        issue_pending_activation_post(pre, post, pending_info, snapshot, r),
        eviction_requested(post, after, snapshot.run_id@, message, reason),
    ensures
        r is Issue,
        post.only_evicting(snapshot.run_id@),
        post.eviction_request_result(snapshot.run_id@) is EvictionAlreadyRequested,
        after.pending_activations == post.pending_activations,
        after.wakeups == post.wakeups,
{
    let jobs = pending_activation_jobs(snapshot.jobs@, pending_info);
    assert(jobs.len() == 1);
    let issued = r->Issue_0;
    assert(issued.jobs@[0].is_eviction());
    assert(!issued.spec_is_legacy_query());
    assert(has_eviction_job(issued.jobs@));
}

/// A poll response that arrives for a run with an outstanding task surfaces
/// exactly once after the task has been completed: it waits in the run's
/// buffer slot, and when the report of the task finds the run without
/// pending activations and without queries that waited for the end of
/// replay, or finds it evicted, the response moves to the back of the
/// responses that are ready, and the slot is free.
pub proof fn lemma_buffered_poll_surfaces_once(
    s0: TaskManagerState,
    s1: TaskManagerState,
    s2: TaskManagerState,
    work: ValidPollWFTQResponse,
    applied: PollApplication,
    reported_wft_to_server: bool,
    saw_final_event: bool,
    wft_marked_complete: bool,
)
    requires
        s0.valid(),
        task_of(s0.machines, work.workflow_execution.run_id@) is Some,
        apply_new_poll_resp_post(s0, s1, work, applied),
        after_wft_report_post(
            s1,
            s2,
            work.workflow_execution.run_id@,
            reported_wft_to_server,
            saw_final_event,
            wft_marked_complete,
        ),
        s1.evicting(work.workflow_execution.run_id@) || (!has_entry(
            s1.pending_activations,
            work.workflow_execution.run_id@,
        ) && task_of(s1.machines, work.workflow_execution.run_id@).unwrap().pending_queries@.len()
            == 0),
    ensures
        applied is TaskBuffered,
        s1.ready_buffered_wft == s0.ready_buffered_wft,
        buffered_of(s1.machines, work.workflow_execution.run_id@) == Some(work),
        s2.ready_buffered_wft == s1.ready_buffered_wft.push(work),
        buffered_of(s2.machines, work.workflow_execution.run_id@) is None,
{
}

/// A query that had to wait is dispatched after the report: when the
/// report finds the run without pending activations and without an eviction
/// under way, an activation that asks for the answer to each waiting query
/// is queued, and with nothing queued before, the first of them is the next
/// activation that is issued.
pub proof fn lemma_waiting_query_is_dispatched_after_report(
    s0: TaskManagerState,
    s1: TaskManagerState,
    s2: TaskManagerState,
    run_id: Seq<char>,
    reported_wft_to_server: bool,
    saw_final_event: bool,
    wft_marked_complete: bool,
    next: PendingActivationStep,
)
    requires
        s0.valid(),
        task_of(s0.machines, run_id) is Some,
        task_of(s0.machines, run_id).unwrap().pending_queries@.len() > 0,
        !s0.evicting(run_id),
        !has_entry(s0.pending_activations, run_id),
        s0.pending_queries.len() == 0,
        after_wft_report_post(
            s0,
            s1,
            run_id,
            reported_wft_to_server,
            saw_final_event,
            wft_marked_complete,
        ),
        next_pending_activation_post(s1, s2, next),
    ensures
        !wft_marked_complete,
        task_of(s1.machines, run_id) is Some,
        s1.pending_queries.len() == task_of(s0.machines, run_id).unwrap().pending_queries@.len(),
        next matches PendingActivationStep::Issue(issued) && issued.run_id@ == run_id
            && issued.jobs@ == seq![
            ActivationJob::QueryWorkflow(task_of(s0.machines, run_id).unwrap().pending_queries@[0]),
        ],
{
    assert(s1.pending_queries[s0.pending_queries.len() + 0int].run_id@ == run_id);
}

/// A workflow task that was reported to the server is completed by the
/// report, unless queries that waited for the end of replay keep it
/// outstanding: the run has no outstanding task afterwards, and no
/// outstanding activation.
pub proof fn lemma_reported_task_is_completed(
    pre: TaskManagerState,
    post: TaskManagerState,
    run_id: Seq<char>,
    saw_final_event: bool,
    wft_marked_complete: bool,
)
    requires
        pre.valid(),
        after_wft_report_post(pre, post, run_id, true, saw_final_event, wft_marked_complete),
        has_entry(pre.pending_activations, run_id) || pre.evicting(run_id) || task_of(
            pre.machines,
            run_id,
        ) is None || task_of(pre.machines, run_id).unwrap().pending_queries@.len() == 0,
    ensures
        task_of(post.machines, run_id) is None,
        activation_of(post.machines, run_id) is None,
        wft_marked_complete == (task_of(pre.machines, run_id) is Some && !pre.evicting(run_id)),
{
}

/// Adding a run keeps the cache within its capacity and free of
/// duplicates. Where the cache keeps anything, the run is its most recently
/// used entry afterwards, and a run that had to leave for it was the least
/// recently used one of a full cache, for which an eviction is requested. A
/// cache that keeps nothing asks for the eviction of the run itself, and the
/// poll response is kept back.
pub proof fn lemma_add_new_run_keeps_cache_bound(
    pre: TaskManagerState,
    post: TaskManagerState,
    poll_resp: ValidPollWFTQResponse,
    r: Option<ValidPollWFTQResponse>,
)
    requires
        pre.valid(),
        add_new_run_to_cache_post(pre, post, poll_resp, r),
    ensures
        post.cache.no_duplicates(),
        post.cache.len() <= post.cache_capacity,
        post.cache_capacity == pre.cache_capacity,
        pre.cache_capacity > 0 ==> post.cache.len() > 0 && post.cache.last()
            == poll_resp.workflow_execution.run_id@,
        r is None <==> insert_evicts(
            pre.cache,
            pre.cache_capacity as int,
            poll_resp.workflow_execution.run_id@,
        ) is Some,
        pre.cache_capacity == 0 ==> r is None && eviction_requested(
            pre,
            post,
            poll_resp.workflow_execution.run_id@,
            CACHE_FULL@,
            EvictionReason::CacheFull,
        ),
        pre.cache_capacity > 0 && r is None ==> pre.cache.len() == pre.cache_capacity
            && !pre.cache.contains(poll_resp.workflow_execution.run_id@) && post.cache
            == pre.cache.drop_first().push(poll_resp.workflow_execution.run_id@)
            && eviction_requested(
            pre,
            post,
            pre.cache[0],
            CACHE_FULL@,
            EvictionReason::CacheFull,
        ),
{
    crate::workflow::workflow_tasks::cache_manager::lemma_insert_within_capacity(
        pre.cache,
        pre.cache_capacity as int,
        poll_resp.workflow_execution.run_id@,
    );
}

} // verus!
