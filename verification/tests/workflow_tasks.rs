use worker_core::pending_activations::PendingActInfo;
use worker_core::protos::{
    ActivationJob, EvictionReason, HistoryEvent, ProtoCommand, QueryResult, QueryWorkflow,
    RemoveFromCache, TaskToken, WorkflowActivation,
};
use worker_core::protosext::{History, ValidPollWFTQResponse, WorkflowExecution, WorkflowQuery};
use worker_core::workflow::workflow_tasks::cache_manager::WorkflowCachingPolicy;
use worker_core::workflow::workflow_tasks::{
    wait_for_local_acts_or_heartbeat, wft_heartbeat_deadline, ActivationAction,
    ActivationCompletion, EvictionRequestResult, FailedActivationOutcome, LocalActsWait,
    NewWfTaskOutcome, NextPageToken, OutstandingActivation, PendingActivationOutcome,
    PendingActivationStep, PendingCompletion, PendingWft, PollApplication,
    ServerCommandsWithWorkflowInfo, Wakeups, WorkflowMissingError, WorkflowTaskManager,
    WorkflowUpdateError, BOTH_NORMAL_AND_LEGACY_QUERY, CACHE_FULL,
    LEGACY_QUERY_WITH_OTHER_COMMANDS, MACHINES_MISSING, PENDING_ACTIVATION_FOR_MISSING_RUN,
};
use worker_core::workflow::{WFCommand, WFMachinesError, LEGACY_QUERY_ID};

const SECOND: u128 = 1_000_000_000;

fn id(s: &str) -> String {
    s.to_string()
}

fn manager(capacity: usize) -> WorkflowTaskManager {
    WorkflowTaskManager::new(WorkflowCachingPolicy::Sticky { max_cached_workflows: capacity })
}

fn poll(run: &str, token: u8, first_event: Option<i64>) -> ValidPollWFTQResponse {
    ValidPollWFTQResponse {
        task_token: TaskToken(vec![token]),
        workflow_execution: WorkflowExecution { workflow_id: id("wf"), run_id: id(run) },
        workflow_type: id("type"),
        history: History {
            events: first_event
                .into_iter()
                .map(|event_id| HistoryEvent { event_id, attributes: vec![] })
                .collect(),
        },
        next_page_token: vec![],
        attempt: 1,
        previous_started_event_id: 0,
        query_requests: vec![],
        legacy_query: None,
    }
}

fn query(qid: &str) -> QueryWorkflow {
    QueryWorkflow { query_id: id(qid), query: vec![42] }
}

fn job(n: u8) -> ActivationJob {
    ActivationJob::Other(vec![n])
}

fn activation(run: &str, jobs: Vec<ActivationJob>) -> WorkflowActivation {
    WorkflowActivation { run_id: id(run), context: vec![7], jobs }
}

fn cmd(n: u8) -> WFCommand {
    WFCommand::Other(vec![n])
}

fn answer(qid: &str) -> QueryResult {
    QueryResult { query_id: id(qid), result: vec![1] }
}

fn none_woken() -> Wakeups {
    Wakeups { pending_activations_all: false, pending_activations_one: false, cache_capacity: false }
}

/// Applies a poll response whose state machines produce `jobs`.
fn apply(
    mgr: &mut WorkflowTaskManager,
    work: ValidPollWFTQResponse,
    jobs: Vec<ActivationJob>,
    now: u128,
) -> NewWfTaskOutcome {
    let run = work.workflow_execution.run_id.clone();
    match mgr.apply_new_poll_resp(work) {
        PollApplication::Apply { task, .. } => {
            mgr.apply_history_update(task, Ok(activation(&run, jobs)), 0, now)
        }
        PollApplication::TaskBuffered => panic!("task was buffered"),
    }
}

/// Brings `run` to rest in the cache: one task applied, completed and reported.
fn settle(mgr: &mut WorkflowTaskManager, run: &str, token: u8) {
    let out = apply(mgr, poll(run, token, Some(1)), vec![job(1)], 0);
    assert!(matches!(out, NewWfTaskOutcome::IssueActivation(_)));
    assert!(mgr.after_wft_report(&id(run), true, false));
    mgr.take_wakeups();
}

#[test]
fn new_manager_is_empty() {
    let mut mgr = manager(2);
    assert_eq!(mgr.cached_workflows(), 0);
    assert!(!mgr.wait_for_cache_capacity());
    assert_eq!(mgr.next_buffered_poll(), None);
    assert_eq!(mgr.next_pending_activation(), PendingActivationStep::Nothing);
    assert_eq!(mgr.take_wakeups(), none_woken());
}

#[test]
fn cache_miss_triggers_full_history_fetch() {
    let mut mgr = manager(2);
    match mgr.apply_new_poll_resp(poll("run", 1, Some(5))) {
        PollApplication::Apply { update, task, sticky_cache_miss } => {
            assert!(sticky_cache_miss);
            assert_eq!(update.page_token, NextPageToken::FetchFromStart);
            assert_eq!(update.history.events[0].event_id, 5);
            assert_eq!(update.workflow_execution.run_id, "run");
            assert!(task.did_miss_cache);
            assert_eq!(task.run_id, "run");
            assert_eq!(task.info.task_token, TaskToken(vec![1]));
            assert_eq!(task.info.attempt, 1);
            let out = mgr.apply_history_update(
                task,
                Ok(activation("run", vec![job(1), job(2)])),
                0,
                0,
            );
            assert_eq!(
                out,
                NewWfTaskOutcome::IssueActivation(activation("run", vec![job(1), job(2)]))
            );
        }
        other => panic!("unexpected: {:?}", other),
    }
    assert_eq!(mgr.cached_workflows(), 1);
}

#[test]
fn empty_history_for_unknown_run_is_a_cache_miss() {
    let mut mgr = manager(2);
    match mgr.apply_new_poll_resp(poll("run", 1, None)) {
        PollApplication::Apply { update, task, sticky_cache_miss } => {
            assert!(sticky_cache_miss);
            assert_eq!(update.page_token, NextPageToken::FetchFromStart);
            assert!(task.did_miss_cache);
        }
        other => panic!("unexpected: {:?}", other),
    }
}

#[test]
fn full_history_uses_the_page_token_of_the_response() {
    let mut mgr = manager(2);
    let mut work = poll("run", 1, Some(1));
    work.next_page_token = vec![9, 9];
    match mgr.apply_new_poll_resp(work) {
        PollApplication::Apply { update, task, sticky_cache_miss } => {
            assert!(!sticky_cache_miss);
            assert_eq!(update.page_token, NextPageToken::Next(vec![9, 9]));
            // Replay is needed, so queries would have to wait.
            assert!(task.did_miss_cache);
        }
        other => panic!("unexpected: {:?}", other),
    }
    match mgr.apply_new_poll_resp(poll("other", 2, Some(1))) {
        PollApplication::Apply { update, .. } => assert_eq!(update.page_token, NextPageToken::Done),
        other => panic!("unexpected: {:?}", other),
    }
}

#[test]
fn incremental_history_for_cached_run_is_a_hit() {
    let mut mgr = manager(2);
    settle(&mut mgr, "run", 1);
    match mgr.apply_new_poll_resp(poll("run", 2, Some(4))) {
        PollApplication::Apply { update, task, sticky_cache_miss } => {
            assert!(!sticky_cache_miss);
            assert!(!task.did_miss_cache);
            assert_eq!(update.page_token, NextPageToken::Done);
        }
        other => panic!("unexpected: {:?}", other),
    }
}

#[test]
fn queries_join_the_activation_on_a_cache_hit() {
    let mut mgr = manager(2);
    settle(&mut mgr, "run", 1);
    let mut work = poll("run", 2, Some(4));
    work.query_requests = vec![query("q1"), query("q2")];
    let out = apply(&mut mgr, work, vec![job(1)], 5);
    assert_eq!(
        out,
        NewWfTaskOutcome::IssueActivation(activation(
            "run",
            vec![
                job(1),
                ActivationJob::QueryWorkflow(query("q1")),
                ActivationJob::QueryWorkflow(query("q2"))
            ]
        ))
    );
    let task = mgr.get_task(&id("run")).unwrap();
    assert!(task.pending_queries.is_empty());
    assert_eq!(task.start_time, 5);
    assert_eq!(
        mgr.get_activation(&id("run")),
        Some(OutstandingActivation::Normal { contains_eviction: false, num_jobs: 3 })
    );
}

#[test]
fn queries_wait_for_replay_on_a_cache_miss() {
    let mut mgr = manager(2);
    let mut work = poll("run", 1, Some(1));
    work.query_requests = vec![query("q1"), query("q2")];
    let out = apply(&mut mgr, work, vec![job(1)], 0);
    assert_eq!(out, NewWfTaskOutcome::IssueActivation(activation("run", vec![job(1)])));
    assert_eq!(
        mgr.get_task(&id("run")).unwrap().pending_queries,
        vec![query("q1"), query("q2")]
    );
}

#[test]
fn waiting_queries_become_activations_after_the_report() {
    let mut mgr = manager(2);
    let mut work = poll("run", 1, Some(1));
    work.query_requests = vec![query("q1"), query("q2")];
    apply(&mut mgr, work, vec![job(1)], 0);
    mgr.take_wakeups();

    // The task is not completed: its queries are still to be answered.
    assert!(!mgr.after_wft_report(&id("run"), false, false));
    assert!(mgr.get_task(&id("run")).is_some());
    assert!(mgr.get_task(&id("run")).unwrap().pending_queries.is_empty());
    assert!(mgr.get_activation(&id("run")).is_some());
    assert_eq!(
        mgr.take_wakeups(),
        Wakeups { pending_activations_all: true, ..none_woken() }
    );

    let expect = |q: &str| WorkflowActivation {
        run_id: id("run"),
        context: vec![],
        jobs: vec![ActivationJob::QueryWorkflow(query(q))],
    };
    assert_eq!(mgr.next_pending_activation(), PendingActivationStep::Issue(expect("q1")));
    assert_eq!(mgr.next_pending_activation(), PendingActivationStep::Issue(expect("q2")));
    assert_eq!(mgr.next_pending_activation(), PendingActivationStep::Nothing);
}

#[test]
fn both_normal_and_legacy_queries_are_a_fatal_error() {
    let mut mgr = manager(2);
    let mut work = poll("run", 1, Some(1));
    work.query_requests = vec![query("q1")];
    work.legacy_query = Some(WorkflowQuery(vec![1]));
    match apply(&mut mgr, work, vec![job(1)], 0) {
        NewWfTaskOutcome::Evict(e) => {
            assert_eq!(e.run_id, "run");
            assert_eq!(e.source, WFMachinesError::Fatal(id(BOTH_NORMAL_AND_LEGACY_QUERY)));
            assert_eq!(e.evict_reason(), EvictionReason::Fatal);
        }
        other => panic!("unexpected: {:?}", other),
    }
    assert!(mgr.get_task(&id("run")).is_none());
    assert!(mgr.get_activation(&id("run")).is_none());
}

#[test]
fn failure_of_the_machines_evicts() {
    let mut mgr = manager(2);
    match mgr.apply_new_poll_resp(poll("run", 1, Some(1))) {
        PollApplication::Apply { task, .. } => {
            let out = mgr.apply_history_update(
                task,
                Err(WFMachinesError::Nondeterminism(id("diverged"))),
                0,
                0,
            );
            match out {
                NewWfTaskOutcome::Evict(e) => {
                    assert_eq!(e.run_id, "run");
                    assert_eq!(e.source, WFMachinesError::Nondeterminism(id("diverged")));
                    assert_eq!(e.evict_reason(), EvictionReason::Nondeterminism);
                }
                other => panic!("unexpected: {:?}", other),
            }
        }
        other => panic!("unexpected: {:?}", other),
    }
    assert!(!mgr.run_exists(&id("run")));
    assert_eq!(mgr.cached_workflows(), 0);
}

#[test]
fn activation_without_jobs_is_autocompleted() {
    let mut mgr = manager(2);
    let out = apply(&mut mgr, poll("run", 1, Some(1)), vec![], 3);
    assert_eq!(out, NewWfTaskOutcome::Autocomplete);
    assert!(mgr.get_task(&id("run")).is_some());
    assert!(mgr.get_activation(&id("run")).is_none());
}

#[test]
fn activation_without_jobs_waits_for_local_activities() {
    let mut mgr = manager(2);
    match mgr.apply_new_poll_resp(poll("run", 1, Some(1))) {
        PollApplication::Apply { task, .. } => {
            let out = mgr.apply_history_update(task, Ok(activation("run", vec![])), 2, 0);
            assert_eq!(out, NewWfTaskOutcome::LocalActsOutstanding);
        }
        other => panic!("unexpected: {:?}", other),
    }
    assert!(mgr.get_task(&id("run")).is_some());
    assert!(mgr.get_activation(&id("run")).is_none());
}

#[test]
fn legacy_query_on_replayed_run_is_dispatched_at_once() {
    let mut mgr = manager(2);
    settle(&mut mgr, "run", 1);
    let mut work = poll("run", 2, Some(4));
    work.legacy_query = Some(WorkflowQuery(vec![5, 5]));
    let out = apply(&mut mgr, work, vec![], 0);
    let legacy = QueryWorkflow { query_id: id(LEGACY_QUERY_ID), query: vec![5, 5] };
    assert_eq!(
        out,
        NewWfTaskOutcome::IssueActivation(activation(
            "run",
            vec![ActivationJob::QueryWorkflow(legacy)]
        ))
    );
    assert_eq!(mgr.get_activation(&id("run")), Some(OutstandingActivation::LegacyQuery));
    assert!(mgr.get_task(&id("run")).unwrap().pending_queries.is_empty());

    // The host answers the legacy query and nothing else.
    let reply = vec![WFCommand::QueryResponse(answer(LEGACY_QUERY_ID))];
    assert_eq!(
        mgr.successful_activation(&id("run"), reply),
        Ok(ActivationCompletion::Respond(ServerCommandsWithWorkflowInfo {
            task_token: TaskToken(vec![2]),
            action: ActivationAction::RespondLegacyQuery { result: answer(LEGACY_QUERY_ID) },
        }))
    );
}

#[test]
fn legacy_query_waits_when_the_activation_has_jobs() {
    let mut mgr = manager(2);
    let mut work = poll("run", 1, Some(1));
    work.legacy_query = Some(WorkflowQuery(vec![5, 5]));
    let out = apply(&mut mgr, work, vec![job(1)], 0);
    assert_eq!(out, NewWfTaskOutcome::IssueActivation(activation("run", vec![job(1)])));
    let legacy = QueryWorkflow { query_id: id(LEGACY_QUERY_ID), query: vec![5, 5] };
    assert_eq!(mgr.get_task(&id("run")).unwrap().pending_queries, vec![legacy.clone()]);
    assert_eq!(mgr.next_pending_activation(), PendingActivationStep::Nothing);

    // After the report the legacy query is dispatched, ahead of anything pending.
    assert!(!mgr.after_wft_report(&id("run"), false, false));
    match mgr.next_pending_activation() {
        PendingActivationStep::Issue(act) => {
            assert_eq!(act.run_id, "run");
            assert_eq!(act.jobs, vec![ActivationJob::QueryWorkflow(legacy)]);
            assert!(act.is_legacy_query());
        }
        other => panic!("unexpected: {:?}", other),
    }
}

#[test]
fn poll_for_busy_run_is_buffered_and_surfaces_once_after_completion() {
    let mut mgr = manager(2);
    apply(&mut mgr, poll("run", 1, Some(1)), vec![job(1)], 0);
    assert_eq!(mgr.apply_new_poll_resp(poll("run", 2, Some(4))), PollApplication::TaskBuffered);
    assert_eq!(mgr.next_buffered_poll(), None);

    assert!(mgr.after_wft_report(&id("run"), true, false));
    assert_eq!(mgr.next_buffered_poll(), Some(poll("run", 2, Some(4))));
    assert_eq!(mgr.next_buffered_poll(), None);

    // Reporting again does not bring it back.
    mgr.after_wft_report(&id("run"), true, false);
    assert_eq!(mgr.next_buffered_poll(), None);
}

#[test]
fn buffered_poll_stays_buffered_while_activations_are_pending() {
    let mut mgr = manager(2);
    apply(&mut mgr, poll("run", 1, Some(1)), vec![job(1)], 0);
    assert_eq!(mgr.apply_new_poll_resp(poll("run", 2, Some(4))), PollApplication::TaskBuffered);
    mgr.needs_activation(&id("run"));
    assert!(mgr.after_wft_report(&id("run"), true, false));
    assert_eq!(mgr.next_buffered_poll(), None);
    // The run is idle now, with its poll still in the buffer slot.
    assert!(mgr.get_task(&id("run")).is_none());
    assert!(mgr.get_activation(&id("run")).is_none());
}

#[test]
fn cache_full_on_new_run() {
    let mut mgr = manager(1);
    settle(&mut mgr, "A", 1);
    assert_eq!(mgr.add_new_run_to_cache(poll("B", 2, Some(1))), None);
    assert_eq!(
        mgr.take_wakeups(),
        Wakeups { pending_activations_all: true, ..none_woken() }
    );
    assert!(mgr.wait_for_cache_capacity());

    // A is queued for eviction.
    let pending = match mgr.next_pending_activation() {
        PendingActivationStep::Snapshot(info) => info,
        other => panic!("unexpected: {:?}", other),
    };
    assert_eq!(
        pending,
        PendingActInfo {
            run_id: id("A"),
            needs_eviction: Some(RemoveFromCache {
                message: id(CACHE_FULL),
                reason: EvictionReason::CacheFull
            }),
        }
    );
    // B's poll is kept back and surfaces as a buffered poll.
    assert_eq!(mgr.next_buffered_poll(), Some(poll("B", 2, Some(1))));
    assert_eq!(mgr.next_buffered_poll(), None);

    // A's machines have nothing to do: the activation is the eviction alone.
    let issued = match mgr.issue_pending_activation(pending, activation("A", vec![])) {
        PendingActivationOutcome::Issue(act) => act,
        other => panic!("unexpected: {:?}", other),
    };
    assert_eq!(
        issued.jobs,
        vec![ActivationJob::RemoveFromCache(RemoveFromCache {
            message: id(CACHE_FULL),
            reason: EvictionReason::CacheFull
        })]
    );
    assert!(mgr.activation_has_only_eviction(&id("A")));
    assert!(mgr.wait_for_cache_capacity());

    // The host replies; A is evicted.
    assert!(!mgr.after_wft_report(&id("A"), false, false));
    assert!(!mgr.run_exists(&id("A")));
    assert_eq!(mgr.cached_workflows(), 0);
    assert!(!mgr.wait_for_cache_capacity());
    assert_eq!(
        mgr.take_wakeups(),
        Wakeups { pending_activations_all: false, pending_activations_one: true, cache_capacity: true }
    );
}

#[test]
fn add_new_run_with_room_or_already_cached_returns_the_poll() {
    let mut mgr = manager(2);
    settle(&mut mgr, "A", 1);
    assert_eq!(mgr.add_new_run_to_cache(poll("B", 2, Some(1))), Some(poll("B", 2, Some(1))));
    assert_eq!(mgr.add_new_run_to_cache(poll("A", 3, Some(4))), Some(poll("A", 3, Some(4))));
    assert_eq!(mgr.take_wakeups(), none_woken());
    assert_eq!(mgr.next_pending_activation(), PendingActivationStep::Nothing);
    // The cache is full now; a third run evicts the least recently used, B.
    assert_eq!(mgr.add_new_run_to_cache(poll("C", 4, Some(1))), None);
    // B is not tracked, so there is nothing to evict on the host's side.
    assert_eq!(mgr.next_pending_activation(), PendingActivationStep::Nothing);
    assert_eq!(mgr.next_buffered_poll(), Some(poll("C", 4, Some(1))));
}

#[test]
fn add_new_run_buffers_the_poll_of_a_busy_run() {
    let mut mgr = WorkflowTaskManager::new(WorkflowCachingPolicy::NonSticky);
    apply(&mut mgr, poll("A", 1, Some(1)), vec![job(1)], 0);
    assert_eq!(mgr.add_new_run_to_cache(poll("A", 2, Some(4))), None);
    assert_eq!(mgr.next_buffered_poll(), None);
    // Non-sticky: the run itself is to be evicted.
    assert_eq!(
        mgr.request_eviction(&id("A"), id("again"), EvictionReason::CacheFull),
        EvictionRequestResult::EvictionRequested(Some(1))
    );
}

#[test]
fn non_sticky_evicts_after_every_task() {
    let mut mgr = WorkflowTaskManager::new(WorkflowCachingPolicy::NonSticky);
    apply(&mut mgr, poll("A", 1, Some(1)), vec![job(1)], 0);
    assert!(mgr.after_wft_report(&id("A"), true, false));
    match mgr.next_pending_activation() {
        PendingActivationStep::Snapshot(info) => {
            assert_eq!(info.run_id, "A");
            assert_eq!(info.needs_eviction.unwrap().reason, EvictionReason::CacheFull);
        }
        other => panic!("unexpected: {:?}", other),
    }
}

#[test]
fn run_with_outstanding_activation_is_not_activated_again() {
    let mut mgr = manager(2);
    apply(&mut mgr, poll("busy", 1, Some(1)), vec![job(1)], 0);
    settle(&mut mgr, "free", 2);
    mgr.needs_activation(&id("busy"));
    mgr.needs_activation(&id("free"));

    // "busy" is first in the queue but is skipped.
    assert_eq!(
        mgr.next_pending_activation(),
        PendingActivationStep::Snapshot(PendingActInfo { run_id: id("free"), needs_eviction: None })
    );
    assert_eq!(mgr.next_pending_activation(), PendingActivationStep::Nothing);
    assert_eq!(mgr.next_pending_activation(), PendingActivationStep::Nothing);

    // Once the activation has been answered, its turn comes.
    assert!(mgr.after_wft_report(&id("busy"), true, false));
    assert_eq!(mgr.get_activation(&id("busy")), None);
    assert_eq!(
        mgr.next_pending_activation(),
        PendingActivationStep::Snapshot(PendingActInfo { run_id: id("busy"), needs_eviction: None })
    );
}

#[test]
fn pending_activation_is_issued_and_touches_the_cache() {
    let mut mgr = manager(2);
    settle(&mut mgr, "A", 1);
    settle(&mut mgr, "B", 2);
    mgr.needs_activation(&id("A"));
    let info = match mgr.next_pending_activation() {
        PendingActivationStep::Snapshot(info) => info,
        other => panic!("unexpected: {:?}", other),
    };
    assert_eq!(
        mgr.issue_pending_activation(info, activation("A", vec![job(3)])),
        PendingActivationOutcome::Issue(activation("A", vec![job(3)]))
    );
    assert_eq!(
        mgr.get_activation(&id("A")),
        Some(OutstandingActivation::Normal { contains_eviction: false, num_jobs: 1 })
    );
    // A was touched, so B is now the least recently used.
    assert_eq!(mgr.add_new_run_to_cache(poll("C", 3, Some(1))), None);
    match mgr.next_pending_activation() {
        PendingActivationStep::Snapshot(info) => assert_eq!(info.run_id, "B"),
        other => panic!("unexpected: {:?}", other),
    }
}

#[test]
fn pending_activation_without_work_is_dropped() {
    let mut mgr = manager(2);
    settle(&mut mgr, "A", 1);
    mgr.needs_activation(&id("A"));
    let info = match mgr.next_pending_activation() {
        PendingActivationStep::Snapshot(info) => info,
        other => panic!("unexpected: {:?}", other),
    };
    assert_eq!(
        mgr.issue_pending_activation(info, activation("A", vec![])),
        PendingActivationOutcome::Nothing
    );
    assert_eq!(mgr.get_activation(&id("A")), None);
    assert_eq!(mgr.next_pending_activation(), PendingActivationStep::Nothing);
}

#[test]
fn eviction_waits_until_other_pending_work_is_done() {
    let mut mgr = manager(2);
    settle(&mut mgr, "A", 1);
    mgr.request_eviction(&id("A"), id("go"), EvictionReason::LangRequested);
    let info = match mgr.next_pending_activation() {
        PendingActivationStep::Snapshot(info) => info,
        other => panic!("unexpected: {:?}", other),
    };
    // The machines still have a job: the eviction is not part of this activation.
    assert_eq!(
        mgr.issue_pending_activation(info, activation("A", vec![job(1)])),
        PendingActivationOutcome::Issue(activation("A", vec![job(1)]))
    );
    assert!(!mgr.activation_has_eviction(&id("A")));
}

#[test]
fn pending_activation_for_missing_run_is_retried() {
    let mut mgr = manager(2);
    mgr.needs_activation(&id("ghost"));
    settle(&mut mgr, "A", 1);
    mgr.needs_activation(&id("A"));
    assert_eq!(mgr.next_pending_activation(), PendingActivationStep::Retry);
    assert_eq!(
        mgr.next_pending_activation(),
        PendingActivationStep::Snapshot(PendingActInfo { run_id: id("A"), needs_eviction: None })
    );
}

#[test]
fn snapshot_for_untracked_run_requests_eviction_and_retries() {
    let mut mgr = manager(2);
    settle(&mut mgr, "A", 1);
    let info = PendingActInfo { run_id: id("A"), needs_eviction: None };
    assert_eq!(
        mgr.issue_pending_activation(info, activation("elsewhere", vec![job(1)])),
        PendingActivationOutcome::Retry
    );
    match mgr.next_pending_activation() {
        PendingActivationStep::Snapshot(info) => {
            assert_eq!(info.run_id, "A");
            assert_eq!(
                info.needs_eviction,
                Some(RemoveFromCache {
                    message: id(PENDING_ACTIVATION_FOR_MISSING_RUN),
                    reason: EvictionReason::Fatal
                })
            );
        }
        other => panic!("unexpected: {:?}", other),
    }
}

#[test]
fn request_eviction_of_unknown_run_is_not_found() {
    let mut mgr = manager(2);
    assert_eq!(
        mgr.request_eviction(&id("nope"), id("m"), EvictionReason::Fatal),
        EvictionRequestResult::NotFound
    );
    assert_eq!(mgr.take_wakeups(), none_woken());
    assert_eq!(mgr.next_pending_activation(), PendingActivationStep::Nothing);
}

#[test]
fn request_eviction_reports_the_attempt_of_the_current_task() {
    let mut mgr = manager(2);
    let mut work = poll("run", 1, Some(1));
    work.attempt = 4;
    apply(&mut mgr, work, vec![job(1)], 0);
    assert_eq!(
        mgr.request_eviction(&id("run"), id("m"), EvictionReason::Fatal),
        EvictionRequestResult::EvictionRequested(Some(4))
    );
    settle(&mut mgr, "idle", 2);
    assert_eq!(
        mgr.request_eviction(&id("idle"), id("m"), EvictionReason::Fatal),
        EvictionRequestResult::EvictionRequested(None)
    );
}

#[test]
fn request_eviction_twice_leaves_one_notice() {
    let mut mgr = manager(2);
    settle(&mut mgr, "run", 1);
    let first = mgr.request_eviction(&id("run"), id("m"), EvictionReason::LangFail);
    assert_eq!(mgr.take_wakeups(), Wakeups { pending_activations_all: true, ..none_woken() });
    let second = mgr.request_eviction(&id("run"), id("m"), EvictionReason::LangFail);
    assert_eq!(first, EvictionRequestResult::EvictionRequested(None));
    assert_eq!(second, first);
    assert_eq!(
        mgr.next_pending_activation(),
        PendingActivationStep::Snapshot(PendingActInfo {
            run_id: id("run"),
            needs_eviction: Some(RemoveFromCache {
                message: id("m"),
                reason: EvictionReason::LangFail
            }),
        })
    );
    assert_eq!(mgr.next_pending_activation(), PendingActivationStep::Nothing);
}

#[test]
fn request_eviction_after_eviction_was_issued_is_already_requested() {
    let mut mgr = manager(2);
    let mut work = poll("run", 1, Some(1));
    work.attempt = 2;
    apply(&mut mgr, work, vec![job(1)], 0);
    assert!(!mgr.after_wft_report(&id("run"), false, false));
    assert_eq!(
        mgr.request_eviction(&id("run"), id("m"), EvictionReason::LangFail),
        EvictionRequestResult::EvictionRequested(Some(2))
    );
    let info = match mgr.next_pending_activation() {
        PendingActivationStep::Snapshot(info) => info,
        other => panic!("unexpected: {:?}", other),
    };
    assert!(matches!(
        mgr.issue_pending_activation(info, activation("run", vec![])),
        PendingActivationOutcome::Issue(_)
    ));
    mgr.take_wakeups();
    assert_eq!(
        mgr.request_eviction(&id("run"), id("m"), EvictionReason::LangFail),
        EvictionRequestResult::EvictionAlreadyRequested(Some(2))
    );
    assert_eq!(mgr.take_wakeups(), none_woken());
    assert_eq!(mgr.next_pending_activation(), PendingActivationStep::Nothing);
}

#[test]
fn successful_activation_without_task_reports_nothing() {
    let mgr = manager(2);
    assert_eq!(
        mgr.successful_activation(&id("run"), vec![cmd(1)]),
        Ok(ActivationCompletion::NoTask)
    );
}

#[test]
fn successful_activation_sets_query_answers_apart() {
    let mut mgr = manager(2);
    let mut work = poll("run", 9, Some(1));
    work.query_requests = vec![query("q1")];
    apply(&mut mgr, work, vec![job(1)], 77);
    let reply = vec![
        cmd(1),
        WFCommand::QueryResponse(answer("q1")),
        cmd(2),
        WFCommand::QueryResponse(answer("q2")),
        cmd(3),
    ];
    assert_eq!(
        mgr.successful_activation(&id("run"), reply),
        Ok(ActivationCompletion::PushCommands {
            commands: vec![cmd(1), cmd(2), cmd(3)],
            apply_next_task: true,
            completion: PendingCompletion {
                run_id: id("run"),
                task_token: TaskToken(vec![9]),
                query_responses: vec![answer("q1"), answer("q2")],
                has_pending_query: true,
                start_time: 77,
                activation_was_only_eviction: false,
            },
        })
    );
}

#[test]
fn successful_activation_with_no_commands() {
    let mut mgr = manager(2);
    apply(&mut mgr, poll("run", 9, Some(1)), vec![job(1)], 0);
    match mgr.successful_activation(&id("run"), vec![]) {
        Ok(ActivationCompletion::PushCommands { commands, apply_next_task, completion }) => {
            assert!(commands.is_empty());
            assert!(apply_next_task);
            assert!(completion.query_responses.is_empty());
            assert!(!completion.has_pending_query);
        }
        other => panic!("unexpected: {:?}", other),
    }
}

#[test]
fn legacy_query_answer_among_other_commands_is_fatal() {
    let mut mgr = manager(2);
    apply(&mut mgr, poll("run", 9, Some(1)), vec![job(1)], 0);
    let expected = Err(WorkflowUpdateError {
        source: WFMachinesError::Fatal(id(LEGACY_QUERY_WITH_OTHER_COMMANDS)),
        run_id: id("run"),
    });
    let reply = vec![cmd(1), WFCommand::QueryResponse(answer(LEGACY_QUERY_ID))];
    assert_eq!(mgr.successful_activation(&id("run"), reply), expected);
    let reply = vec![
        WFCommand::QueryResponse(answer(LEGACY_QUERY_ID)),
        WFCommand::QueryResponse(answer("q")),
    ];
    assert_eq!(mgr.successful_activation(&id("run"), reply), expected);
}

#[test]
fn single_ordinary_query_answer_is_not_a_legacy_reply() {
    let mut mgr = manager(2);
    apply(&mut mgr, poll("run", 9, Some(1)), vec![job(1)], 0);
    let reply = vec![WFCommand::QueryResponse(answer("q"))];
    match mgr.successful_activation(&id("run"), reply) {
        Ok(ActivationCompletion::PushCommands { commands, completion, .. }) => {
            assert!(commands.is_empty());
            assert_eq!(completion.query_responses, vec![answer("q")]);
        }
        other => panic!("unexpected: {:?}", other),
    }
}

fn completion(run: &str) -> PendingCompletion {
    PendingCompletion {
        run_id: id(run),
        task_token: TaskToken(vec![9]),
        query_responses: vec![],
        has_pending_query: false,
        start_time: 0,
        activation_was_only_eviction: false,
    }
}

#[test]
fn completed_activation_is_sent() {
    let mgr = manager(2);
    let commands = vec![ProtoCommand(vec![1]), ProtoCommand(vec![2])];
    assert_eq!(
        mgr.complete_activation(completion("run"), commands.clone(), false, false),
        Some(ServerCommandsWithWorkflowInfo {
            task_token: TaskToken(vec![9]),
            action: ActivationAction::WftComplete {
                commands,
                query_responses: vec![],
                force_new_wft: false
            },
        })
    );
}

#[test]
fn nothing_is_sent_while_replaying_or_with_pending_activations() {
    let mut mgr = manager(2);
    assert_eq!(
        mgr.complete_activation(completion("run"), vec![ProtoCommand(vec![1])], true, false),
        None
    );
    mgr.needs_activation(&id("run"));
    assert_eq!(
        mgr.complete_activation(completion("run"), vec![ProtoCommand(vec![1])], false, false),
        None
    );
    // Another run's pending activation does not matter.
    assert!(mgr
        .complete_activation(completion("other"), vec![ProtoCommand(vec![1])], false, false)
        .is_some());
}

#[test]
fn nothing_is_sent_during_query_playback() {
    let mgr = manager(2);
    let mut c = completion("run");
    c.has_pending_query = true;
    assert_eq!(mgr.complete_activation(c, vec![ProtoCommand(vec![1])], false, false), None);
}

#[test]
fn query_answers_are_always_sent() {
    let mut mgr = manager(2);
    mgr.needs_activation(&id("run"));
    let mut c = completion("run");
    c.has_pending_query = true;
    c.query_responses = vec![answer("q")];
    c.activation_was_only_eviction = true;
    assert_eq!(
        mgr.complete_activation(c, vec![], true, false),
        Some(ServerCommandsWithWorkflowInfo {
            task_token: TaskToken(vec![9]),
            action: ActivationAction::WftComplete {
                commands: vec![],
                query_responses: vec![answer("q")],
                force_new_wft: false
            },
        })
    );
}

#[test]
fn eviction_only_activation_without_commands_sends_nothing() {
    let mut mgr = manager(2);
    apply(&mut mgr, poll("run", 1, Some(1)), vec![job(1)], 0);
    assert_eq!(mgr.apply_new_poll_resp(poll("run", 2, Some(4))), PollApplication::TaskBuffered);
    assert!(!mgr.after_wft_report(&id("run"), false, false));
    mgr.request_eviction(&id("run"), id("m"), EvictionReason::LangRequested);
    let info = match mgr.next_pending_activation() {
        PendingActivationStep::Snapshot(info) => info,
        other => panic!("unexpected: {:?}", other),
    };
    assert!(matches!(
        mgr.issue_pending_activation(info, activation("run", vec![])),
        PendingActivationOutcome::Issue(_)
    ));

    // The host replies with no commands.
    let completion = match mgr.successful_activation(&id("run"), vec![]) {
        Ok(ActivationCompletion::PushCommands { commands, apply_next_task, completion }) => {
            assert!(commands.is_empty());
            assert!(!apply_next_task);
            assert!(completion.activation_was_only_eviction);
            completion
        }
        other => panic!("unexpected: {:?}", other),
    };
    assert_eq!(mgr.complete_activation(completion, vec![], false, false), None);

    // The run is evicted and its buffered poll promoted.
    assert!(!mgr.after_wft_report(&id("run"), false, false));
    assert!(!mgr.run_exists(&id("run")));
    assert_eq!(mgr.next_buffered_poll(), Some(poll("run", 2, Some(4))));
    assert_eq!(mgr.next_buffered_poll(), None);
}

#[test]
fn eviction_only_activation_with_commands_is_sent() {
    let mgr = manager(2);
    let mut c = completion("run");
    c.activation_was_only_eviction = true;
    assert!(mgr.complete_activation(c, vec![ProtoCommand(vec![1])], false, false).is_some());
}

#[test]
fn wft_heartbeat_on_slow_local_activities() {
    let t0: u128 = 1_000 * SECOND;
    let deadline = wft_heartbeat_deadline(t0, 10 * SECOND).unwrap();
    assert_eq!(deadline, t0 + 8 * SECOND);
    assert_eq!(wait_for_local_acts_or_heartbeat(1, t0, deadline), LocalActsWait::KeepWaiting);
    assert_eq!(
        wait_for_local_acts_or_heartbeat(1, t0 + 8 * SECOND - 1, deadline),
        LocalActsWait::KeepWaiting
    );
    assert_eq!(
        wait_for_local_acts_or_heartbeat(1, t0 + 8 * SECOND, deadline),
        LocalActsWait::MustHeartbeat
    );
    assert_eq!(
        wait_for_local_acts_or_heartbeat(0, t0 + 9 * SECOND, deadline),
        LocalActsWait::AllResolved
    );

    let mgr = manager(2);
    assert_eq!(
        mgr.complete_activation(completion("run"), vec![], false, true),
        Some(ServerCommandsWithWorkflowInfo {
            task_token: TaskToken(vec![9]),
            action: ActivationAction::WftComplete {
                commands: vec![],
                query_responses: vec![],
                force_new_wft: true
            },
        })
    );
}

#[test]
fn heartbeat_deadline_rounds_down() {
    assert_eq!(wft_heartbeat_deadline(0, 0), Some(0));
    assert_eq!(wft_heartbeat_deadline(10, 7), Some(15));
    assert_eq!(wft_heartbeat_deadline(10, 4), Some(13));
}

#[test]
fn heartbeat_deadline_beyond_the_clock_is_none() {
    assert_eq!(wft_heartbeat_deadline(u128::MAX, 5), None);
    assert_eq!(wft_heartbeat_deadline(u128::MAX - 4, 5), Some(u128::MAX));
    assert_eq!(wft_heartbeat_deadline(u128::MAX, 1), Some(u128::MAX));
    assert_eq!(wft_heartbeat_deadline(u128::MAX / 2, u128::MAX), None);
}

#[test]
fn failed_activation_without_task_reports_nothing() {
    let mut mgr = manager(2);
    assert_eq!(
        mgr.failed_activation(&id("run"), EvictionReason::LangFail, id("boom")),
        FailedActivationOutcome::NoReport
    );
    settle(&mut mgr, "idle", 1);
    assert_eq!(
        mgr.failed_activation(&id("idle"), EvictionReason::LangFail, id("boom")),
        FailedActivationOutcome::NoReport
    );
    assert_eq!(mgr.next_pending_activation(), PendingActivationStep::Nothing);
}

#[test]
fn failed_activation_on_first_attempt_is_reported_and_evicts() {
    let mut mgr = manager(2);
    apply(&mut mgr, poll("run", 5, Some(1)), vec![job(1)], 0);
    assert_eq!(
        mgr.failed_activation(&id("run"), EvictionReason::LangFail, id("boom")),
        FailedActivationOutcome::Report(TaskToken(vec![5]))
    );
    assert_eq!(mgr.take_wakeups(), Wakeups { pending_activations_all: true, ..none_woken() });
    // The eviction waits: the failed activation is still outstanding.
    assert_eq!(mgr.next_pending_activation(), PendingActivationStep::Nothing);
    mgr.after_wft_report(&id("run"), true, false);
    assert_eq!(
        mgr.next_pending_activation(),
        PendingActivationStep::Snapshot(PendingActInfo {
            run_id: id("run"),
            needs_eviction: Some(RemoveFromCache {
                message: id("boom"),
                reason: EvictionReason::LangFail
            }),
        })
    );
}

#[test]
fn failed_activation_on_later_attempt_is_not_reported() {
    let mut mgr = manager(2);
    let mut work = poll("run", 5, Some(1));
    work.attempt = 2;
    apply(&mut mgr, work, vec![job(1)], 0);
    assert_eq!(
        mgr.failed_activation(&id("run"), EvictionReason::LangFail, id("boom")),
        FailedActivationOutcome::NoReport
    );
    // The eviction is requested all the same.
    assert_eq!(mgr.take_wakeups(), Wakeups { pending_activations_all: true, ..none_woken() });
}

#[test]
fn failed_activation_on_attempt_zero_is_reported() {
    let mut mgr = manager(2);
    let mut work = poll("run", 5, Some(1));
    work.attempt = 0;
    apply(&mut mgr, work, vec![job(1)], 0);
    assert_eq!(
        mgr.failed_activation(&id("run"), EvictionReason::LangFail, id("boom")),
        FailedActivationOutcome::Report(TaskToken(vec![5]))
    );
}

#[test]
fn failed_legacy_query_is_reported_as_such() {
    let mut mgr = manager(2);
    settle(&mut mgr, "run", 1);
    let mut work = poll("run", 6, Some(4));
    work.legacy_query = Some(WorkflowQuery(vec![1]));
    work.attempt = 3;
    apply(&mut mgr, work, vec![], 0);
    assert_eq!(
        mgr.failed_activation(&id("run"), EvictionReason::LangFail, id("boom")),
        FailedActivationOutcome::ReportLegacyQueryFailure(TaskToken(vec![6]))
    );
    assert_eq!(mgr.take_wakeups(), none_woken());
}

#[test]
fn local_result_for_missing_run_fails() {
    let mut mgr = manager(2);
    assert_eq!(
        mgr.notify_of_local_result(&id("ghost"), Ok(true)),
        Err(WorkflowUpdateError {
            source: WFMachinesError::Fatal(id(MACHINES_MISSING)),
            run_id: id("ghost"),
        })
    );
    assert_eq!(mgr.next_pending_activation(), PendingActivationStep::Nothing);
}

#[test]
fn important_local_result_calls_for_an_activation() {
    let mut mgr = manager(2);
    settle(&mut mgr, "run", 1);
    assert_eq!(mgr.notify_of_local_result(&id("run"), Ok(false)), Ok(()));
    assert_eq!(mgr.take_wakeups(), none_woken());
    assert_eq!(mgr.next_pending_activation(), PendingActivationStep::Nothing);

    assert_eq!(mgr.notify_of_local_result(&id("run"), Ok(true)), Ok(()));
    assert_eq!(mgr.take_wakeups(), Wakeups { pending_activations_all: true, ..none_woken() });
    assert_eq!(
        mgr.next_pending_activation(),
        PendingActivationStep::Snapshot(PendingActInfo { run_id: id("run"), needs_eviction: None })
    );
}

#[test]
fn error_from_local_result_names_the_run() {
    let mut mgr = manager(2);
    settle(&mut mgr, "run", 1);
    assert_eq!(
        mgr.notify_of_local_result(
            &id("run"),
            Err(WFMachinesError::Recoverable(id("gone")))
        ),
        Err(WorkflowUpdateError {
            source: WFMachinesError::Recoverable(id("gone")),
            run_id: id("run"),
        })
    );
}

#[test]
fn update_error_evict_reasons() {
    let err = |source| WorkflowUpdateError { source, run_id: id("r") };
    assert_eq!(
        err(WFMachinesError::Nondeterminism(id("x"))).evict_reason(),
        EvictionReason::Nondeterminism
    );
    assert_eq!(err(WFMachinesError::Fatal(id("x"))).evict_reason(), EvictionReason::Fatal);
    assert_eq!(
        err(WFMachinesError::Recoverable(id("x"))).evict_reason(),
        EvictionReason::Fatal
    );
}

#[test]
fn missing_machines_become_a_fatal_update_error() {
    let e = WorkflowUpdateError::from(WorkflowMissingError { run_id: id("r") });
    assert_eq!(e.run_id, "r");
    assert_eq!(e.source, WFMachinesError::Fatal(id("Workflow machines missing")));
    assert_eq!(e.evict_reason(), EvictionReason::Fatal);
}

#[test]
fn after_report_completes_task_only_when_reported_or_ended() {
    let mut mgr = manager(2);
    apply(&mut mgr, poll("run", 1, Some(1)), vec![job(1)], 0);
    assert!(!mgr.after_wft_report(&id("run"), false, false));
    assert!(mgr.get_task(&id("run")).is_some());
    assert_eq!(mgr.get_activation(&id("run")), None);
    assert!(mgr.after_wft_report(&id("run"), false, true));
    assert!(mgr.get_task(&id("run")).is_none());
    // Nothing is left to complete.
    assert!(!mgr.after_wft_report(&id("run"), true, false));
}

#[test]
fn after_report_wakes_one_waiter() {
    let mut mgr = manager(2);
    apply(&mut mgr, poll("run", 1, Some(1)), vec![job(1)], 0);
    mgr.take_wakeups();
    mgr.after_wft_report(&id("run"), true, false);
    assert_eq!(mgr.take_wakeups(), Wakeups { pending_activations_one: true, ..none_woken() });
    assert_eq!(mgr.take_wakeups(), none_woken());
}

#[test]
fn no_wait_for_capacity_without_pending_evictions() {
    let mut mgr = manager(1);
    settle(&mut mgr, "A", 1);
    // The cache is full but nothing will ever make room: do not wait.
    assert!(!mgr.wait_for_cache_capacity());
    mgr.request_eviction(&id("A"), id("m"), EvictionReason::CacheFull);
    assert!(mgr.wait_for_cache_capacity());
}

#[test]
fn pending_wft_can_be_built_by_hand() {
    let mut mgr = manager(2);
    let task = PendingWft {
        run_id: id("run"),
        info: worker_core::workflow::workflow_tasks::WorkflowTaskInfo {
            task_token: TaskToken(vec![1]),
            attempt: 1,
        },
        did_miss_cache: false,
        query_requests: vec![],
        legacy_query: Some(query(LEGACY_QUERY_ID)),
    };
    let out = mgr.apply_history_update(task, Ok(activation("run", vec![])), 3, 0);
    assert_eq!(
        out,
        NewWfTaskOutcome::IssueActivation(activation(
            "run",
            vec![ActivationJob::QueryWorkflow(query(LEGACY_QUERY_ID))]
        ))
    );
}
