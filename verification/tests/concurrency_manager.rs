use worker_core::protos::{HistoryEvent, QueryWorkflow, TaskToken};
use worker_core::protosext::{History, ValidPollWFTQResponse, WorkflowExecution};
use worker_core::workflow::workflow_tasks::concurrency_manager::WorkflowConcurrencyManager;
use worker_core::workflow::workflow_tasks::{
    OutstandingActivation, OutstandingTask, WorkflowTaskInfo,
};

fn id(s: &str) -> String {
    s.to_string()
}

fn task(token: u8, attempt: u32) -> OutstandingTask {
    OutstandingTask {
        info: WorkflowTaskInfo { task_token: TaskToken(vec![token]), attempt },
        pending_queries: vec![],
        start_time: 100,
    }
}

fn poll(run: &str, token: u8) -> ValidPollWFTQResponse {
    ValidPollWFTQResponse {
        task_token: TaskToken(vec![token]),
        workflow_execution: WorkflowExecution { workflow_id: id("wf"), run_id: id(run) },
        workflow_type: id("type"),
        history: History { events: vec![HistoryEvent { event_id: 1, attributes: vec![] }] },
        next_page_token: vec![],
        attempt: 1,
        previous_started_event_id: 0,
        query_requests: vec![],
        legacy_query: None,
    }
}

const NORMAL: OutstandingActivation =
    OutstandingActivation::Normal { contains_eviction: false, num_jobs: 2 };
const EVICTING: OutstandingActivation =
    OutstandingActivation::Normal { contains_eviction: true, num_jobs: 1 };

#[test]
fn new_manager_tracks_nothing() {
    let m = WorkflowConcurrencyManager::new();
    assert_eq!(m.cached_workflows(), 0);
    assert!(!m.run_exists(&id("a")));
    assert!(m.get_task(&id("a")).is_none());
    assert!(m.get_activation(&id("a")).is_none());
    assert!(!m.are_outstanding_evictions());
}

#[test]
fn create_or_update_tracks_a_run_once() {
    let mut m = WorkflowConcurrencyManager::new();
    assert!(m.create_or_update(&id("a")));
    assert!(!m.create_or_update(&id("a")));
    assert!(m.create_or_update(&id("b")));
    assert_eq!(m.cached_workflows(), 2);
    assert!(m.run_exists(&id("a")));
    assert!(m.get_task(&id("a")).is_none());
    assert!(m.get_activation(&id("a")).is_none());
    assert!(!m.has_buffered_poll(&id("a")));
}

#[test]
fn insert_wft_fails_for_unknown_run() {
    let mut m = WorkflowConcurrencyManager::new();
    let err = m.insert_wft(&id("nope"), task(1, 1)).unwrap_err();
    assert_eq!(err.run_id, "nope");
    assert_eq!(m.cached_workflows(), 0);
}

#[test]
fn insert_then_complete_reported_leaves_no_task() {
    let mut m = WorkflowConcurrencyManager::new();
    m.create_or_update(&id("a"));
    m.insert_wft(&id("a"), task(7, 3)).unwrap();
    assert_eq!(m.get_task(&id("a")), Some(&task(7, 3)));
    assert_eq!(m.complete_wft(&id("a"), true, false), Some(task(7, 3)));
    assert!(m.get_task(&id("a")).is_none());
    // Completing again finds nothing.
    assert_eq!(m.complete_wft(&id("a"), true, false), None);
}

#[test]
fn complete_unreported_keeps_task_unless_run_ended() {
    let mut m = WorkflowConcurrencyManager::new();
    m.create_or_update(&id("a"));
    m.insert_wft(&id("a"), task(7, 1)).unwrap();
    assert_eq!(m.complete_wft(&id("a"), false, false), None);
    assert_eq!(m.get_task(&id("a")), Some(&task(7, 1)));
    assert_eq!(m.complete_wft(&id("a"), false, true), Some(task(7, 1)));
    assert!(m.get_task(&id("a")).is_none());
}

#[test]
fn complete_wft_of_unknown_run_is_none() {
    let mut m = WorkflowConcurrencyManager::new();
    assert_eq!(m.complete_wft(&id("a"), true, true), None);
}

#[test]
fn insert_wft_replaces_previous_task() {
    let mut m = WorkflowConcurrencyManager::new();
    m.create_or_update(&id("a"));
    m.insert_wft(&id("a"), task(1, 1)).unwrap();
    m.insert_wft(&id("a"), task(2, 1)).unwrap();
    assert_eq!(m.get_task(&id("a")), Some(&task(2, 1)));
}

#[test]
fn insert_activation_returns_previous() {
    let mut m = WorkflowConcurrencyManager::new();
    m.create_or_update(&id("a"));
    assert_eq!(m.insert_activation(&id("a"), NORMAL).unwrap(), None);
    assert_eq!(m.get_activation(&id("a")), Some(NORMAL));
    assert_eq!(
        m.insert_activation(&id("a"), OutstandingActivation::LegacyQuery).unwrap(),
        Some(NORMAL)
    );
    assert_eq!(m.get_activation(&id("a")), Some(OutstandingActivation::LegacyQuery));
}

#[test]
fn insert_activation_fails_for_unknown_run() {
    let mut m = WorkflowConcurrencyManager::new();
    let err = m.insert_activation(&id("ghost"), NORMAL).unwrap_err();
    assert_eq!(err.run_id, "ghost");
}

#[test]
fn delete_activation_returns_and_clears() {
    let mut m = WorkflowConcurrencyManager::new();
    m.create_or_update(&id("a"));
    m.insert_activation(&id("a"), NORMAL).unwrap();
    assert_eq!(m.delete_activation(&id("a")), Some(NORMAL));
    assert_eq!(m.get_activation(&id("a")), None);
    assert_eq!(m.delete_activation(&id("a")), None);
    assert_eq!(m.delete_activation(&id("unknown")), None);
}

#[test]
fn outstanding_evictions_are_seen() {
    let mut m = WorkflowConcurrencyManager::new();
    m.create_or_update(&id("a"));
    m.create_or_update(&id("b"));
    m.insert_activation(&id("a"), NORMAL).unwrap();
    assert!(!m.are_outstanding_evictions());
    m.insert_activation(&id("b"), EVICTING).unwrap();
    assert!(m.are_outstanding_evictions());
    m.delete_activation(&id("b"));
    assert!(!m.are_outstanding_evictions());
}

#[test]
fn poll_for_idle_or_unknown_run_is_not_buffered() {
    let mut m = WorkflowConcurrencyManager::new();
    assert_eq!(m.buffer_resp_if_outstanding_work(poll("a", 1)), Some(poll("a", 1)));
    m.create_or_update(&id("a"));
    assert_eq!(m.buffer_resp_if_outstanding_work(poll("a", 1)), Some(poll("a", 1)));
    assert!(!m.has_buffered_poll(&id("a")));
}

#[test]
fn poll_for_run_with_task_is_buffered() {
    let mut m = WorkflowConcurrencyManager::new();
    m.create_or_update(&id("a"));
    m.insert_wft(&id("a"), task(1, 1)).unwrap();
    assert_eq!(m.buffer_resp_if_outstanding_work(poll("a", 2)), None);
    assert!(m.has_buffered_poll(&id("a")));
    assert_eq!(m.take_buffered_poll(&id("a")), Some(poll("a", 2)));
    assert_eq!(m.take_buffered_poll(&id("a")), None);
}

#[test]
fn poll_for_run_with_activation_is_buffered() {
    let mut m = WorkflowConcurrencyManager::new();
    m.create_or_update(&id("a"));
    m.insert_activation(&id("a"), NORMAL).unwrap();
    assert_eq!(m.buffer_resp_if_outstanding_work(poll("a", 2)), None);
    assert!(m.has_buffered_poll(&id("a")));
}

#[test]
fn evict_destroys_run_and_returns_buffered_poll() {
    let mut m = WorkflowConcurrencyManager::new();
    m.create_or_update(&id("a"));
    m.create_or_update(&id("b"));
    m.insert_wft(&id("a"), task(1, 1)).unwrap();
    m.buffer_resp_if_outstanding_work(poll("a", 2));
    assert_eq!(m.evict(&id("a")), Some(poll("a", 2)));
    assert!(!m.run_exists(&id("a")));
    assert!(m.run_exists(&id("b")));
    assert_eq!(m.cached_workflows(), 1);
    assert_eq!(m.evict(&id("a")), None);
    assert_eq!(m.evict(&id("b")), None);
    assert_eq!(m.cached_workflows(), 0);
}

#[test]
fn take_pending_queries_empties_the_task() {
    let mut m = WorkflowConcurrencyManager::new();
    m.create_or_update(&id("a"));
    let q1 = QueryWorkflow { query_id: id("q1"), query: vec![1] };
    let q2 = QueryWorkflow { query_id: id("q2"), query: vec![2] };
    let mut t = task(1, 1);
    t.pending_queries = vec![q1.clone(), q2.clone()];
    m.insert_wft(&id("a"), t).unwrap();
    assert_eq!(m.take_pending_queries(&id("a")), vec![q1, q2]);
    assert_eq!(m.get_task(&id("a")), Some(&task(1, 1)));
    assert!(m.take_pending_queries(&id("a")).is_empty());
    assert!(m.take_pending_queries(&id("unknown")).is_empty());
}
