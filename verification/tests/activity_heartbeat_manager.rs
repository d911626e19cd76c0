use worker_core::protos::{ActivityCancelReason, ActivityHeartbeat, TaskToken};
use worker_core::worker::activities::activity_heartbeat_manager::{
    ActivityHeartbeatManager, HeartbeatExecutorAction, HeartbeatReportOutcome, NextPendingCancel,
};
use worker_core::worker::activities::PendingActivityCancel;

fn token(n: u8) -> TaskToken {
    TaskToken(vec![n])
}

fn heartbeat(n: u8, details: u8) -> ActivityHeartbeat {
    ActivityHeartbeat { task_token: vec![n], details: vec![details] }
}

fn report(n: u8, details: u8) -> Option<HeartbeatExecutorAction> {
    Some(HeartbeatExecutorAction::Report { task_token: token(n), details: vec![details] })
}

fn sleep(n: u8, duration: u128) -> Option<HeartbeatExecutorAction> {
    Some(HeartbeatExecutorAction::Sleep { task_token: token(n), duration })
}

const ACCEPTED: HeartbeatReportOutcome = HeartbeatReportOutcome::Accepted { cancel_requested: false };
const CANCEL: HeartbeatReportOutcome = HeartbeatReportOutcome::Accepted { cancel_requested: true };

#[test]
fn first_heartbeat_of_each_activity_is_reported() {
    let mut m = ActivityHeartbeatManager::new();
    assert_eq!(m.record(heartbeat(1, 10), 100, 0), report(1, 10));
    assert_eq!(m.record(heartbeat(2, 20), 100, 0), report(2, 20));
    assert_eq!(m.record(heartbeat(1, 11), 100, 1), None);
    assert_eq!(m.record(heartbeat(2, 21), 100, 1), None);
}

#[test]
fn report_is_followed_by_a_sleep_of_the_throttle_interval() {
    let mut m = ActivityHeartbeatManager::new();
    m.record(heartbeat(1, 10), 250, 0);
    assert_eq!(m.handle_report_completed(token(1), ACCEPTED), sleep(1, 250));
    // The interval was set by the first heartbeat and stays.
    m.record(heartbeat(1, 11), 999, 5);
    assert_eq!(m.handle_report_completed(token(1), ACCEPTED), sleep(1, 250));
}

#[test]
fn latest_heartbeat_is_reported_after_the_interval() {
    let mut m = ActivityHeartbeatManager::new();
    m.record(heartbeat(1, 10), 100, 1_000);
    m.record(heartbeat(1, 11), 100, 1_010);
    m.record(heartbeat(1, 12), 100, 1_020);
    assert_eq!(m.handle_throttle_completed(token(1), 1_100), report(1, 12));
    // The next interval counts from this report.
    m.record(heartbeat(1, 13), 100, 1_150);
    assert_eq!(m.handle_throttle_completed(token(1), 1_199), sleep(1, 1));
    assert_eq!(m.handle_throttle_completed(token(1), 1_200), report(1, 13));
}

#[test]
fn at_most_one_report_per_interval() {
    let mut m = ActivityHeartbeatManager::new();
    let mut reports = vec![];
    let mut now: u128 = 0;
    if m.record(heartbeat(1, 0), 100, now).is_some() {
        reports.push(now);
    }
    for step in 1..1000u128 {
        now = step * 7;
        if let Some(HeartbeatExecutorAction::Report { .. }) = m.record(heartbeat(1, 1), 100, now) {
            reports.push(now);
        }
        if let Some(HeartbeatExecutorAction::Report { .. }) =
            m.handle_throttle_completed(token(1), now)
        {
            reports.push(now);
        }
    }
    assert!(reports.len() > 10);
    for pair in reports.windows(2) {
        assert!(pair[1] - pair[0] >= 100);
    }
}

#[test]
fn state_is_forgotten_after_a_quiet_interval() {
    let mut m = ActivityHeartbeatManager::new();
    m.record(heartbeat(1, 10), 100, 0);
    assert_eq!(m.handle_throttle_completed(token(1), 100), None);
    assert_eq!(m.handle_report_completed(token(1), ACCEPTED), None);
    assert_eq!(m.record(heartbeat(1, 11), 100, 101), report(1, 11));
}

#[test]
fn zero_interval_reports_every_kept_heartbeat() {
    let mut m = ActivityHeartbeatManager::new();
    m.record(heartbeat(1, 10), 0, 50);
    m.record(heartbeat(1, 11), 0, 50);
    assert_eq!(m.handle_throttle_completed(token(1), 50), report(1, 11));
    m.record(heartbeat(1, 12), 0, 50);
    // Even a clock that went backwards does not hold it up.
    assert_eq!(m.handle_throttle_completed(token(1), 40), report(1, 12));
}

#[test]
fn cancel_requests_become_pending_in_order() {
    let mut m = ActivityHeartbeatManager::new();
    assert_eq!(m.next_pending_cancel(), NextPendingCancel::NoneYet);
    m.record(heartbeat(1, 10), 100, 0);
    m.handle_report_completed(token(1), CANCEL);
    m.handle_report_completed(token(2), HeartbeatReportOutcome::NotFound);
    m.handle_report_completed(token(3), ACCEPTED);
    m.handle_report_completed(token(4), HeartbeatReportOutcome::Failed);
    assert_eq!(
        m.next_pending_cancel(),
        NextPendingCancel::Cancel(PendingActivityCancel::new(
            token(1),
            ActivityCancelReason::Cancelled
        ))
    );
    assert_eq!(
        m.next_pending_cancel(),
        NextPendingCancel::Cancel(PendingActivityCancel::new(
            token(2),
            ActivityCancelReason::NotFound
        ))
    );
    assert_eq!(m.next_pending_cancel(), NextPendingCancel::NoneYet);
}

#[test]
fn evict_flushes_what_was_kept() {
    let mut m = ActivityHeartbeatManager::new();
    m.record(heartbeat(1, 10), 100, 0);
    assert_eq!(m.evict(token(1)), None);
    assert_eq!(m.evict(token(1)), None);
    m.record(heartbeat(2, 20), 100, 0);
    m.record(heartbeat(2, 21), 100, 1);
    assert_eq!(m.evict(token(2)), report(2, 21));
    assert_eq!(m.handle_throttle_completed(token(2), 1_000), None);
    // The activity is new to the manager again.
    assert_eq!(m.record(heartbeat(2, 22), 100, 2), report(2, 22));
}

#[test]
fn shutdown_flushes_and_closes() {
    let mut m = ActivityHeartbeatManager::new();
    m.record(heartbeat(1, 10), 100, 0);
    m.record(heartbeat(2, 20), 100, 0);
    m.record(heartbeat(2, 21), 100, 1);
    m.handle_report_completed(token(1), CANCEL);
    assert_eq!(m.shutdown(), vec![report(2, 21).unwrap()]);
    assert!(matches!(m.next_pending_cancel(), NextPendingCancel::Cancel(_)));
    assert_eq!(m.next_pending_cancel(), NextPendingCancel::Closed);
    assert_eq!(m.handle_throttle_completed(token(1), 1_000), None);
}
