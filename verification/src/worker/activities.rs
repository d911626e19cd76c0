//! Bookkeeping for activity tasks: which activities are outstanding, how
//! many more may be started, how often their heartbeats may be sent, and
//! what is reported when they complete.
//!
//! Polling the server, waiting for a free slot and sending reports suspend
//! and are left to the caller; what they yield is handed in as plain values.

use crate::abstractions::{spec_max_permits_limit, MeteredSemaphore};
use crate::durations::{four_fifths, min_duration, nanos_of, spec_four_fifths, spec_nanos_of};
use crate::protos::{
    ActivityCancelReason, ActivityExecutionStatus, ActivityHeartbeat, ActivityTask, Failure,
    FailureInfo, PollActivityTaskQueueResponse, ProtoDuration, TaskToken,
};
use crate::worker::activities::activity_heartbeat_manager::{
    evict_post, flushes, handle_report_completed_post, handle_throttle_completed_post,
    record_post, ActivityHeartbeatManager, HeartbeatExecutorAction, HeartbeatReportOutcome,
    HeartbeatsState, NextPendingCancel,
};
use crate::worker::activities::outside::{
    new_task_map, outstanding_tasks, proto_duration_as_std, proto_duration_to_std, status_code,
    status_code_of,
    task_map_get, task_map_insert, task_map_len, task_map_remove,
};
use dashmap::DashMap;
use vstd::prelude::*;

pub mod activity_heartbeat_manager;
pub mod outside;

verus! {

/// The status code with which the server answers for something it does not
/// know.
pub const NOT_FOUND: i32 = 5;

/// A cancellation that the server asked for in reply to a heartbeat.
#[derive(Debug, PartialEq, Eq)]
pub struct PendingActivityCancel {
    pub task_token: TaskToken,
    pub reason: ActivityCancelReason,
}

impl PendingActivityCancel {
    pub fn new(task_token: TaskToken, reason: ActivityCancelReason) -> (r: Self)
        ensures
            r.task_token == task_token,
            r.reason == reason,
    {
        PendingActivityCancel { task_token, reason }
    }
}

/// The minimal set of details that is stored while an activity is running.
#[derive(Clone, Debug, PartialEq, Eq)]
pub struct InFlightActInfo {
    pub activity_type: String,
    pub workflow_type: String,
    /// When the activity was handed out, in nanoseconds on the worker's clock.
    pub start_time: u128,
}

/// What is stored about an activity that runs on behalf of the server.
#[derive(Clone, Debug, PartialEq, Eq)]
pub struct RemoteInFlightActInfo {
    pub base: InFlightActInfo,
    /// Used to calculate aggregation delay between activity heartbeats.
    pub heartbeat_timeout: Option<ProtoDuration>,
    /// Set to true if a cancellation has already been issued to the language
    /// host for this activity.
    pub issued_cancel_to_lang: bool,
    /// Set to true if the server has already said that this activity does
    /// not exist, in which case the reply to it may simply be discarded.
    pub known_not_found: bool,
}

impl RemoteInFlightActInfo {
    pub fn new(
        activity_type: String,
        workflow_type: String,
        heartbeat_timeout: Option<ProtoDuration>,
        start_time: u128,
    ) -> (r: Self)
        ensures
            r == (RemoteInFlightActInfo {
                base: InFlightActInfo { activity_type, workflow_type, start_time },
                heartbeat_timeout,
                issued_cancel_to_lang: false,
                known_not_found: false,
            }),
    {
        RemoteInFlightActInfo {
            base: InFlightActInfo { activity_type, workflow_type, start_time },
            heartbeat_timeout,
            issued_cancel_to_lang: false,
            known_not_found: false,
        }
    }
}

/// Why polling for an activity task failed.
#[derive(Debug)]
pub enum PollActivityError {
    /// The worker is shutting down: stop polling.
    ShutDown,
    /// The server or the transport failed.
    TonicError(tonic::Status),
}

/// Why completing an activity task failed.
#[derive(Debug)]
pub enum CompleteActivityError {
    /// The server or the transport failed.
    TonicError(tonic::Status),
}

/// Why a heartbeat could not be recorded.
#[derive(Copy, Clone, Debug, PartialEq, Eq, Structural)]
pub enum ActivityHeartbeatError {
    /// The activity is not outstanding.
    UnknownActivity,
    /// The activity's heartbeat timeout is not a duration.
    InvalidHeartbeatTimeout,
}

/// What an activity task poll gave.
#[derive(Debug)]
pub enum ActivityPollOutcome {
    /// The poller has shut down.
    Closed,
    /// The poll failed.
    Failed(tonic::Status),
    /// The server answered.
    Response(PollActivityTaskQueueResponse),
}

/// The call with which the completion of an activity is reported.
#[derive(Debug, PartialEq, Eq)]
pub enum CompletionCall {
    /// Report that the activity completed with this result.
    Complete { result: Option<Vec<u8>> },
    /// Report that the activity failed.
    Fail { failure: Option<Failure> },
    /// Report that the activity was cancelled, with these details.
    Cancel { details: Option<Vec<u8>> },
}

/// What completing an activity task calls for.
#[derive(Debug, PartialEq, Eq)]
pub struct ActivityCompletion {
    /// What was stored about the activity, if it was outstanding.
    pub finished: Option<RemoteInFlightActInfo>,
    /// The heartbeat that was kept for the activity and is to be reported
    /// before anything else, if there was one.
    pub flush: Option<HeartbeatExecutorAction>,
    /// The call to make to the server, if any.
    pub call: Option<CompletionCall>,
}

/// The details given on cancelling, where `failure` is a cancellation.
pub open spec fn canceled_details(failure: Option<Failure>) -> Option<Vec<u8>> {
    match failure {
        Some(Failure { failure_info: Some(FailureInfo::CanceledFailureInfo { details }), .. }) => {
            details
        },
        _ => None,
    }
}

/// The call that reports `status` to the server: none for an activity that
/// completes by other means.
pub open spec fn completion_call(status: ActivityExecutionStatus) -> Option<CompletionCall> {
    match status {
        ActivityExecutionStatus::WillCompleteAsync => None,
        ActivityExecutionStatus::Completed { result } => Some(CompletionCall::Complete { result }),
        ActivityExecutionStatus::Failed { failure } => Some(CompletionCall::Fail { failure }),
        ActivityExecutionStatus::Cancelled { failure } => Some(
            CompletionCall::Cancel { details: canceled_details(failure) },
        ),
    }
}

/// The interval at which heartbeats are sent for an activity whose
/// heartbeat timeout is `heartbeat_timeout` nanoseconds: four fifths of the
/// timeout, or the default where the timeout is zero, and in either case no
/// more than the maximum.
pub open spec fn spec_throttle_interval(
    heartbeat_timeout: nat,
    default_interval: nat,
    max_interval: nat,
) -> nat {
    let interval = if heartbeat_timeout == 0 {
        default_interval
    } else {
        spec_four_fifths(heartbeat_timeout)
    };
    if interval <= max_interval {
        interval
    } else {
        max_interval
    }
}

/// The interval at which heartbeats are sent for an activity with the given
/// heartbeat timeout. All durations are in nanoseconds.
///
/// The server turns a heartbeat timeout that is not set into one of zero,
/// so zero is treated as not set.
pub fn throttle_interval(heartbeat_timeout: u128, default_interval: u128, max_interval: u128) -> (r:
    u128)
    ensures
        r == spec_throttle_interval(
            heartbeat_timeout as nat,
            default_interval as nat,
            max_interval as nat,
        ),
        r <= max_interval,
{
    let interval = if heartbeat_timeout == 0 {
        default_interval
    } else {
        four_fifths(heartbeat_timeout)
    };
    min_duration(interval, max_interval)
}

/// What becomes of an error that the server returned for the report of an
/// activity's completion, given the error's status code: that the server
/// does not know the activity is not an error, since the activity may have
/// been cancelled and completed anyway.
pub fn completion_error(error: tonic::Status, code: i32) -> (r: Result<(), CompleteActivityError>)
    ensures
        code == NOT_FOUND ==> r is Ok,
        code != NOT_FOUND ==> r == Err::<(), CompleteActivityError>(
            CompleteActivityError::TonicError(error),
        ),
{
    if code == NOT_FOUND {
        Ok(())
    } else {
        Err(CompleteActivityError::TonicError(error))
    }
}

/// What becomes of the outcome of reporting an activity's completion to the
/// server: success stays success, and an error is returned unless its status
/// code says that the server does not know the activity.
pub fn reconcile_completion(maybe_net_err: Option<tonic::Status>) -> (r: Result<
    (),
    CompleteActivityError,
>)
    ensures
        maybe_net_err is None ==> r is Ok,
        maybe_net_err matches Some(error) ==> (r is Ok <==> status_code_of(error) == NOT_FOUND),
        maybe_net_err matches Some(error) ==> r is Ok || r == Err::<(), CompleteActivityError>(
            CompleteActivityError::TonicError(error),
        ),
{
    match maybe_net_err {
        None => Ok(()),
        Some(error) => {
            let code = status_code(&error);
            completion_error(error, code)
        },
    }
}

/// The state of the activity bookkeeping, as mathematics.
#[verifier::ext_equal]
pub struct ActivityTasksState {
    /// The activities issued to the language host and not yet completed, by
    /// task token.
    pub outstanding: Map<Seq<u8>, RemoteInFlightActInfo>,
    /// The number of activities that may run at once.
    pub max_permits: usize,
    /// The number of slots that are free.
    pub available_permits: usize,
    /// The number of slots taken for polls that are under way.
    pub held_permits: usize,
    /// A completion has happened that those who wait for completions have
    /// not been told of.
    pub complete_notified: bool,
    /// The state of heartbeat throttling.
    pub heartbeats: HeartbeatsState,
    pub max_heartbeat_throttle_interval: u128,
    pub default_heartbeat_throttle_interval: u128,
}

impl ActivityTasksState {
    /// Every slot is accounted for: it is free, taken for a poll, or taken
    /// by an outstanding activity.
    pub open spec fn slots_balanced(self) -> bool {
        self.available_permits + self.held_permits + self.outstanding.dom().len()
            == self.max_permits
    }

    /// What holds of every state the bookkeeping can be in: there are
    /// finitely many outstanding activities, and no more slots are free or
    /// taken than there are, which are no more than a semaphore can have.
    pub open spec fn valid(self) -> bool {
        &&& self.outstanding.dom().finite()
        &&& self.available_permits + self.held_permits + self.outstanding.dom().len()
            <= self.max_permits
        &&& self.max_permits <= spec_max_permits_limit()
    }
}

/// Tracks the activities that have been issued to the language host.
pub struct WorkerActivityTasks {
    /// Centralizes management of heartbeat issuing and throttling.
    heartbeat_manager: ActivityHeartbeatManager,
    /// Activities that have been issued to the language host but not yet
    /// completed.
    outstanding_activity_tasks: DashMap<Vec<u8>, RemoteInFlightActInfo>,
    /// Ensures the worker stays at or below its maximum of concurrent
    /// activities.
    activities_semaphore: MeteredSemaphore,
    /// Set every time an activity is removed from the outstanding map.
    complete_notified: bool,
    max_heartbeat_throttle_interval: u128,
    default_heartbeat_throttle_interval: u128,
}

impl View for WorkerActivityTasks {
    type V = ActivityTasksState;

    closed spec fn view(&self) -> ActivityTasksState {
        ActivityTasksState {
            outstanding: outstanding_tasks(self.outstanding_activity_tasks),
            max_permits: self.activities_semaphore.spec_max_permits(),
            available_permits: self.activities_semaphore.spec_available_permits(),
            held_permits: self.activities_semaphore.spec_held_permits(),
            complete_notified: self.complete_notified,
            heartbeats: self.heartbeat_manager@,
            max_heartbeat_throttle_interval: self.max_heartbeat_throttle_interval,
            default_heartbeat_throttle_interval: self.default_heartbeat_throttle_interval,
        }
    }
}

/// What [`WorkerActivityTasks::poll`] does and returns.
pub open spec fn poll_post(
    pre: ActivityTasksState,
    post: ActivityTasksState,
    work: ActivityPollOutcome,
    now: u128,
    r: Result<Option<ActivityTask>, PollActivityError>,
) -> bool {
    match work {
        ActivityPollOutcome::Closed => {
            &&& r matches Err(PollActivityError::ShutDown)
            &&& post == (ActivityTasksState {
                available_permits: (pre.available_permits + 1) as usize,
                held_permits: (pre.held_permits - 1) as usize,
                ..pre
            })
        },
        ActivityPollOutcome::Failed(e) => {
            &&& r == Err::<Option<ActivityTask>, PollActivityError>(PollActivityError::TonicError(e))
            &&& post == (ActivityTasksState {
                available_permits: (pre.available_permits + 1) as usize,
                held_permits: (pre.held_permits - 1) as usize,
                ..pre
            })
        },
        ActivityPollOutcome::Response(response) => if response.spec_is_default() {
            &&& r matches Ok(None)
            &&& post == (ActivityTasksState {
                available_permits: (pre.available_permits + 1) as usize,
                held_permits: (pre.held_permits - 1) as usize,
                ..pre
            })
        } else {
            &&& r matches Ok(Some(task))
            &&& task.task_token@ == response.task_token@
            &&& task.variant == crate::protos::ActivityTaskVariant::Start(response)
            &&& post == (ActivityTasksState {
                outstanding: pre.outstanding.insert(
                    response.task_token@,
                    RemoteInFlightActInfo {
                        base: InFlightActInfo {
                            activity_type: response.activity_type,
                            workflow_type: response.workflow_type,
                            start_time: now,
                        },
                        heartbeat_timeout: response.heartbeat_timeout,
                        issued_cancel_to_lang: false,
                        known_not_found: false,
                    },
                ),
                held_permits: (pre.held_permits - 1) as usize,
                ..pre
            })
        },
    }
}

/// What issuing the cancellation `cancel` does to the outstanding
/// activities, and the task it gives: an activity that is outstanding and
/// has not been told to cancel is told so; any other cancellation is dropped.
pub open spec fn cancel_issued(
    pre: Map<Seq<u8>, RemoteInFlightActInfo>,
    post: Map<Seq<u8>, RemoteInFlightActInfo>,
    cancel: PendingActivityCancel,
    task: Option<ActivityTask>,
) -> bool {
    let token = cancel.task_token@;
    if pre.contains_key(token) && !pre[token].issued_cancel_to_lang {
        &&& task matches Some(t)
        &&& t.task_token == cancel.task_token.0
        &&& t.variant == (crate::protos::ActivityTaskVariant::Cancel { reason: cancel.reason })
        &&& post == pre.insert(
            token,
            RemoteInFlightActInfo {
                issued_cancel_to_lang: true,
                known_not_found: pre[token].known_not_found || cancel.reason
                    == ActivityCancelReason::NotFound,
                ..pre[token]
            },
        )
    } else {
        task is None && post == pre
    }
}

/// What [`WorkerActivityTasks::next_pending_cancel_task`] does and returns.
pub open spec fn next_pending_cancel_task_post(
    pre: ActivityTasksState,
    post: ActivityTasksState,
    r: Option<Result<Option<ActivityTask>, PollActivityError>>,
) -> bool {
    if pre.heartbeats.pending_cancels.len() > 0 {
        &&& r matches Some(Ok(task))
        &&& cancel_issued(pre.outstanding, post.outstanding, pre.heartbeats.pending_cancels[0], task)
        &&& post == (ActivityTasksState {
            outstanding: post.outstanding,
            heartbeats: HeartbeatsState {
                pending_cancels: pre.heartbeats.pending_cancels.drop_first(),
                ..pre.heartbeats
            },
            ..pre
        })
    } else {
        &&& post == pre
        &&& if pre.heartbeats.shut_down {
            r matches Some(Err(PollActivityError::ShutDown))
        } else {
            r is None
        }
    }
}

/// What [`WorkerActivityTasks::complete`] does and returns.
pub open spec fn complete_post(
    pre: ActivityTasksState,
    post: ActivityTasksState,
    task_token: TaskToken,
    status: ActivityExecutionStatus,
    r: ActivityCompletion,
) -> bool {
    if pre.outstanding.contains_key(task_token@) {
        &&& r.finished == Some(pre.outstanding[task_token@])
        &&& r.call == (if pre.outstanding[task_token@].known_not_found {
            None
        } else {
            completion_call(status)
        })
        &&& evict_post(pre.heartbeats, post.heartbeats, task_token, r.flush)
        &&& post == (ActivityTasksState {
            outstanding: pre.outstanding.remove(task_token@),
            available_permits: (pre.available_permits + 1) as usize,
            complete_notified: true,
            heartbeats: post.heartbeats,
            ..pre
        })
    } else {
        &&& r.finished is None
        &&& r.flush is None
        &&& r.call is None
        &&& post == pre
    }
}

/// The interval at which the heartbeats of an activity with the wire
/// heartbeat timeout `timeout` are reported, or nothing where the timeout is
/// no duration. A timeout that is not set counts as zero.
pub open spec fn heartbeat_interval_of(
    timeout: Option<ProtoDuration>,
    default_interval: u128,
    max_interval: u128,
) -> Option<nat> {
    let wire = match timeout {
        Some(d) => d,
        None => ProtoDuration { seconds: 0, nanos: 0 },
    };
    match proto_duration_as_std(wire.seconds, wire.nanos) {
        None => None,
        Some(std) => Some(
            spec_throttle_interval(
                spec_nanos_of(std.0, std.1),
                default_interval as nat,
                max_interval as nat,
            ),
        ),
    }
}

/// What [`WorkerActivityTasks::record_heartbeat`] does and returns.
pub open spec fn record_heartbeat_post(
    pre: ActivityTasksState,
    post: ActivityTasksState,
    details: ActivityHeartbeat,
    now: u128,
    r: Result<Option<HeartbeatExecutorAction>, ActivityHeartbeatError>,
) -> bool {
    let token = details.task_token@;
    if !pre.outstanding.contains_key(token) {
        &&& post == pre
        &&& r == Err::<Option<HeartbeatExecutorAction>, ActivityHeartbeatError>(
            ActivityHeartbeatError::UnknownActivity,
        )
    } else {
        match heartbeat_interval_of(
            pre.outstanding[token].heartbeat_timeout,
            pre.default_heartbeat_throttle_interval,
            pre.max_heartbeat_throttle_interval,
        ) {
            None => {
                &&& post == pre
                &&& r == Err::<Option<HeartbeatExecutorAction>, ActivityHeartbeatError>(
                    ActivityHeartbeatError::InvalidHeartbeatTimeout,
                )
            },
            Some(interval) => {
                &&& r matches Ok(action)
                &&& interval <= u128::MAX
                &&& record_post(
                    pre.heartbeats,
                    post.heartbeats,
                    details,
                    interval as u128,
                    now,
                    action,
                )
                &&& post == (ActivityTasksState { heartbeats: post.heartbeats, ..pre })
            },
        }
    }
}

impl WorkerActivityTasks {
    /// The parts of the bookkeeping are each in order, and no more slots
    /// are free or taken than there are.
    pub closed spec fn wf(&self) -> bool {
        &&& self.activities_semaphore.wf()
        &&& self.heartbeat_manager.wf()
        &&& self@.valid()
    }

    /// Bookkeeping that is in order is in a valid state.
    pub proof fn lemma_wf_valid(&self)
        requires
            self.wf(),
        ensures
            self@.valid(),
    {
    }

    /// Bookkeeping for at most `max_activity_tasks` activities at once, of
    /// which there can be no more than a semaphore can have permits.
    pub fn new(
        max_activity_tasks: usize,
        max_heartbeat_throttle_interval: u128,
        default_heartbeat_throttle_interval: u128,
    ) -> (r: Self)
        requires
            max_activity_tasks <= spec_max_permits_limit(),
        ensures
            r.wf(),
            r@ == (ActivityTasksState {
                outstanding: Map::empty(),
                max_permits: max_activity_tasks,
                available_permits: max_activity_tasks,
                held_permits: 0,
                complete_notified: false,
                heartbeats: HeartbeatsState {
                    states: Map::empty(),
                    pending_cancels: Seq::empty(),
                    shut_down: false,
                },
                max_heartbeat_throttle_interval,
                default_heartbeat_throttle_interval,
            }),
            r@.slots_balanced(),
    {
        WorkerActivityTasks {
            heartbeat_manager: ActivityHeartbeatManager::new(),
            outstanding_activity_tasks: new_task_map(),
            activities_semaphore: MeteredSemaphore::new(max_activity_tasks),
            complete_notified: false,
            max_heartbeat_throttle_interval,
            default_heartbeat_throttle_interval,
        }
    }

    /// Whether whoever waits for all outstanding activity tasks to finish
    /// has to go on waiting.
    pub fn wait_all_finished(&self) -> (must_wait: bool)
        requires
            self.wf(),
        ensures
            must_wait == (self@.outstanding.dom().len() > 0),
    {
        task_map_len(&self.outstanding_activity_tasks) > 0
    }

    /// Says whether a completion has happened since this was last asked, so
    /// that those who wait for completions can be woken.
    pub fn take_complete_notification(&mut self) -> (notified: bool)
        requires
            old(self).wf(),
        ensures
            final(self).wf(),
            notified == old(self)@.complete_notified,
            final(self)@ == (ActivityTasksState { complete_notified: false, ..old(self)@ }),
    {
        let notified = self.complete_notified;
        self.complete_notified = false;
        notified
    }

    /// The number of activities that may still be started.
    pub fn remaining_activity_capacity(&self) -> (r: usize)
        requires
            self.wf(),
        ensures
            r == self@.available_permits,
    {
        self.activities_semaphore.available_permits()
    }

    /// The number of activities that are outstanding.
    pub fn outstanding_activities(&self) -> (r: usize)
        requires
            self.wf(),
        ensures
            r == self@.outstanding.dom().len(),
    {
        task_map_len(&self.outstanding_activity_tasks)
    }

    /// Takes a slot for a poll, if one is free, and says whether it did. A
    /// caller that gets none waits for a completion and asks again.
    pub fn acquire_poll_permit(&mut self) -> (acquired: bool)
        requires
            old(self).wf(),
        ensures
            final(self).wf(),
            acquired == (old(self)@.available_permits > 0),
            acquired ==> final(self)@ == (ActivityTasksState {
                available_permits: (old(self)@.available_permits - 1) as usize,
                held_permits: (old(self)@.held_permits + 1) as usize,
                ..old(self)@
            }),
            !acquired ==> final(self)@ == old(self)@,
            old(self)@.slots_balanced() ==> final(self)@.slots_balanced(),
    {
        self.activities_semaphore.try_acquire()
    }

    /// Gives back a slot that was taken for a poll that is not carried
    /// through.
    pub fn release_poll_permit(&mut self)
        requires
            old(self).wf(),
            old(self)@.held_permits > 0,
        ensures
            final(self).wf(),
            final(self)@ == (ActivityTasksState {
                available_permits: (old(self)@.available_permits + 1) as usize,
                held_permits: (old(self)@.held_permits - 1) as usize,
                ..old(self)@
            }),
            old(self)@.slots_balanced() ==> final(self)@.slots_balanced(),
    {
        self.activities_semaphore.release();
    }

    /// Records what a poll for an activity task gave. The poll must have
    /// been made with a slot taken by [`Self::acquire_poll_permit`].
    ///
    /// Real work becomes an outstanding activity and keeps the slot for as
    /// long as it runs. Anything else returns the slot: the empty response
    /// of a poll that timed out, for which the polling loop should be
    /// retried, the end of polling and an error.
    pub fn poll(&mut self, work: ActivityPollOutcome, now: u128) -> (r: Result<
        Option<ActivityTask>,
        PollActivityError,
    >)
        requires
            old(self).wf(),
            old(self)@.held_permits > 0,
        ensures
            final(self).wf(),
            poll_post(old(self)@, final(self)@, work, now, r),
            old(self)@.slots_balanced() && !(work matches ActivityPollOutcome::Response(response)
                && !response.spec_is_default() && old(self)@.outstanding.contains_key(
                response.task_token@,
            )) ==> final(self)@.slots_balanced(),
    {
        match work {
            ActivityPollOutcome::Response(work) => {
                if work.is_default() {
                    // Timeout
                    self.activities_semaphore.release();
                    return Ok(None);
                }
                let ghost before = self@.outstanding;
                let _ = task_map_insert(
                    &mut self.outstanding_activity_tasks,
                    work.task_token.clone(),
                    RemoteInFlightActInfo::new(
                        work.activity_type.clone(),
                        work.workflow_type.clone(),
                        work.heartbeat_timeout,
                        now,
                    ),
                );
                // Only permanently take a permit in the event the poll
                // finished properly.
                self.activities_semaphore.forget();
                proof {
                    assert(self@.outstanding.dom() =~= before.dom().insert(work.task_token@));
                }
                Ok(Some(ActivityTask::start_from_poll_resp(work)))
            },
            ActivityPollOutcome::Closed => {
                self.activities_semaphore.release();
                Err(PollActivityError::ShutDown)
            },
            ActivityPollOutcome::Failed(e) => {
                self.activities_semaphore.release();
                Err(PollActivityError::TonicError(e))
            },
        }
    }

    /// Turns the next cancellation that heartbeating brought to light, if
    /// there is one, into a task for the language host.
    ///
    /// Returns nothing while no cancellation is pending: the caller waits
    /// and asks again. Once the heartbeat manager has shut down and no
    /// cancellation is left, the answer is that the worker is shutting down.
    /// A cancellation for an activity that is no longer outstanding, or that
    /// has been told to cancel before, is dropped.
    pub fn next_pending_cancel_task(&mut self) -> (r: Option<
        Result<Option<ActivityTask>, PollActivityError>,
    >)
        requires
            old(self).wf(),
        ensures
            final(self).wf(),
            next_pending_cancel_task_post(old(self)@, final(self)@, r),
            old(self)@.slots_balanced() ==> final(self)@.slots_balanced(),
    {
        match self.heartbeat_manager.next_pending_cancel() {
            NextPendingCancel::Cancel(PendingActivityCancel { task_token, reason }) => {
                // Issue cancellations for anything that was noticed to be
                // cancelled during heartbeating.
                match task_map_get(&self.outstanding_activity_tasks, &task_token.0) {
                    Some(details) => {
                        if details.issued_cancel_to_lang {
                            // Don't double-issue cancellations
                            return Some(Ok(None));
                        }
                        let ghost before = self@.outstanding;
                        let mut details = details;
                        details.issued_cancel_to_lang = true;
                        if reason == ActivityCancelReason::NotFound {
                            details.known_not_found = true;
                        }
                        let _ = task_map_insert(
                            &mut self.outstanding_activity_tasks,
                            task_token.0.clone(),
                            details,
                        );
                        proof {
                            assert(self@.outstanding.dom() =~= before.dom());
                        }
                        Some(Ok(Some(ActivityTask::cancel_from_ids(task_token.0, reason))))
                    },
                    None => {
                        // It's possible that the activity has been completed
                        // and is no longer outstanding, in which case
                        // issuing a cancel is pointless.
                        Some(Ok(None))
                    },
                }
            },
            NextPendingCancel::Closed => Some(Err(PollActivityError::ShutDown)),
            NextPendingCancel::NoneYet => None,
        }
    }

    /// Completes an activity task: the activity is no longer outstanding,
    /// its slot is free again, and whoever waits for completions is to be
    /// told. Says what is to be reported to the server.
    ///
    /// Nothing is reported for an activity that the server is known not to
    /// know, nor for one that was not outstanding.
    pub fn complete(&mut self, task_token: &TaskToken, status: ActivityExecutionStatus) -> (r:
        ActivityCompletion)
        requires
            old(self).wf(),
        ensures
            final(self).wf(),
            complete_post(old(self)@, final(self)@, *task_token, status, r),
            old(self)@.slots_balanced() ==> final(self)@.slots_balanced(),
    {
        let ghost before = self@.outstanding;
        match task_map_remove(&mut self.outstanding_activity_tasks, &task_token.0) {
            Some(act_info) => {
                proof {
                    assert(self@.outstanding.dom() =~= before.dom().remove(task_token@));
                }
                self.activities_semaphore.add_permit();
                let flush = self.heartbeat_manager.evict(task_token.clone());
                self.complete_notified = true;
                // No need to report activities which the server is already
                // known not to care about.
                let call = if !act_info.known_not_found {
                    match status {
                        ActivityExecutionStatus::WillCompleteAsync => None,
                        ActivityExecutionStatus::Completed { result } => Some(
                            CompletionCall::Complete { result },
                        ),
                        ActivityExecutionStatus::Failed { failure } => Some(
                            CompletionCall::Fail { failure },
                        ),
                        ActivityExecutionStatus::Cancelled { failure } => {
                            let details = match failure {
                                Some(
                                    Failure {
                                        failure_info: Some(
                                            FailureInfo::CanceledFailureInfo { details },
                                        ),
                                        ..
                                    },
                                ) => details,
                                _ => None,
                            };
                            Some(CompletionCall::Cancel { details })
                        },
                    }
                } else {
                    None
                };
                ActivityCompletion { finished: Some(act_info), flush, call }
            },
            None => {
                proof {
                    assert(self@.outstanding =~= before);
                }
                ActivityCompletion { finished: None, flush: None, call: None }
            },
        }
    }

    /// Records a heartbeat of an outstanding activity, and says whether it
    /// is to be reported to the server now.
    ///
    /// Fails if the activity is not outstanding, or if its heartbeat
    /// timeout is negative.
    pub fn record_heartbeat(&mut self, details: ActivityHeartbeat, now: u128) -> (r: Result<
        Option<HeartbeatExecutorAction>,
        ActivityHeartbeatError,
    >)
        requires
            old(self).wf(),
        ensures
            final(self).wf(),
            record_heartbeat_post(old(self)@, final(self)@, details, now, r),
            old(self)@.slots_balanced() ==> final(self)@.slots_balanced(),
    {
        let info = match task_map_get(&self.outstanding_activity_tasks, &details.task_token) {
            Some(info) => info,
            None => {
                return Err(ActivityHeartbeatError::UnknownActivity);
            },
        };
        // None is treated as zero, even though the server never leaves the
        // heartbeat timeout unset.
        let wire = match info.heartbeat_timeout {
            Some(d) => d,
            None => ProtoDuration { seconds: 0, nanos: 0 },
        };
        // The conversion cannot tell how negative the least durations there
        // are would be; negative they are.
        if wire.seconds <= i64::MIN + 2 {
            return Err(ActivityHeartbeatError::InvalidHeartbeatTimeout);
        }
        let heartbeat_timeout = match proto_duration_to_std(wire) {
            Some((secs, subsec_nanos)) => nanos_of(secs, subsec_nanos),
            None => {
                return Err(ActivityHeartbeatError::InvalidHeartbeatTimeout);
            },
        };
        let throttle_interval = throttle_interval(
            heartbeat_timeout,
            self.default_heartbeat_throttle_interval,
            self.max_heartbeat_throttle_interval,
        );
        Ok(self.heartbeat_manager.record(details, throttle_interval, now))
    }

    /// Takes note of the server's answer to the report of a heartbeat, and
    /// says what is to be done next for the activity's heartbeats.
    pub fn heartbeat_report_completed(
        &mut self,
        task_token: TaskToken,
        outcome: HeartbeatReportOutcome,
    ) -> (r: Option<HeartbeatExecutorAction>)
        requires
            old(self).wf(),
        ensures
            final(self).wf(),
            handle_report_completed_post(
                old(self)@.heartbeats,
                final(self)@.heartbeats,
                task_token,
                outcome,
                r,
            ),
            final(self)@ == (ActivityTasksState {
                heartbeats: final(self)@.heartbeats,
                ..old(self)@
            }),
    {
        self.heartbeat_manager.handle_report_completed(task_token, outcome)
    }

    /// Says what is to be done for an activity's heartbeats when a sleep
    /// between reports is over.
    pub fn heartbeat_throttle_completed(&mut self, task_token: TaskToken, now: u128) -> (r: Option<
        HeartbeatExecutorAction,
    >)
        requires
            old(self).wf(),
        ensures
            final(self).wf(),
            handle_throttle_completed_post(
                old(self)@.heartbeats,
                final(self)@.heartbeats,
                task_token,
                now,
                r,
            ),
            final(self)@ == (ActivityTasksState {
                heartbeats: final(self)@.heartbeats,
                ..old(self)@
            }),
    {
        self.heartbeat_manager.handle_throttle_completed(task_token, now)
    }

    /// Shuts heartbeating down: the heartbeats that are kept are to be
    /// reported at once.
    pub fn shutdown(&mut self) -> (r: Vec<HeartbeatExecutorAction>)
        requires
            old(self).wf(),
        ensures
            final(self).wf(),
            flushes(old(self)@.heartbeats.states, r@),
            final(self)@ == (ActivityTasksState {
                heartbeats: HeartbeatsState {
                    states: Map::empty(),
                    pending_cancels: old(self)@.heartbeats.pending_cancels,
                    shut_down: true,
                },
                ..old(self)@
            }),
    {
        self.heartbeat_manager.shutdown()
    }
}

/// With no poll under way and every slot accounted for, the slots that are
/// free and the activities that are outstanding add up to the number of
/// activities that may run at once.
pub proof fn lemma_capacity_and_outstanding(s: ActivityTasksState)
    requires
        s.slots_balanced(),
        s.held_permits == 0,
    ensures
        s.available_permits + s.outstanding.dom().len() == s.max_permits,
{
}

} // verus!
