//! Throttling of activity heartbeats.
//!
//! The first heartbeat of an activity is reported to the server at once.
//! While a report is under way, and for the throttle interval after it,
//! further heartbeats of the activity are not reported: the latest of them
//! is kept and reported when the interval is over. What the server answers
//! to a report may call for the activity to be cancelled.
//!
//! The manager decides; reporting and sleeping are the caller's business.
//! Each function returns what the caller is to do next, if anything.

use crate::keyed::{
    by_key, distinct_keys, lemma_by_key_at, lemma_by_key_len, lemma_by_key_push,
    lemma_by_key_remove, lemma_by_key_update,
};
use crate::protos::{ActivityCancelReason, ActivityHeartbeat, TaskToken};
use crate::worker::activities::PendingActivityCancel;
use vstd::prelude::*;

verus! {

/// What is remembered about the heartbeats of one activity.
#[derive(Debug, PartialEq, Eq)]
pub struct ActivityHeartbeatState {
    pub task_token: TaskToken,
    /// The details of the latest heartbeat recorded since the last report
    /// was asked for, if there was one.
    pub last_recorded_details: Option<Vec<u8>>,
    /// When the last report was asked for.
    pub last_send_requested: u128,
    /// The least time between two reports.
    pub throttle_interval: u128,
}

/// What the caller is to do for the heartbeat manager.
#[derive(Debug, PartialEq, Eq)]
pub enum HeartbeatExecutorAction {
    /// Report a heartbeat with these details to the server, then call
    /// [`ActivityHeartbeatManager::handle_report_completed`].
    Report { task_token: TaskToken, details: Vec<u8> },
    /// Sleep for this long, then call
    /// [`ActivityHeartbeatManager::handle_throttle_completed`].
    Sleep { task_token: TaskToken, duration: u128 },
}

/// How the server answered the report of a heartbeat.
#[derive(Copy, Clone, Debug, PartialEq, Eq, Structural)]
pub enum HeartbeatReportOutcome {
    /// The server took the heartbeat, and may ask for the activity to be
    /// cancelled.
    Accepted { cancel_requested: bool },
    /// The server does not know the activity.
    NotFound,
    /// The report failed in another way.
    Failed,
}

/// The next pending cancellation, as far as there is one.
#[derive(Debug, PartialEq, Eq)]
pub enum NextPendingCancel {
    /// This activity is to be cancelled.
    Cancel(PendingActivityCancel),
    /// No cancellation is pending now: wait and ask again.
    NoneYet,
    /// The manager has shut down: there will be no more cancellations.
    Closed,
}

/// The token of the activity that heartbeat state is about.
pub open spec fn token_key() -> spec_fn(ActivityHeartbeatState) -> Seq<u8> {
    |state: ActivityHeartbeatState| state.task_token@
}

/// The cancellation that the answer to a report calls for, if any.
pub open spec fn cancel_reason(outcome: HeartbeatReportOutcome) -> Option<ActivityCancelReason> {
    match outcome {
        HeartbeatReportOutcome::Accepted { cancel_requested: true } => Some(
            ActivityCancelReason::Cancelled,
        ),
        HeartbeatReportOutcome::NotFound => Some(ActivityCancelReason::NotFound),
        _ => None,
    }
}

/// The time that has passed at `now` since `earlier`; none if `now` is not
/// later.
pub open spec fn spec_elapsed(earlier: u128, now: u128) -> nat {
    if now >= earlier {
        (now - earlier) as nat
    } else {
        0
    }
}

/// The state of the heartbeat manager, as mathematics.
#[verifier::ext_equal]
pub struct HeartbeatsState {
    /// What is remembered for each activity whose heartbeats are throttled,
    /// by task token.
    pub states: Map<Seq<u8>, ActivityHeartbeatState>,
    /// The cancellations the server asked for that have not been taken yet,
    /// oldest first.
    pub pending_cancels: Seq<PendingActivityCancel>,
    /// The manager has shut down.
    pub shut_down: bool,
}

/// What [`ActivityHeartbeatManager::record`] does and returns.
pub open spec fn record_post(
    pre: HeartbeatsState,
    post: HeartbeatsState,
    heartbeat: ActivityHeartbeat,
    throttle_interval: u128,
    now: u128,
    r: Option<HeartbeatExecutorAction>,
) -> bool {
    let token = heartbeat.task_token@;
    &&& post.pending_cancels == pre.pending_cancels
    &&& post.shut_down == pre.shut_down
    &&& post.states.dom() == pre.states.dom().insert(token)
    &&& forall|k: Seq<u8>| k != token && pre.states.contains_key(k) ==> #[trigger] post.states[k]
        == pre.states[k]
    &&& post.states[token].task_token@ == token
    &&& if pre.states.contains_key(token) {
        &&& r is None
        &&& post.states[token].task_token == pre.states[token].task_token
        &&& post.states[token].last_recorded_details == Some(heartbeat.details)
        &&& post.states[token].last_send_requested == pre.states[token].last_send_requested
        &&& post.states[token].throttle_interval == pre.states[token].throttle_interval
    } else {
        &&& r matches Some(HeartbeatExecutorAction::Report { task_token, details })
        &&& task_token@ == token
        &&& details == heartbeat.details
        &&& post.states[token].last_recorded_details is None
        &&& post.states[token].last_send_requested == now
        &&& post.states[token].throttle_interval == throttle_interval
    }
}

/// What [`ActivityHeartbeatManager::handle_report_completed`] does and
/// returns.
pub open spec fn handle_report_completed_post(
    pre: HeartbeatsState,
    post: HeartbeatsState,
    task_token: TaskToken,
    outcome: HeartbeatReportOutcome,
    r: Option<HeartbeatExecutorAction>,
) -> bool {
    &&& post.states == pre.states
    &&& post.shut_down == pre.shut_down
    &&& match cancel_reason(outcome) {
        Some(reason) => {
            &&& post.pending_cancels.len() == pre.pending_cancels.len() + 1
            &&& post.pending_cancels.drop_last() == pre.pending_cancels
            &&& post.pending_cancels.last().task_token@ == task_token@
            &&& post.pending_cancels.last().reason == reason
        },
        None => post.pending_cancels == pre.pending_cancels,
    }
    &&& if pre.states.contains_key(task_token@) {
        &&& r matches Some(HeartbeatExecutorAction::Sleep { task_token: token, duration })
        &&& token@ == task_token@
        &&& duration == pre.states[task_token@].throttle_interval
    } else {
        r is None
    }
}

/// What [`ActivityHeartbeatManager::handle_throttle_completed`] does and
/// returns.
pub open spec fn handle_throttle_completed_post(
    pre: HeartbeatsState,
    post: HeartbeatsState,
    task_token: TaskToken,
    now: u128,
    r: Option<HeartbeatExecutorAction>,
) -> bool {
    let token = task_token@;
    &&& post.pending_cancels == pre.pending_cancels
    &&& post.shut_down == pre.shut_down
    &&& if !pre.states.contains_key(token) {
        r is None && post.states == pre.states
    } else {
        let state = pre.states[token];
        let elapsed = spec_elapsed(state.last_send_requested, now);
        if elapsed < state.throttle_interval {
            &&& post.states == pre.states
            &&& r matches Some(HeartbeatExecutorAction::Sleep { task_token: t, duration })
            &&& t@ == token
            &&& duration == state.throttle_interval - elapsed
        } else {
            match state.last_recorded_details {
                Some(recorded) => {
                    &&& r matches Some(HeartbeatExecutorAction::Report { task_token: t, details })
                    &&& t@ == token
                    &&& details == recorded
                    &&& post.states == pre.states.insert(
                        token,
                        ActivityHeartbeatState {
                            last_recorded_details: None,
                            last_send_requested: now,
                            ..state
                        },
                    )
                },
                None => r is None && post.states == pre.states.remove(token),
            }
        }
    }
}

/// What [`ActivityHeartbeatManager::evict`] does and returns.
pub open spec fn evict_post(
    pre: HeartbeatsState,
    post: HeartbeatsState,
    task_token: TaskToken,
    r: Option<HeartbeatExecutorAction>,
) -> bool {
    let token = task_token@;
    &&& post == (HeartbeatsState { states: pre.states.remove(token), ..pre })
    &&& if pre.states.contains_key(token) && pre.states[token].last_recorded_details is Some {
        &&& r matches Some(HeartbeatExecutorAction::Report { task_token: t, details })
        &&& t@ == token
        &&& details == pre.states[token].last_recorded_details.unwrap()
    } else {
        r is None
    }
}

/// The token of the activity an action is about.
pub open spec fn reported_token(action: HeartbeatExecutorAction) -> Seq<u8> {
    match action {
        HeartbeatExecutorAction::Report { task_token, .. } => task_token@,
        HeartbeatExecutorAction::Sleep { task_token, .. } => task_token@,
    }
}

/// The details that an action reports, if it is a report.
pub open spec fn reported_details(action: HeartbeatExecutorAction) -> Option<Vec<u8>> {
    match action {
        HeartbeatExecutorAction::Report { details, .. } => Some(details),
        HeartbeatExecutorAction::Sleep { .. } => None,
    }
}

/// `reports` reports, once each, the heartbeats that are kept in `states`.
pub open spec fn flushes(
    states: Map<Seq<u8>, ActivityHeartbeatState>,
    reports: Seq<HeartbeatExecutorAction>,
) -> bool {
    &&& forall|i: int|
        0 <= i < reports.len() ==> {
            &&& (#[trigger] reports[i]) is Report
            &&& states.contains_key(reported_token(reports[i]))
            &&& states[reported_token(reports[i])].last_recorded_details == reported_details(
                reports[i],
            )
        }
    &&& forall|i: int, j: int|
        0 <= i < j < reports.len() ==> reported_token(#[trigger] reports[i]) != reported_token(
            #[trigger] reports[j],
        )
    &&& forall|k: Seq<u8>|
        states.contains_key(k) && (#[trigger] states[k]).last_recorded_details is Some
            ==> exists|i: int| 0 <= i < reports.len() && reported_token(#[trigger] reports[i]) == k
}

/// Decides when the heartbeats of activities are reported to the server.
pub struct ActivityHeartbeatManager {
    states: Vec<ActivityHeartbeatState>,
    pending_cancels: Vec<PendingActivityCancel>,
    shut_down: bool,
}

impl View for ActivityHeartbeatManager {
    type V = HeartbeatsState;

    closed spec fn view(&self) -> HeartbeatsState {
        HeartbeatsState {
            states: by_key(self.states@, token_key()),
            pending_cancels: self.pending_cancels@,
            shut_down: self.shut_down,
        }
    }
}

impl ActivityHeartbeatManager {
    /// No activity has two states.
    pub closed spec fn wf(&self) -> bool {
        distinct_keys(self.states@, token_key())
    }

    /// Every state is filed under the token of its activity, and there are
    /// finitely many.
    pub proof fn lemma_wf_valid(&self)
        requires
            self.wf(),
        ensures
            self@.states.dom().finite(),
            forall|k: Seq<u8>|
                self@.states.contains_key(k) ==> (#[trigger] self@.states[k]).task_token@ == k,
    {
        lemma_by_key_len(self.states@, token_key());
        crate::keyed::lemma_by_key_keys(self.states@, token_key());
    }

    pub fn new() -> (r: Self)
        ensures
            r.wf(),
            r@ == (HeartbeatsState {
                states: Map::empty(),
                pending_cancels: Seq::empty(),
                shut_down: false,
            }),
    {
        let r = ActivityHeartbeatManager {
            states: Vec::new(),
            pending_cancels: Vec::new(),
            shut_down: false,
        };
        proof {
            assert(r@.states =~= Map::<Seq<u8>, ActivityHeartbeatState>::empty());
        }
        r
    }

    fn find(&self, task_token: &TaskToken) -> (r: Option<usize>)
        requires
            self.wf(),
        ensures
            r matches Some(i) ==> i < self.states@.len() && self.states@[i as int].task_token@
                == task_token@ && self@.states.contains_key(task_token@)
                && self@.states[task_token@] == self.states@[i as int],
            r is None ==> !self@.states.contains_key(task_token@),
    {
        let mut i: usize = 0;
        while i < self.states.len()
            invariant
                i <= self.states.len(),
                self.wf(),
                forall|j: int| 0 <= j < i ==> (#[trigger] self.states@[j]).task_token@ != task_token@,
            decreases self.states.len() - i,
        {
            if self.states[i].task_token.same_as(task_token) {
                proof {
                    lemma_by_key_at(self.states@, token_key(), i as int);
                }
                return Some(i);
            }
            i += 1;
        }
        None
    }

    /// Records a heartbeat of an activity.
    ///
    /// The first heartbeat of an activity is to be reported at once, and
    /// sets the interval at which the activity's heartbeats are reported.
    /// A heartbeat of an activity that has state is kept, in place of any
    /// that was kept before, and nothing is to be done.
    pub fn record(&mut self, heartbeat: ActivityHeartbeat, throttle_interval: u128, now: u128) -> (r:
        Option<HeartbeatExecutorAction>)
        requires
            old(self).wf(),
        ensures
            final(self).wf(),
            record_post(old(self)@, final(self)@, heartbeat, throttle_interval, now, r),
    {
        let ActivityHeartbeat { task_token, details } = heartbeat;
        let token = TaskToken(task_token);
        match self.find(&token) {
            Some(i) => {
                proof {
                    lemma_by_key_update(
                        self.states@,
                        token_key(),
                        i as int,
                        ActivityHeartbeatState {
                            last_recorded_details: Some(details),
                            ..self.states@[i as int]
                        },
                    );
                }
                self.states[i].last_recorded_details = Some(details);
                proof {
                    assert(self@.states.dom() =~= old(self)@.states.dom().insert(token@));
                }
                None
            },
            None => {
                let state = ActivityHeartbeatState {
                    task_token: token.clone(),
                    last_recorded_details: None,
                    last_send_requested: now,
                    throttle_interval,
                };
                proof {
                    lemma_by_key_push(self.states@, token_key(), state);
                }
                self.states.push(state);
                Some(HeartbeatExecutorAction::Report { task_token: token, details })
            },
        }
    }

    /// Takes note of the server's answer to the report of a heartbeat.
    ///
    /// If the answer asks for the activity to be cancelled, or says that the
    /// server does not know the activity, a cancellation becomes pending. If
    /// the activity still has state, the caller is to sleep for the
    /// activity's throttle interval.
    pub fn handle_report_completed(
        &mut self,
        task_token: TaskToken,
        outcome: HeartbeatReportOutcome,
    ) -> (r: Option<HeartbeatExecutorAction>)
        requires
            old(self).wf(),
        ensures
            final(self).wf(),
            handle_report_completed_post(old(self)@, final(self)@, task_token, outcome, r),
    {
        let reason = match outcome {
            HeartbeatReportOutcome::Accepted { cancel_requested } => {
                if cancel_requested {
                    Some(ActivityCancelReason::Cancelled)
                } else {
                    None
                }
            },
            HeartbeatReportOutcome::NotFound => Some(ActivityCancelReason::NotFound),
            HeartbeatReportOutcome::Failed => None,
        };
        if let Some(reason) = reason {
            let ghost before = self.pending_cancels@;
            self.pending_cancels.push(PendingActivityCancel::new(task_token.clone(), reason));
            proof {
                assert(self.pending_cancels@.drop_last() =~= before);
            }
        }
        match self.find(&task_token) {
            Some(i) => {
                let duration = self.states[i].throttle_interval;
                Some(HeartbeatExecutorAction::Sleep { task_token, duration })
            },
            None => None,
        }
    }

    /// Decides what to do when a sleep is over.
    ///
    /// If less than the throttle interval has passed since the last report
    /// was asked for, the caller is to sleep for the rest of it. Otherwise
    /// the heartbeat that was kept meanwhile is to be reported; if none was
    /// kept, the activity's state is forgotten and its next heartbeat will
    /// be reported at once.
    pub fn handle_throttle_completed(&mut self, task_token: TaskToken, now: u128) -> (r: Option<
        HeartbeatExecutorAction,
    >)
        requires
            old(self).wf(),
        ensures
            final(self).wf(),
            handle_throttle_completed_post(old(self)@, final(self)@, task_token, now, r),
    {
        match self.find(&task_token) {
            Some(i) => {
                let last_send_requested = self.states[i].last_send_requested;
                let elapsed = if now >= last_send_requested {
                    now - last_send_requested
                } else {
                    0
                };
                let throttle_interval = self.states[i].throttle_interval;
                if elapsed < throttle_interval {
                    return Some(
                        HeartbeatExecutorAction::Sleep {
                            task_token,
                            duration: throttle_interval - elapsed,
                        },
                    );
                }
                let ghost state = self.states@[i as int];
                match self.states[i].last_recorded_details.take() {
                    Some(details) => {
                        proof {
                            lemma_by_key_update(
                                old(self).states@,
                                token_key(),
                                i as int,
                                ActivityHeartbeatState {
                                    last_recorded_details: None,
                                    last_send_requested: now,
                                    ..state
                                },
                            );
                        }
                        self.states[i].last_send_requested = now;
                        proof {
                            assert(self.states@ =~= old(self).states@.update(
                                i as int,
                                ActivityHeartbeatState {
                                    last_recorded_details: None,
                                    last_send_requested: now,
                                    ..state
                                },
                            ));
                        }
                        Some(HeartbeatExecutorAction::Report { task_token, details })
                    },
                    None => {
                        proof {
                            assert(self.states@ =~= old(self).states@);
                            lemma_by_key_remove(self.states@, token_key(), i as int);
                        }
                        let _ = self.states.remove(i);
                        None
                    },
                }
            },
            None => None,
        }
    }

    /// Forgets an activity, which has completed. A heartbeat that was kept
    /// for it is to be reported at once.
    pub fn evict(&mut self, task_token: TaskToken) -> (r: Option<HeartbeatExecutorAction>)
        requires
            old(self).wf(),
        ensures
            final(self).wf(),
            evict_post(old(self)@, final(self)@, task_token, r),
    {
        match self.find(&task_token) {
            Some(i) => {
                proof {
                    lemma_by_key_remove(self.states@, token_key(), i as int);
                }
                let state = self.states.remove(i);
                match state.last_recorded_details {
                    Some(details) => Some(HeartbeatExecutorAction::Report { task_token, details }),
                    None => None,
                }
            },
            None => {
                proof {
                    assert(self@.states =~= old(self)@.states.remove(task_token@));
                }
                None
            },
        }
    }

    /// Takes the oldest pending cancellation.
    pub fn next_pending_cancel(&mut self) -> (r: NextPendingCancel)
        requires
            old(self).wf(),
        ensures
            final(self).wf(),
            old(self)@.pending_cancels.len() > 0 ==> r == NextPendingCancel::Cancel(
                old(self)@.pending_cancels[0],
            ) && final(self)@ == (HeartbeatsState {
                pending_cancels: old(self)@.pending_cancels.drop_first(),
                ..old(self)@
            }),
            old(self)@.pending_cancels.len() == 0 ==> final(self)@ == old(self)@ && r == (
            if old(self)@.shut_down {
                NextPendingCancel::Closed
            } else {
                NextPendingCancel::NoneYet
            }),
    {
        if self.pending_cancels.len() > 0 {
            let ghost before = self.pending_cancels@;
            let next = self.pending_cancels.remove(0);
            proof {
                assert(self.pending_cancels@ =~= before.drop_first());
            }
            NextPendingCancel::Cancel(next)
        } else if self.shut_down {
            NextPendingCancel::Closed
        } else {
            NextPendingCancel::NoneYet
        }
    }

    /// Shuts the manager down: every heartbeat that is kept is to be
    /// reported at once, and all state is forgotten.
    pub fn shutdown(&mut self) -> (r: Vec<HeartbeatExecutorAction>)
        requires
            old(self).wf(),
        ensures
            final(self).wf(),
            flushes(old(self)@.states, r@),
            final(self)@ == (HeartbeatsState {
                states: Map::empty(),
                pending_cancels: old(self)@.pending_cancels,
                shut_down: true,
            }),
    {
        let ghost all = self.states@;
        let mut reports: Vec<HeartbeatExecutorAction> = Vec::new();
        let ghost mut k: int = 0;
        proof {
            assert(self.states@ =~= all.skip(0));
        }
        while self.states.len() > 0
            invariant
                0 <= k <= all.len(),
                distinct_keys(all, token_key()),
                self.states@ == all.skip(k),
                self.pending_cancels == old(self).pending_cancels,
                flushed(all, k, reports@),
            decreases self.states.len(),
        {
            let state = self.states.remove(0);
            proof {
                assert(state == all[k]);
                assert(self.states@ =~= all.skip(k + 1));
            }
            let ghost before = reports@;
            let ActivityHeartbeatState { task_token, last_recorded_details, .. } = state;
            if let Some(details) = last_recorded_details {
                reports.push(HeartbeatExecutorAction::Report { task_token, details });
                proof {
                    assert(reports@.drop_last() =~= before);
                }
            }
            proof {
                lemma_flushed_next(all, k, before, reports@);
                k = k + 1;
            }
        }
        self.shut_down = true;
        proof {
            assert(self.states@ =~= Seq::<ActivityHeartbeatState>::empty());
            assert(self@.states =~= Map::<Seq<u8>, ActivityHeartbeatState>::empty());
            lemma_flushed_all(all, reports@);
        }
        reports
    }
}

/// `reports` reports, once each, the heartbeats that are kept in the first
/// `k` states of `all`.
pub open spec fn flushed(
    all: Seq<ActivityHeartbeatState>,
    k: int,
    reports: Seq<HeartbeatExecutorAction>,
) -> bool {
    &&& forall|i: int|
        0 <= i < reports.len() ==> (#[trigger] reports[i]) is Report && exists|j: int|
            0 <= j < k && (#[trigger] all[j]).task_token@ == reported_token(reports[i])
                && all[j].last_recorded_details == reported_details(reports[i])
    &&& forall|i: int, j: int|
        0 <= i < j < reports.len() ==> reported_token(#[trigger] reports[i]) != reported_token(
            #[trigger] reports[j],
        )
    &&& forall|j: int|
        0 <= j < k && (#[trigger] all[j]).last_recorded_details is Some ==> exists|i: int|
            0 <= i < reports.len() && reported_token(#[trigger] reports[i]) == all[j].task_token@
}

/// Going on to the next state keeps what has been flushed in step: the
/// heartbeat that the state keeps is reported, and nothing else is.
proof fn lemma_flushed_next(
    all: Seq<ActivityHeartbeatState>,
    k: int,
    before: Seq<HeartbeatExecutorAction>,
    after: Seq<HeartbeatExecutorAction>,
)
    requires
        0 <= k < all.len(),
        distinct_keys(all, token_key()),
        flushed(all, k, before),
        match all[k].last_recorded_details {
            Some(details) => after.len() == before.len() + 1 && after.drop_last() == before
                && after.last() is Report && reported_token(after.last()) == all[k].task_token@
                && reported_details(after.last()) == Some(details),
            None => after == before,
        },
    ensures
        flushed(all, k + 1, after),
{
    let n = before.len() as int;
    assert forall|i: int| 0 <= i < n implies after[i] == before[i] by {
        if all[k].last_recorded_details is Some {
            assert(after.drop_last()[i] == after[i]);
        }
    }
    assert forall|i: int| 0 <= i < after.len() implies (#[trigger] after[i]) is Report
        && exists|j: int|
        0 <= j < k + 1 && (#[trigger] all[j]).task_token@ == reported_token(after[i])
            && all[j].last_recorded_details == reported_details(after[i]) by {
        if i < n {
            let j = choose|j: int|
                0 <= j < k && (#[trigger] all[j]).task_token@ == reported_token(before[i])
                    && all[j].last_recorded_details == reported_details(before[i]);
            assert(all[j].task_token@ == reported_token(after[i]));
        } else {
            assert(all[k].task_token@ == reported_token(after[i]));
        }
    }
    assert forall|i: int, j: int| 0 <= i < j < after.len() implies reported_token(
        #[trigger] after[i],
    ) != reported_token(#[trigger] after[j]) by {
        if j == n {
            let w = choose|w: int|
                0 <= w < k && (#[trigger] all[w]).task_token@ == reported_token(before[i])
                    && all[w].last_recorded_details == reported_details(before[i]);
            assert(token_key()(all[w]) != token_key()(all[k]));
        }
    }
    assert forall|j: int|
        0 <= j < k + 1 && (#[trigger] all[j]).last_recorded_details is Some implies exists|i: int|
        0 <= i < after.len() && reported_token(#[trigger] after[i]) == all[j].task_token@ by {
        if j < k {
            let i = choose|i: int|
                0 <= i < before.len() && reported_token(#[trigger] before[i])
                    == all[j].task_token@;
            assert(reported_token(after[i]) == all[j].task_token@);
        } else {
            assert(reported_token(after[n]) == all[j].task_token@);
        }
    }
}

/// What has been flushed from all states of a list flushes the map of them.
proof fn lemma_flushed_all(all: Seq<ActivityHeartbeatState>, reports: Seq<HeartbeatExecutorAction>)
    requires
        distinct_keys(all, token_key()),
        flushed(all, all.len() as int, reports),
    ensures
        flushes(by_key(all, token_key()), reports),
{
    let states = by_key(all, token_key());
    assert forall|i: int| 0 <= i < reports.len() implies {
        &&& (#[trigger] reports[i]) is Report
        &&& states.contains_key(reported_token(reports[i]))
        &&& states[reported_token(reports[i])].last_recorded_details == reported_details(
            reports[i],
        )
    } by {
        let j = choose|j: int|
            0 <= j < all.len() && (#[trigger] all[j]).task_token@ == reported_token(reports[i])
                && all[j].last_recorded_details == reported_details(reports[i]);
        lemma_by_key_at(all, token_key(), j);
    }
    assert forall|key: Seq<u8>|
        states.contains_key(key) && (#[trigger] states[key]).last_recorded_details
            is Some implies exists|i: int|
        0 <= i < reports.len() && reported_token(#[trigger] reports[i]) == key by {
        let j = choose|j: int| 0 <= j < all.len() && token_key()(#[trigger] all[j]) == key;
        lemma_by_key_at(all, token_key(), j);
    }
}

/// Heartbeats of an activity are reported no more often than its throttle
/// interval allows: a heartbeat that is recorded while the activity has
/// state is not reported, and when a sleep is over, a report is asked for
/// only if the interval has passed since the last one was.
pub proof fn lemma_one_report_per_interval(
    pre: HeartbeatsState,
    post: HeartbeatsState,
    task_token: TaskToken,
    now: u128,
    r: Option<HeartbeatExecutorAction>,
)
    requires
        handle_throttle_completed_post(pre, post, task_token, now, r),
        r matches Some(HeartbeatExecutorAction::Report { .. }),
    ensures
        pre.states.contains_key(task_token@),
        spec_elapsed(pre.states[task_token@].last_send_requested, now)
            >= pre.states[task_token@].throttle_interval,
        post.states[task_token@].last_send_requested == now,
{
}

} // verus!
