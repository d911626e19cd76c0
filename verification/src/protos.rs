//! Plain-value forms of the messages exchanged with the service and the
//! language host. Parts of a message that this crate never reads are carried
//! as their encoded bytes.

use vstd::prelude::*;

verus! {

/// Opaque correlator supplied by the server. Equality is byte-wise.
#[derive(Debug, PartialEq, Eq, Hash)]
pub struct TaskToken(pub Vec<u8>);

impl View for TaskToken {
    type V = Seq<u8>;

    open spec fn view(&self) -> Seq<u8> {
        self.0@
    }
}

impl Clone for TaskToken {
    fn clone(&self) -> (r: Self)
        ensures
            r@ == self@,
    {
        TaskToken(self.0.clone())
    }
}

impl TaskToken {
    /// Byte-wise comparison of two tokens.
    pub fn same_as(&self, other: &TaskToken) -> (r: bool)
        ensures
            r == (self@ == other@),
    {
        let r = self.0 == other.0;
        proof {
            if r {
                assert(self.0@ =~= other.0@);
            }
        }
        r
    }
}

/// Why a run is removed from the cache.
#[derive(Copy, Clone, Debug, PartialEq, Eq, Structural)]
pub enum EvictionReason {
    Unspecified,
    CacheFull,
    CacheMiss,
    Nondeterminism,
    LangFail,
    LangRequested,
    TaskNotFound,
    UnhandledCommand,
    Fatal,
}

/// The job that tells the language host to drop its state for a run.
#[derive(Clone, Debug, PartialEq, Eq)]
pub struct RemoveFromCache {
    pub message: String,
    pub reason: EvictionReason,
}

/// A query to be answered by the workflow.
#[derive(Clone, Debug, PartialEq, Eq)]
pub struct QueryWorkflow {
    /// Identifies the query; legacy queries carry [`crate::workflow::LEGACY_QUERY_ID`].
    pub query_id: String,
    /// Query type, arguments and headers, encoded.
    pub query: Vec<u8>,
}

/// One job of an activation.
#[derive(Clone, Debug, PartialEq, Eq)]
pub enum ActivationJob {
    /// Answer a query.
    QueryWorkflow(QueryWorkflow),
    /// Drop the run from the language host's cache.
    RemoveFromCache(RemoveFromCache),
    /// Any other job, encoded.
    Other(Vec<u8>),
}

impl ActivationJob {
    pub open spec fn is_eviction(self) -> bool {
        self is RemoveFromCache
    }

    pub open spec fn is_legacy_query(self) -> bool {
        self matches ActivationJob::QueryWorkflow(q) && q.query_id@
            == crate::workflow::LEGACY_QUERY_ID@
    }
}

/// A unit of work handed to the language host for one run.
#[derive(Clone, Debug, PartialEq, Eq)]
pub struct WorkflowActivation {
    pub run_id: String,
    /// Timestamp, replay flag and history length, encoded.
    pub context: Vec<u8>,
    pub jobs: Vec<ActivationJob>,
}

/// The answer to a query, as produced by the language host.
#[derive(Clone, Debug, PartialEq, Eq)]
pub struct QueryResult {
    pub query_id: String,
    /// Success or failure payload, encoded.
    pub result: Vec<u8>,
}

/// A command for the server, encoded.
#[derive(Clone, Debug, PartialEq, Eq)]
pub struct ProtoCommand(pub Vec<u8>);

/// One event of a workflow history.
#[derive(Clone, Debug, PartialEq, Eq)]
pub struct HistoryEvent {
    pub event_id: i64,
    /// Everything else about the event, encoded.
    pub attributes: Vec<u8>,
}

/// A signed duration as it travels on the wire: whole seconds plus
/// nanoseconds, not necessarily normalized.
#[derive(Copy, Clone, Debug, PartialEq, Eq, Structural)]
pub struct ProtoDuration {
    pub seconds: i64,
    pub nanos: i32,
}

/// Why an activity is being cancelled.
#[derive(Copy, Clone, Debug, PartialEq, Eq, Structural)]
pub enum ActivityCancelReason {
    /// The activity no longer exists on the server.
    NotFound,
    /// Cancellation was requested.
    Cancelled,
    /// The activity timed out.
    TimedOut,
}

/// A response to an activity task poll.
#[derive(Clone, Debug, PartialEq, Eq)]
pub struct PollActivityTaskQueueResponse {
    pub task_token: Vec<u8>,
    /// Name of the activity type; empty if the server sent none.
    pub activity_type: String,
    /// Name of the workflow type; empty if the server sent none.
    pub workflow_type: String,
    pub heartbeat_timeout: Option<ProtoDuration>,
    /// All remaining fields, encoded.
    pub details: Vec<u8>,
}

impl PollActivityTaskQueueResponse {
    /// The response a server sends when a long poll times out with no work:
    /// every field empty or absent.
    pub open spec fn spec_is_default(&self) -> bool {
        &&& self.task_token@.len() == 0
        &&& self.activity_type@.len() == 0
        &&& self.workflow_type@.len() == 0
        &&& self.heartbeat_timeout is None
        &&& self.details@.len() == 0
    }

    pub fn is_default(&self) -> (r: bool)
        ensures
            r == self.spec_is_default(),
    {
        self.task_token.len() == 0 && string_is_empty(&self.activity_type) && string_is_empty(
            &self.workflow_type,
        ) && self.heartbeat_timeout.is_none() && self.details.len() == 0
    }
}

/// Whether a string has no characters.
pub fn string_is_empty(s: &String) -> (r: bool)
    ensures
        r == (s@.len() == 0),
{
    let empty = String::new();
    let r = *s == empty;
    proof {
        if s@.len() == 0 {
            assert(s@ =~= empty@);
        }
    }
    r
}

/// What is handed to the language host for an activity.
#[derive(Clone, Debug, PartialEq, Eq)]
pub enum ActivityTaskVariant {
    /// Start executing the activity described by the poll response.
    Start(PollActivityTaskQueueResponse),
    /// Cancel the activity.
    Cancel { reason: ActivityCancelReason },
}

/// A task for the language host concerning one activity.
#[derive(Clone, Debug, PartialEq, Eq)]
pub struct ActivityTask {
    pub task_token: Vec<u8>,
    pub variant: ActivityTaskVariant,
}

impl ActivityTask {
    /// The task that starts the activity a poll response describes.
    pub fn start_from_poll_resp(work: PollActivityTaskQueueResponse) -> (r: ActivityTask)
        ensures
            r.task_token@ == work.task_token@,
            r.variant == ActivityTaskVariant::Start(work),
    {
        let task_token = work.task_token.clone();
        ActivityTask { task_token, variant: ActivityTaskVariant::Start(work) }
    }

    /// The task that cancels the activity with the given token.
    pub fn cancel_from_ids(task_token: Vec<u8>, reason: ActivityCancelReason) -> (r: ActivityTask)
        ensures
            r.task_token == task_token,
            r.variant == (ActivityTaskVariant::Cancel { reason }),
    {
        ActivityTask { task_token, variant: ActivityTaskVariant::Cancel { reason } }
    }
}

/// What kind of failure a failure is, as far as this crate tells kinds apart.
#[derive(Clone, Debug, PartialEq, Eq)]
pub enum FailureInfo {
    /// The failure is a cancellation, with the details given on cancelling.
    CanceledFailureInfo { details: Option<Vec<u8>> },
    /// Any other kind of failure, encoded.
    Other(Vec<u8>),
}

/// A failure as reported by the language host.
#[derive(Clone, Debug, PartialEq, Eq)]
pub struct Failure {
    pub failure_info: Option<FailureInfo>,
    /// Message, source, stack trace and cause, encoded.
    pub details: Vec<u8>,
}

/// How the execution of an activity ended, as reported by the language host.
#[derive(Clone, Debug, PartialEq, Eq)]
pub enum ActivityExecutionStatus {
    Completed { result: Option<Vec<u8>> },
    Failed { failure: Option<Failure> },
    Cancelled { failure: Option<Failure> },
    /// The activity will be completed by other means.
    WillCompleteAsync,
}

/// A heartbeat of an activity, as recorded by the language host.
#[derive(Clone, Debug, PartialEq, Eq)]
pub struct ActivityHeartbeat {
    pub task_token: Vec<u8>,
    /// The details given with the heartbeat, encoded.
    pub details: Vec<u8>,
}

} // verus!
