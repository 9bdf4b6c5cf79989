use std::time::Duration;
use vstd::prelude::*;

use crate::payload::Payload;

verus! {

/// A point in time: whole seconds since the Unix epoch and nanoseconds past them.
#[derive(Debug, Clone, Copy, PartialEq, Eq, Structural)]
pub struct Timestamp {
    pub seconds: i64,
    pub nanos: i32,
}

/// What kind of failure the server reports, with the details of that kind.
#[derive(Debug, Clone, PartialEq, Eq)]
pub enum FailureInfo {
    /// Raised by application code.
    Application { failure_type: String, non_retryable: bool, details: Vec<Payload> },
    /// A timeout fired; `timeout_type` is the protocol's timeout kind.
    Timeout { timeout_type: i32, last_heartbeat_details: Vec<Payload> },
    /// The work was cancelled.
    Canceled { details: Vec<Payload> },
    /// The work was terminated.
    Terminated,
    /// The server failed.
    Server { non_retryable: bool },
    /// The workflow was reset.
    ResetWorkflow { last_heartbeat_details: Vec<Payload> },
    /// An activity failed.
    Activity {
        scheduled_event_id: i64,
        started_event_id: i64,
        identity: String,
        activity_type: String,
        activity_id: String,
        retry_state: i32,
    },
    /// A child workflow failed.
    ChildWorkflowExecution {
        namespace: String,
        workflow_id: String,
        run_id: String,
        workflow_type: String,
        initiated_event_id: i64,
        started_event_id: i64,
        retry_state: i32,
    },
}

/// Why an activity or a workflow did not complete, as the server reports it.
#[derive(Debug, PartialEq, Eq)]
pub struct Failure {
    pub message: String,
    pub source: String,
    pub stack_trace: String,
    /// Attributes (such as the message and stack trace) in encoded form.
    pub encoded_attributes: Option<Payload>,
    /// The failure that caused this one, if any.
    pub cause: Option<Box<Failure>>,
    /// The kind of failure and its details.
    pub failure_info: Option<FailureInfo>,
}

/// A successful outcome: the serialized result, if one was reported.
#[derive(Debug, Clone, PartialEq, Eq)]
pub struct Success {
    pub result: Option<Payload>,
}

/// An activity that failed.
#[derive(Debug, PartialEq, Eq)]
pub struct ActivityFailure {
    pub failure: Option<Failure>,
}

/// An activity that was cancelled.
#[derive(Debug, PartialEq, Eq)]
pub struct ActivityCancellation {
    pub failure: Option<Failure>,
}

/// The server's request that a local activity be retried after a pause.
#[derive(Debug, Clone, PartialEq, Eq)]
pub struct DoBackoff {
    pub attempt: u32,
    pub backoff_duration: Option<Duration>,
    pub original_schedule_time: Option<Timestamp>,
}

/// How a scheduled activity ended.
#[derive(Debug, PartialEq, Eq)]
pub enum ActivityStatus {
    Completed(Success),
    Failed(ActivityFailure),
    Cancelled(ActivityCancellation),
    Backoff(DoBackoff),
}

/// What the SDK hands back when an activity is resolved.
#[derive(Debug, PartialEq, Eq)]
pub struct ActivityResolution {
    pub status: Option<ActivityStatus>,
}

/// How an attempt to start a child workflow ended.
#[derive(Debug, PartialEq, Eq)]
pub enum ChildWorkflowStartStatus {
    /// The child is running, under this run id.
    Started { run_id: String },
    /// The server refused to start the child.
    Failed { workflow_id: String, workflow_type: String },
    /// The start was cancelled before it happened.
    Cancelled { failure: Option<Failure> },
}

/// A child workflow that failed.
#[derive(Debug, PartialEq, Eq)]
pub struct ChildWorkflowFailure {
    pub failure: Option<Failure>,
}

/// A child workflow that was cancelled.
#[derive(Debug, PartialEq, Eq)]
pub struct ChildWorkflowCancellation {
    pub failure: Option<Failure>,
}

/// How a started child workflow ended.
#[derive(Debug, PartialEq, Eq)]
pub enum ChildWorkflowStatus {
    Completed(Success),
    Failed(ChildWorkflowFailure),
    Cancelled(ChildWorkflowCancellation),
}

/// What the SDK hands back when a child workflow ends.
#[derive(Debug, PartialEq, Eq)]
pub struct ChildWorkflowResult {
    pub status: Option<ChildWorkflowStatus>,
}

} // verus!
