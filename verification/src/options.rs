use std::time::Duration;
use vstd::prelude::*;

use crate::payload::Payload;

verus! {

/// What cancelling a scheduled activity does.
#[derive(Debug, Clone, Copy, PartialEq, Eq, Structural)]
pub enum ActivityCancellationType {
    /// Ask the activity to stop, and resolve as cancelled at once.
    TryCancel,
    /// Ask the activity to stop, and resolve when it has.
    WaitCancellationCompleted,
    /// Resolve as cancelled at once and leave the activity running.
    Abandon,
}

/// What cancelling a child workflow does.
#[derive(Debug, Clone, Copy, PartialEq, Eq, Structural)]
pub enum ChildWorkflowCancellationType {
    /// Resolve as cancelled at once and leave the child running.
    Abandon,
    /// Ask the child to stop, and resolve as cancelled at once.
    TryCancel,
    /// Ask the child to stop, and resolve when it has.
    WaitCancellationCompleted,
    /// Ask the child to stop, and resolve when the request is recorded.
    WaitCancellationRequested,
}

/// What happens to a child workflow when its parent closes.
#[derive(Debug, Clone, Copy, PartialEq, Eq, Structural)]
pub enum ParentClosePolicy {
    /// The server's default.
    Unspecified,
    /// The child is terminated.
    Terminate,
    /// The child keeps running.
    Abandon,
    /// The child is asked to cancel.
    RequestCancel,
}

/// When a failed activity or workflow is tried again.
#[derive(Debug, Clone, PartialEq, Eq)]
pub struct RetryPolicy {
    /// Pause before the first retry.
    pub initial_interval: Option<Duration>,
    /// The factor by which each pause grows, as the bits of an IEEE 754
    /// double (`f64::to_bits`); it is carried through, never computed with.
    pub backoff_coefficient_bits: u64,
    /// Longest pause between retries.
    pub maximum_interval: Option<Duration>,
    /// Most attempts in all; 0 means no limit.
    pub maximum_attempts: i32,
    /// Error types that are never retried.
    pub non_retryable_error_types: Vec<String>,
}

/// Options with which a workflow schedules an activity.
#[derive(Debug, Clone, PartialEq, Eq)]
pub struct ActivityOptions {
    /// Identifier of the activity; the server picks one when absent.
    pub activity_id: Option<String>,
    /// Name under which the activity is registered with the worker; empty
    /// means "use the name of the activity function".
    pub activity_type: String,
    /// The serialized argument of the activity.
    pub input: Payload,
    /// Task queue to schedule on; the workflow's own when absent.
    pub task_queue: Option<String>,
    pub schedule_to_start_timeout: Option<Duration>,
    pub start_to_close_timeout: Option<Duration>,
    pub schedule_to_close_timeout: Option<Duration>,
    pub heartbeat_timeout: Option<Duration>,
    /// What cancelling the activity does.
    pub cancellation_type: ActivityCancellationType,
    /// When the activity is retried; the server's default when absent.
    pub retry_policy: Option<RetryPolicy>,
}

/// Options with which a workflow starts a child workflow.
#[derive(Debug, Clone, PartialEq, Eq)]
pub struct ChildWorkflowOptions {
    /// Identifier of the child workflow.
    pub workflow_id: String,
    /// Name under which the child workflow is registered with the worker;
    /// empty means "use the name of the workflow function".
    pub workflow_type: String,
    /// The serialized arguments of the child workflow.
    pub input: Vec<Payload>,
    /// Task queue to start on; the parent's own when absent.
    pub task_queue: Option<String>,
    pub execution_timeout: Option<Duration>,
    pub run_timeout: Option<Duration>,
    pub task_timeout: Option<Duration>,
    /// What cancelling the child does.
    pub cancel_type: ChildWorkflowCancellationType,
    /// What happens to the child when the parent closes.
    pub parent_close_policy: ParentClosePolicy,
    /// When the child is retried; the server's default when absent.
    pub retry_policy: Option<RetryPolicy>,
    /// Cron schedule the child runs on, if any.
    pub cron_schedule: Option<String>,
}

impl Default for ActivityOptions {
    fn default() -> (o: Self)
        ensures
            o.activity_id is None,
            o.activity_type@.len() == 0,
            o.input@.metadata.len() == 0,
            o.input@.data.len() == 0,
            o.task_queue is None,
            o.schedule_to_start_timeout is None,
            o.start_to_close_timeout is None,
            o.schedule_to_close_timeout is None,
            o.heartbeat_timeout is None,
            o.cancellation_type == ActivityCancellationType::TryCancel,
            o.retry_policy is None,
    {
        ActivityOptions {
            activity_id: None,
            activity_type: String::new(),
            input: Payload::default(),
            task_queue: None,
            schedule_to_start_timeout: None,
            start_to_close_timeout: None,
            schedule_to_close_timeout: None,
            heartbeat_timeout: None,
            cancellation_type: ActivityCancellationType::TryCancel,
            retry_policy: None,
        }
    }
}

impl Default for ChildWorkflowOptions {
    fn default() -> (o: Self)
        ensures
            o.workflow_id@.len() == 0,
            o.workflow_type@.len() == 0,
            o.input@.len() == 0,
            o.task_queue is None,
            o.execution_timeout is None,
            o.run_timeout is None,
            o.task_timeout is None,
            o.cancel_type == ChildWorkflowCancellationType::Abandon,
            o.parent_close_policy == ParentClosePolicy::Unspecified,
            o.retry_policy is None,
            o.cron_schedule is None,
    {
        ChildWorkflowOptions {
            workflow_id: String::new(),
            workflow_type: String::new(),
            input: Vec::new(),
            task_queue: None,
            execution_timeout: None,
            run_timeout: None,
            task_timeout: None,
            cancel_type: ChildWorkflowCancellationType::Abandon,
            parent_close_policy: ParentClosePolicy::Unspecified,
            retry_policy: None,
            cron_schedule: None,
        }
    }
}

} // verus!
