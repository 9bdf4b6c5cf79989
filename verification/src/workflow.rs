//! The decisions a workflow makes around its commands: which options a
//! command is sent with, and what the resolution of a command means for the
//! workflow. Waiting for the server and (de)serializing values with serde is
//! left to the caller, which hands the resolutions in and acts on what comes out.
use vstd::pervasive::unreached;
use vstd::prelude::*;
use vstd::string::*;

use crate::error::WorkflowError;
use crate::options::{ActivityOptions, ChildWorkflowOptions};
use crate::payload::{json_data, json_payload, lemma_json_payload_roundtrip, Payload, PayloadDecodeError};
use crate::resolution::Success;
use crate::resolution::{
    ActivityResolution, ActivityStatus, ChildWorkflowResult, ChildWorkflowStartStatus,
    ChildWorkflowStatus,
};

verus! {

/// Trait to represent an async function with 2 arguments
pub trait AsyncFn<Arg0, Arg1>: Fn(Arg0, Arg1) -> Self::OutputFuture {
    /// Output type of the async function which implements serde traits
    type Output;

    /// Future of the output
    type OutputFuture: core::future::Future<Output = <Self as AsyncFn<Arg0, Arg1>>::Output> + Send + 'static;
}

impl<F: ?Sized, Fut, Arg0, Arg1> AsyncFn<Arg0, Arg1> for F where
    F: Fn(Arg0, Arg1) -> Fut,
    Fut: core::future::Future + Send + 'static,
 {
    type Output = Fut::Output;

    type OutputFuture = Fut;
}

/// The type name a command is sent under: the one its options request, or
/// the fallback when they request none (an empty name).
pub open spec fn chosen_type(requested: Seq<char>, fallback: Seq<char>) -> Seq<char> {
    if requested.len() == 0 {
        fallback
    } else {
        requested
    }
}

/// What the end of an activity means for the workflow: the result of a
/// completed activity, or the reason it gave none.
pub open spec fn activity_outcome(status: ActivityStatus) -> Result<Payload, WorkflowError> {
    match status {
        ActivityStatus::Completed(success) => Ok(success.result.unwrap()),
        ActivityStatus::Failed(failure) => Err(WorkflowError::ActivityFailed(failure)),
        ActivityStatus::Cancelled(failure) => Err(WorkflowError::ActivityCancelled(failure)),
        ActivityStatus::Backoff(backoff) => Err(WorkflowError::ActivityBackoff(backoff)),
    }
}

/// What the end of a child workflow means for its parent: the result of a
/// completed child, or the reason it gave none.
pub open spec fn child_workflow_outcome(status: Option<ChildWorkflowStatus>) -> Result<Payload, WorkflowError> {
    match status {
        Some(ChildWorkflowStatus::Completed(success)) => Ok(success.result.unwrap()),
        Some(ChildWorkflowStatus::Failed(failure)) => Err(WorkflowError::ChildWorkflowFailed(failure)),
        Some(ChildWorkflowStatus::Cancelled(failure)) => Err(WorkflowError::ChildWorkflowCancelled(failure)),
        None => Err(WorkflowError::UnexpectedChildWorkflowStatus),
    }
}

/// `scheduled` is what scheduling an activity with `options`, the fallback
/// type name `fallback` and the serialized argument `input` gives: the
/// options given, under the chosen type name, carrying `input`.
pub open spec fn is_scheduled_activity(
    scheduled: ActivityOptions,
    options: ActivityOptions,
    fallback: Seq<char>,
    input: Payload,
) -> bool {
    &&& scheduled.activity_type@ == chosen_type(options.activity_type@, fallback)
    &&& options.activity_type@.len() != 0 ==> scheduled.activity_type == options.activity_type
    &&& scheduled.input == input
    &&& scheduled.activity_id == options.activity_id
    &&& scheduled.task_queue == options.task_queue
    &&& scheduled.schedule_to_start_timeout == options.schedule_to_start_timeout
    &&& scheduled.start_to_close_timeout == options.start_to_close_timeout
    &&& scheduled.schedule_to_close_timeout == options.schedule_to_close_timeout
    &&& scheduled.heartbeat_timeout == options.heartbeat_timeout
    &&& scheduled.cancellation_type == options.cancellation_type
    &&& scheduled.retry_policy == options.retry_policy
}

/// `scheduled` is what starting a child workflow with `options`, the
/// fallback type name `fallback` and the serialized argument `input` gives:
/// the options given, under the chosen type name, with `input` as the only
/// argument.
pub open spec fn is_scheduled_child_workflow(
    scheduled: ChildWorkflowOptions,
    options: ChildWorkflowOptions,
    fallback: Seq<char>,
    input: Payload,
) -> bool {
    &&& scheduled.workflow_type@ == chosen_type(options.workflow_type@, fallback)
    &&& options.workflow_type@.len() != 0 ==> scheduled.workflow_type == options.workflow_type
    &&& scheduled.input@ == seq![input]
    &&& scheduled.workflow_id == options.workflow_id
    &&& scheduled.task_queue == options.task_queue
    &&& scheduled.execution_timeout == options.execution_timeout
    &&& scheduled.run_timeout == options.run_timeout
    &&& scheduled.task_timeout == options.task_timeout
    &&& scheduled.cancel_type == options.cancel_type
    &&& scheduled.parent_close_policy == options.parent_close_policy
    &&& scheduled.retry_policy == options.retry_policy
    &&& scheduled.cron_schedule == options.cron_schedule
}

fn choose_type(requested: String, fallback: &str) -> (t: String)
    ensures
        t@ == chosen_type(requested@, fallback@),
        requested@.len() != 0 ==> t == requested,
{
    if requested.as_str().is_empty() {
        String::from_str(fallback)
    } else {
        requested
    }
}

/// The options an activity is scheduled with: those given, under the
/// requested activity type or, when none is requested, under `fallback_type`
/// (the name of the activity function), carrying `input` as its argument.
pub fn schedule_activity(options: ActivityOptions, fallback_type: &str, input: Payload) -> (scheduled: ActivityOptions)
    ensures
        is_scheduled_activity(scheduled, options, fallback_type@, input),
        options.activity_type@.len() == 0 ==> scheduled.activity_type@ == fallback_type@,
        options.activity_type@.len() != 0 ==> scheduled.activity_type == options.activity_type,
        scheduled.input == input,
        scheduled.activity_id == options.activity_id,
        scheduled.task_queue == options.task_queue,
        scheduled.schedule_to_start_timeout == options.schedule_to_start_timeout,
        scheduled.start_to_close_timeout == options.start_to_close_timeout,
        scheduled.schedule_to_close_timeout == options.schedule_to_close_timeout,
        scheduled.heartbeat_timeout == options.heartbeat_timeout,
        scheduled.cancellation_type == options.cancellation_type,
        scheduled.retry_policy == options.retry_policy,
{
    let requested_empty = options.activity_type.as_str().is_empty();
    let activity_type = choose_type(options.activity_type, fallback_type);
    let scheduled = ActivityOptions { activity_type, input, ..options };
    proof {
        if !requested_empty {
            assert(scheduled.activity_type == options.activity_type);
        }
    }
    scheduled
}

/// What an activity's resolution gives the workflow: the serialized result
/// when the activity completed, an error saying why otherwise.
pub fn activity_result(resolution: ActivityResolution) -> (r: Result<Payload, WorkflowError>)
    requires
        resolution.status is Some,
        resolution.status matches Some(ActivityStatus::Completed(success)) ==> success.result is Some,
    ensures
        r == activity_outcome(resolution.status.unwrap()),
        r is Ok <==> resolution.status.unwrap() is Completed,
        resolution.status matches Some(ActivityStatus::Completed(success)) ==> r == Ok::<Payload, WorkflowError>(success.result.unwrap()),
        resolution.status matches Some(ActivityStatus::Failed(f)) ==> r == Err::<Payload, WorkflowError>(WorkflowError::ActivityFailed(f)),
        resolution.status matches Some(ActivityStatus::Cancelled(c)) ==> r == Err::<Payload, WorkflowError>(WorkflowError::ActivityCancelled(c)),
        resolution.status matches Some(ActivityStatus::Backoff(b)) ==> r == Err::<Payload, WorkflowError>(WorkflowError::ActivityBackoff(b)),
{
    match resolution.status {
        Some(ActivityStatus::Completed(success)) => match success.result {
            Some(result) => Ok(result),
            None => unreached(),
        },
        Some(ActivityStatus::Failed(failure)) => Err(WorkflowError::ActivityFailed(failure)),
        Some(ActivityStatus::Cancelled(failure)) => Err(WorkflowError::ActivityCancelled(failure)),
        Some(ActivityStatus::Backoff(backoff)) => Err(WorkflowError::ActivityBackoff(backoff)),
        None => unreached(),
    }
}

/// The options a child workflow is started with: those given, under the
/// requested workflow type or, when none is requested, under `fallback_type`
/// (the name of the workflow function), with `input` as its only argument.
pub fn schedule_child_workflow(options: ChildWorkflowOptions, fallback_type: &str, input: Payload) -> (scheduled: ChildWorkflowOptions)
    ensures
        is_scheduled_child_workflow(scheduled, options, fallback_type@, input),
        options.workflow_type@.len() == 0 ==> scheduled.workflow_type@ == fallback_type@,
        options.workflow_type@.len() != 0 ==> scheduled.workflow_type == options.workflow_type,
        scheduled.input@.len() == 1,
        scheduled.input@[0] == input,
        scheduled.workflow_id == options.workflow_id,
        scheduled.task_queue == options.task_queue,
        scheduled.execution_timeout == options.execution_timeout,
        scheduled.run_timeout == options.run_timeout,
        scheduled.task_timeout == options.task_timeout,
        scheduled.cancel_type == options.cancel_type,
        scheduled.parent_close_policy == options.parent_close_policy,
        scheduled.retry_policy == options.retry_policy,
        scheduled.cron_schedule == options.cron_schedule,
{
    let requested_empty = options.workflow_type.as_str().is_empty();
    let workflow_type = choose_type(options.workflow_type, fallback_type);
    let mut inputs: Vec<Payload> = Vec::new();
    inputs.push(input);
    let scheduled = ChildWorkflowOptions { workflow_type, input: inputs, ..options };
    proof {
        assert(scheduled.input@ =~= seq![input]);
        if !requested_empty {
            assert(scheduled.workflow_type == options.workflow_type);
        }
    }
    scheduled
}

/// The run id of a child workflow that started; none when the start failed
/// or was cancelled.
pub open spec fn started_run_id(status: ChildWorkflowStartStatus) -> Option<String> {
    match status {
        ChildWorkflowStartStatus::Started { run_id } => Some(run_id),
        _ => None,
    }
}

/// The run id of a child workflow that started; none when the start failed
/// or was cancelled.
pub fn child_workflow_run_id(status: ChildWorkflowStartStatus) -> (run_id: Option<String>)
    ensures
        run_id == started_run_id(status),
        status matches ChildWorkflowStartStatus::Started { run_id: id } ==> run_id == Some(id),
        !(status is Started) ==> run_id is None,
{
    match status {
        ChildWorkflowStartStatus::Started { run_id } => Some(run_id),
        _ => None,
    }
}

/// What a child workflow's result gives its parent: the serialized result
/// when the child completed, an error saying why otherwise.
pub fn child_workflow_result(result: ChildWorkflowResult) -> (r: Result<Payload, WorkflowError>)
    requires
        result.status matches Some(ChildWorkflowStatus::Completed(success)) ==> success.result is Some,
    ensures
        r == child_workflow_outcome(result.status),
        r is Ok <==> result.status matches Some(ChildWorkflowStatus::Completed(_)),
        result.status matches Some(ChildWorkflowStatus::Completed(success)) ==> r == Ok::<Payload, WorkflowError>(success.result.unwrap()),
        result.status matches Some(ChildWorkflowStatus::Failed(f)) ==> r == Err::<Payload, WorkflowError>(WorkflowError::ChildWorkflowFailed(f)),
        result.status matches Some(ChildWorkflowStatus::Cancelled(c)) ==> r == Err::<Payload, WorkflowError>(WorkflowError::ChildWorkflowCancelled(c)),
        result.status is None ==> r == Err::<Payload, WorkflowError>(WorkflowError::UnexpectedChildWorkflowStatus),
{
    match result.status {
        Some(ChildWorkflowStatus::Completed(success)) => match success.result {
            Some(payload) => Ok(payload),
            None => unreached(),
        },
        Some(ChildWorkflowStatus::Failed(failure)) => Err(WorkflowError::ChildWorkflowFailed(failure)),
        Some(ChildWorkflowStatus::Cancelled(failure)) => Err(WorkflowError::ChildWorkflowCancelled(failure)),
        None => Err(WorkflowError::UnexpectedChildWorkflowStatus),
    }
}

/// The serialized argument a registered workflow is run with: the data of
/// the first argument the workflow was started with, which must be JSON.
pub fn workflow_argument(args: &Vec<Payload>) -> (r: Result<&Vec<u8>, PayloadDecodeError>)
    requires
        args.len() > 0,
    ensures
        match json_data(args@[0]@) {
            Some(d) => r matches Ok(v) && v@ == d,
            None => r == Err::<&Vec<u8>, PayloadDecodeError>(PayloadDecodeError::DeserializerDoesNotHandle),
        },
{
    args[0].json_data()
}

/// An activity that completes with a JSON result hands the workflow exactly
/// the bytes it serialized: the outcome is that payload, and decoding it
/// reads those bytes back.
pub proof fn lemma_completed_activity_gives_its_result(result: Payload, data: Seq<u8>)
    requires
        result@ == json_payload(data),
    ensures
        activity_outcome(ActivityStatus::Completed(Success { result: Some(result) })) == Ok::<Payload, WorkflowError>(result),
        json_data(result@) == Some(data),
{
    lemma_json_payload_roundtrip(data);
}

/// A child workflow that completes with a JSON result hands its parent
/// exactly the bytes it serialized.
pub proof fn lemma_completed_child_gives_its_result(result: Payload, data: Seq<u8>)
    requires
        result@ == json_payload(data),
    ensures
        child_workflow_outcome(Some(ChildWorkflowStatus::Completed(Success { result: Some(result) })))
            == Ok::<Payload, WorkflowError>(result),
        json_data(result@) == Some(data),
{
    lemma_json_payload_roundtrip(data);
}

/// A workflow started with a JSON argument reads exactly the bytes its
/// starter serialized.
pub proof fn lemma_workflow_reads_its_argument(args: Seq<Payload>, data: Seq<u8>)
    requires
        args.len() > 0,
        args[0]@ == json_payload(data),
    ensures
        json_data(args[0]@) == Some(data),
{
    lemma_json_payload_roundtrip(data);
}

/// Executing an activity is deterministic, as replaying a workflow requires:
/// two executions with equal options, the same activity function (so the
/// same fallback type name) and equal serialized arguments schedule the
/// activity with the same options (the type name by its characters), and
/// equal resolutions give equal results. Resolutions on which execution
/// stops (no status, or a completion without a result) are left out.
pub proof fn lemma_execute_activity_is_deterministic(
    options: ActivityOptions,
    fallback: Seq<char>,
    input: Payload,
    scheduled1: ActivityOptions,
    scheduled2: ActivityOptions,
    status1: ActivityStatus,
    status2: ActivityStatus,
)
    requires
        is_scheduled_activity(scheduled1, options, fallback, input),
        is_scheduled_activity(scheduled2, options, fallback, input),
        status1 == status2,
        status1 matches ActivityStatus::Completed(success) ==> success.result is Some,
    ensures
        scheduled1.activity_type@ == scheduled2.activity_type@,
        scheduled1.input == scheduled2.input,
        scheduled1.activity_id == scheduled2.activity_id,
        scheduled1.task_queue == scheduled2.task_queue,
        scheduled1.schedule_to_start_timeout == scheduled2.schedule_to_start_timeout,
        scheduled1.start_to_close_timeout == scheduled2.start_to_close_timeout,
        scheduled1.schedule_to_close_timeout == scheduled2.schedule_to_close_timeout,
        scheduled1.heartbeat_timeout == scheduled2.heartbeat_timeout,
        scheduled1.cancellation_type == scheduled2.cancellation_type,
        scheduled1.retry_policy == scheduled2.retry_policy,
        activity_outcome(status1) == activity_outcome(status2),
{
}

/// Executing a child workflow is deterministic, as replaying a workflow
/// requires: two executions with equal options, the same workflow function
/// (so the same fallback type name) and equal serialized arguments start the
/// child with the same options (the type name by its characters), equal
/// start statuses give the same run id, and equal results give equal
/// outcomes. A completion without a result, on which execution stops, is
/// left out.
pub proof fn lemma_execute_child_workflow_is_deterministic(
    options: ChildWorkflowOptions,
    fallback: Seq<char>,
    input: Payload,
    scheduled1: ChildWorkflowOptions,
    scheduled2: ChildWorkflowOptions,
    start1: ChildWorkflowStartStatus,
    start2: ChildWorkflowStartStatus,
    status1: Option<ChildWorkflowStatus>,
    status2: Option<ChildWorkflowStatus>,
)
    requires
        is_scheduled_child_workflow(scheduled1, options, fallback, input),
        is_scheduled_child_workflow(scheduled2, options, fallback, input),
        start1 == start2,
        status1 == status2,
        status1 matches Some(ChildWorkflowStatus::Completed(success)) ==> success.result is Some,
    ensures
        scheduled1.workflow_type@ == scheduled2.workflow_type@,
        scheduled1.input@ == scheduled2.input@,
        scheduled1.workflow_id == scheduled2.workflow_id,
        scheduled1.task_queue == scheduled2.task_queue,
        scheduled1.execution_timeout == scheduled2.execution_timeout,
        scheduled1.run_timeout == scheduled2.run_timeout,
        scheduled1.task_timeout == scheduled2.task_timeout,
        scheduled1.cancel_type == scheduled2.cancel_type,
        scheduled1.parent_close_policy == scheduled2.parent_close_policy,
        scheduled1.retry_policy == scheduled2.retry_policy,
        scheduled1.cron_schedule == scheduled2.cron_schedule,
        started_run_id(start1) == started_run_id(start2),
        child_workflow_outcome(status1) == child_workflow_outcome(status2),
{
}

/// The type name a command is sent under is the requested one, character for
/// character, whenever one is requested, and the fallback name, character for
/// character and whatever its length, when none is.
pub proof fn lemma_chosen_type_is_requested_or_fallback(requested: Seq<char>, fallback: Seq<char>)
    ensures
        requested.len() == 0 ==> chosen_type(requested, fallback) == fallback,
        requested.len() != 0 ==> chosen_type(requested, fallback) == requested,
        chosen_type(requested, fallback).len() == (if requested.len() == 0 { fallback.len() } else { requested.len() }),
{
}

/// A scheduled activity is sent with exactly the options given, except that
/// its argument is `input` and, when the options request no type name, its
/// type name is the fallback name: every other option, the cancellation type
/// and retry policy among them, reaches the server unchanged.
pub proof fn lemma_scheduled_activity_sends_options_unchanged(
    scheduled: ActivityOptions,
    options: ActivityOptions,
    fallback: Seq<char>,
    input: Payload,
)
    requires
        is_scheduled_activity(scheduled, options, fallback, input),
    ensures
        options.activity_type@.len() == 0 ==> scheduled.activity_type@ == fallback,
        options.activity_type@.len() != 0 ==> scheduled.activity_type == options.activity_type,
        scheduled.input == input,
        scheduled == (ActivityOptions { activity_type: scheduled.activity_type, input, ..options }),
{
}

/// A started child workflow is started with exactly the options given,
/// except that its only argument is `input` and, when the options request no
/// type name, its type name is the fallback name: every other option, the
/// cancel type and parent close policy among them, reaches the server
/// unchanged.
pub proof fn lemma_scheduled_child_sends_options_unchanged(
    scheduled: ChildWorkflowOptions,
    options: ChildWorkflowOptions,
    fallback: Seq<char>,
    input: Payload,
)
    requires
        is_scheduled_child_workflow(scheduled, options, fallback, input),
    ensures
        options.workflow_type@.len() == 0 ==> scheduled.workflow_type@ == fallback,
        options.workflow_type@.len() != 0 ==> scheduled.workflow_type == options.workflow_type,
        scheduled.input@.len() == 1,
        scheduled.input@[0] == input,
        scheduled == (ChildWorkflowOptions {
            workflow_type: scheduled.workflow_type,
            input: scheduled.input,
            ..options
        }),
{
}

/// A child that started yields exactly the run id it started under, whatever
/// that id is; a child that did not start yields none.
pub proof fn lemma_started_run_id_is_the_child_run_id(status: ChildWorkflowStartStatus)
    ensures
        status matches ChildWorkflowStartStatus::Started { run_id } ==> started_run_id(status) == Some(run_id),
        !(status is Started) ==> started_run_id(status) is None,
        started_run_id(status) is Some <==> status is Started,
{
}

/// An activity's outcome is its own result when it completed, and otherwise
/// an error carrying exactly what the server reported.
pub proof fn lemma_activity_outcome_reports_the_status(status: ActivityStatus)
    ensures
        status matches ActivityStatus::Completed(success) ==> activity_outcome(status) == Ok::<Payload, WorkflowError>(success.result.unwrap()),
        status matches ActivityStatus::Failed(f) ==> activity_outcome(status) == Err::<Payload, WorkflowError>(WorkflowError::ActivityFailed(f)),
        status matches ActivityStatus::Cancelled(c) ==> activity_outcome(status) == Err::<Payload, WorkflowError>(WorkflowError::ActivityCancelled(c)),
        status matches ActivityStatus::Backoff(b) ==> activity_outcome(status) == Err::<Payload, WorkflowError>(WorkflowError::ActivityBackoff(b)),
{
}

/// A child workflow's outcome is its own result when it completed, an error
/// carrying exactly what the server reported when it failed or was
/// cancelled, and `UnexpectedChildWorkflowStatus` when no status came.
pub proof fn lemma_child_outcome_reports_the_status(status: Option<ChildWorkflowStatus>)
    ensures
        status matches Some(ChildWorkflowStatus::Completed(success)) ==> child_workflow_outcome(status) == Ok::<Payload, WorkflowError>(success.result.unwrap()),
        status matches Some(ChildWorkflowStatus::Failed(f)) ==> child_workflow_outcome(status) == Err::<Payload, WorkflowError>(WorkflowError::ChildWorkflowFailed(f)),
        status matches Some(ChildWorkflowStatus::Cancelled(c)) ==> child_workflow_outcome(status) == Err::<Payload, WorkflowError>(WorkflowError::ChildWorkflowCancelled(c)),
        status is None ==> child_workflow_outcome(status) == Err::<Payload, WorkflowError>(WorkflowError::UnexpectedChildWorkflowStatus),
{
}

} // verus!
