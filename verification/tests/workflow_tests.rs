use std::time::Duration;

use temporal_sdk::error::WorkflowError;
use temporal_sdk::options::{
    ActivityCancellationType, ActivityOptions, ChildWorkflowCancellationType, ChildWorkflowOptions,
    ParentClosePolicy, RetryPolicy,
};
use temporal_sdk::payload::{Payload, PayloadDecodeError};
use temporal_sdk::resolution::{
    ActivityCancellation, ActivityFailure, ActivityResolution, ActivityStatus,
    ChildWorkflowCancellation, ChildWorkflowFailure, ChildWorkflowResult,
    ChildWorkflowStartStatus, ChildWorkflowStatus, DoBackoff, Failure, FailureInfo, Success,
    Timestamp,
};
use temporal_sdk::workflow::{
    activity_result, child_workflow_result, child_workflow_run_id, schedule_activity,
    schedule_child_workflow, workflow_argument,
};

fn failure(message: &str) -> Failure {
    Failure {
        message: message.to_string(),
        source: "rust".to_string(),
        stack_trace: String::new(),
        encoded_attributes: Some(Payload::json(b"{}".to_vec())),
        cause: Some(Box::new(Failure {
            message: "root cause".to_string(),
            source: "rust".to_string(),
            stack_trace: "at main".to_string(),
            encoded_attributes: None,
            cause: None,
            failure_info: Some(FailureInfo::Server { non_retryable: true }),
        })),
        failure_info: Some(FailureInfo::Application {
            failure_type: "MyError".to_string(),
            non_retryable: false,
            details: vec![Payload::json(b"1".to_vec())],
        }),
    }
}

fn retry() -> RetryPolicy {
    RetryPolicy {
        initial_interval: Some(Duration::from_secs(1)),
        maximum_interval: Some(Duration::from_secs(60)),
        backoff_coefficient_bits: 2.0f64.to_bits(),
        maximum_attempts: 5,
        non_retryable_error_types: vec!["Fatal".to_string()],
    }
}

#[test]
fn empty_activity_type_becomes_the_function_name() {
    let options = ActivityOptions {
        activity_id: Some("activity".to_string()),
        schedule_to_close_timeout: Some(Duration::from_secs(5)),
        ..Default::default()
    };
    let input = Payload::json(b"[\"hello\",7]".to_vec());
    let scheduled = schedule_activity(options, "examples::activity::activity", input.clone());
    assert_eq!(scheduled.activity_type, "examples::activity::activity");
    assert_eq!(scheduled.activity_id, Some("activity".to_string()));
    assert_eq!(scheduled.schedule_to_close_timeout, Some(Duration::from_secs(5)));
    assert_eq!(scheduled.input, input);
    assert_eq!(scheduled.task_queue, None);
    assert_eq!(scheduled.start_to_close_timeout, None);
    assert_eq!(scheduled.schedule_to_start_timeout, None);
    assert_eq!(scheduled.heartbeat_timeout, None);
    assert_eq!(scheduled.cancellation_type, ActivityCancellationType::TryCancel);
    assert_eq!(scheduled.retry_policy, None);
}

#[test]
fn explicit_activity_type_is_kept() {
    let options = ActivityOptions {
        activity_type: "sdk_example_activity".to_string(),
        task_queue: Some("q".to_string()),
        start_to_close_timeout: Some(Duration::from_millis(250)),
        heartbeat_timeout: Some(Duration::from_secs(1)),
        schedule_to_start_timeout: Some(Duration::from_secs(2)),
        input: Payload::json(b"\"old\"".to_vec()),
        cancellation_type: ActivityCancellationType::Abandon,
        retry_policy: Some(retry()),
        ..Default::default()
    };
    let input = Payload::json(b"\"new\"".to_vec());
    let scheduled = schedule_activity(options, "fallback", input.clone());
    assert_eq!(scheduled.activity_type, "sdk_example_activity");
    assert_eq!(scheduled.input, input);
    assert_eq!(scheduled.task_queue, Some("q".to_string()));
    assert_eq!(scheduled.start_to_close_timeout, Some(Duration::from_millis(250)));
    assert_eq!(scheduled.heartbeat_timeout, Some(Duration::from_secs(1)));
    assert_eq!(scheduled.schedule_to_start_timeout, Some(Duration::from_secs(2)));
    assert_eq!(scheduled.activity_id, None);
    assert_eq!(scheduled.cancellation_type, ActivityCancellationType::Abandon);
    assert_eq!(scheduled.retry_policy, Some(retry()));
}

#[test]
fn completed_activity_gives_its_result() {
    let result = Payload::json(b"[\"hello\",7]".to_vec());
    let resolution = ActivityResolution {
        status: Some(ActivityStatus::Completed(Success { result: Some(result.clone()) })),
    };
    assert_eq!(activity_result(resolution), Ok(result));
}

#[test]
fn failed_activity_gives_its_failure() {
    let resolution = ActivityResolution { status: Some(ActivityStatus::Failed(ActivityFailure { failure: Some(failure("boom")) })) };
    assert_eq!(activity_result(resolution), Err(WorkflowError::ActivityFailed(ActivityFailure { failure: Some(failure("boom")) })));
    let resolution = ActivityResolution { status: Some(ActivityStatus::Failed(ActivityFailure { failure: None })) };
    assert_eq!(activity_result(resolution), Err(WorkflowError::ActivityFailed(ActivityFailure { failure: None })));
}

#[test]
fn cancelled_activity_gives_its_cancellation() {
    let resolution = ActivityResolution { status: Some(ActivityStatus::Cancelled(ActivityCancellation { failure: Some(failure("cancelled")) })) };
    assert_eq!(
        activity_result(resolution),
        Err(WorkflowError::ActivityCancelled(ActivityCancellation { failure: Some(failure("cancelled")) }))
    );
}

#[test]
fn backoff_activity_gives_its_backoff() {
    let backoff = DoBackoff {
        attempt: 3,
        backoff_duration: Some(Duration::from_secs(10)),
        original_schedule_time: Some(Timestamp { seconds: 1_700_000_000, nanos: 5 }),
    };
    let resolution = ActivityResolution { status: Some(ActivityStatus::Backoff(backoff.clone())) };
    assert_eq!(activity_result(resolution), Err(WorkflowError::ActivityBackoff(backoff)));
}

#[test]
fn child_workflow_gets_one_argument_and_the_function_name() {
    let options = ChildWorkflowOptions { workflow_id: "child_workflow".to_string(), ..Default::default() };
    let input = Payload::json(b"{\"echo\":[\"child_workflow\"]}".to_vec());
    let scheduled = schedule_child_workflow(options, "examples::workflow::child_workflow", input.clone());
    assert_eq!(scheduled.workflow_type, "examples::workflow::child_workflow");
    assert_eq!(scheduled.workflow_id, "child_workflow");
    assert_eq!(scheduled.input, vec![input]);
    assert_eq!(scheduled.task_queue, None);
    assert_eq!(scheduled.execution_timeout, None);
    assert_eq!(scheduled.run_timeout, None);
    assert_eq!(scheduled.task_timeout, None);
    assert_eq!(scheduled.cancel_type, ChildWorkflowCancellationType::Abandon);
    assert_eq!(scheduled.parent_close_policy, ParentClosePolicy::Unspecified);
    assert_eq!(scheduled.retry_policy, None);
    assert_eq!(scheduled.cron_schedule, None);
}

#[test]
fn child_workflow_input_replaces_given_input() {
    let options = ChildWorkflowOptions {
        workflow_id: "w".to_string(),
        workflow_type: "registered_child".to_string(),
        input: vec![Payload::json(b"1".to_vec()), Payload::json(b"2".to_vec())],
        task_queue: Some("q".to_string()),
        run_timeout: Some(Duration::from_secs(9)),
        execution_timeout: Some(Duration::from_secs(8)),
        task_timeout: Some(Duration::from_secs(7)),
        cancel_type: ChildWorkflowCancellationType::WaitCancellationRequested,
        parent_close_policy: ParentClosePolicy::RequestCancel,
        retry_policy: Some(retry()),
        cron_schedule: Some("0 * * * *".to_string()),
    };
    let input = Payload::json(b"3".to_vec());
    let scheduled = schedule_child_workflow(options, "fallback", input.clone());
    assert_eq!(scheduled.workflow_type, "registered_child");
    assert_eq!(scheduled.input, vec![input]);
    assert_eq!(scheduled.task_queue, Some("q".to_string()));
    assert_eq!(scheduled.run_timeout, Some(Duration::from_secs(9)));
    assert_eq!(scheduled.execution_timeout, Some(Duration::from_secs(8)));
    assert_eq!(scheduled.task_timeout, Some(Duration::from_secs(7)));
    assert_eq!(scheduled.cancel_type, ChildWorkflowCancellationType::WaitCancellationRequested);
    assert_eq!(scheduled.parent_close_policy, ParentClosePolicy::RequestCancel);
    assert_eq!(scheduled.retry_policy, Some(retry()));
    assert_eq!(scheduled.cron_schedule, Some("0 * * * *".to_string()));
}

#[test]
fn started_child_has_a_run_id() {
    let status = ChildWorkflowStartStatus::Started { run_id: "run-1".to_string() };
    assert_eq!(child_workflow_run_id(status), Some("run-1".to_string()));
}

#[test]
fn child_that_did_not_start_has_no_run_id() {
    let failed = ChildWorkflowStartStatus::Failed { workflow_id: "w".to_string(), workflow_type: "t".to_string() };
    assert_eq!(child_workflow_run_id(failed), None);
    let cancelled = ChildWorkflowStartStatus::Cancelled { failure: Some(failure("c")) };
    assert_eq!(child_workflow_run_id(cancelled), None);
}

#[test]
fn completed_child_gives_its_result() {
    let result = Payload::json(b"{\"result\":[\"success\"]}".to_vec());
    let r = ChildWorkflowResult { status: Some(ChildWorkflowStatus::Completed(Success { result: Some(result.clone()) })) };
    assert_eq!(child_workflow_result(r), Ok(result));
}

#[test]
fn failed_and_cancelled_child_give_errors() {
    let r = ChildWorkflowResult { status: Some(ChildWorkflowStatus::Failed(ChildWorkflowFailure { failure: Some(failure("f")) })) };
    assert_eq!(child_workflow_result(r), Err(WorkflowError::ChildWorkflowFailed(ChildWorkflowFailure { failure: Some(failure("f")) })));
    let r = ChildWorkflowResult { status: Some(ChildWorkflowStatus::Cancelled(ChildWorkflowCancellation { failure: None })) };
    assert_eq!(child_workflow_result(r), Err(WorkflowError::ChildWorkflowCancelled(ChildWorkflowCancellation { failure: None })));
}

#[test]
fn child_without_status_is_unexpected() {
    let r = ChildWorkflowResult { status: None };
    assert_eq!(child_workflow_result(r), Err(WorkflowError::UnexpectedChildWorkflowStatus));
}

#[test]
fn workflow_reads_its_first_argument() {
    let args = vec![Payload::json(b"{\"one\":\"one\",\"two\":42}".to_vec()), Payload::json(b"2".to_vec())];
    assert_eq!(workflow_argument(&args), Ok(&b"{\"one\":\"one\",\"two\":42}".to_vec()));
}

#[test]
fn workflow_refuses_a_non_json_argument() {
    let args = vec![Payload::default(), Payload::json(b"2".to_vec())];
    assert_eq!(workflow_argument(&args), Err(PayloadDecodeError::DeserializerDoesNotHandle));
}

#[test]
fn scheduling_twice_gives_the_same_command() {
    let make = || ActivityOptions {
        activity_id: Some("a".to_string()),
        retry_policy: Some(retry()),
        ..Default::default()
    };
    let input = Payload::json(b"[\"hello\",7]".to_vec());
    let first = schedule_activity(make(), "examples::activity", input.clone());
    let second = schedule_activity(make(), "examples::activity", input.clone());
    assert_eq!(first, second);
    let child = || ChildWorkflowOptions { workflow_id: "c".to_string(), ..Default::default() };
    let first = schedule_child_workflow(child(), "examples::child", input.clone());
    let second = schedule_child_workflow(child(), "examples::child", input);
    assert_eq!(first, second);
}

#[test]
fn retry_coefficient_bits_are_carried_through() {
    let options = ActivityOptions { retry_policy: Some(retry()), ..Default::default() };
    let scheduled = schedule_activity(options, "f", Payload::default());
    let bits = scheduled.retry_policy.unwrap().backoff_coefficient_bits;
    assert_eq!(f64::from_bits(bits), 2.0);
}
