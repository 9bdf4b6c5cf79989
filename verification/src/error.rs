use vstd::prelude::*;

use crate::resolution::{
    ActivityCancellation, ActivityFailure, ChildWorkflowCancellation, ChildWorkflowFailure,
    DoBackoff,
};

verus! {

/// Why a workflow command did not yield a value.
#[derive(Debug, PartialEq, Eq)]
pub enum WorkflowError {
    /// The activity failed.
    ActivityFailed(ActivityFailure),
    /// The activity was cancelled.
    ActivityCancelled(ActivityCancellation),
    /// The activity is to be retried after a backoff.
    ActivityBackoff(DoBackoff),
    /// The child workflow failed.
    ChildWorkflowFailed(ChildWorkflowFailure),
    /// The child workflow was cancelled.
    ChildWorkflowCancelled(ChildWorkflowCancellation),
    /// The child workflow ended without a status.
    UnexpectedChildWorkflowStatus,
}

} // verus!
