# temporal_sdk

Helpers for writing Temporal workflows as ordinary async Rust, split in two:

- `src/` (verified): the decisions around each workflow command.
  `workflow.rs` chooses the options an activity or child workflow is sent
  with and says what its resolution means for the workflow; `payload.rs`
  frames serialized JSON as payloads and checks payloads before decoding;
  `options.rs`, `resolution.rs` and `error.rs` hold the data these work on.
- `app/`: the async functions `execute_activity`, `execute_child_workflow`,
  `into_workflow` and `sleep`, which serialize values with serde, send the
  planned commands through a `WorkflowContext` and await the answers.
