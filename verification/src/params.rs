//! The parameters and results carried by the broker's JSON-RPC messages.

use crate::capabilities::WorkerCapabilities;
use crate::task::{Task, TaskId};
use vstd::prelude::*;

verus! {

/// Asks a worker to stop running a task.
#[derive(Clone, Copy, Debug, PartialEq, Eq, Structural)]
pub struct StopExecutionNotificationParams {
    pub task_id: TaskId,
}

/// A worker introduces itself.
#[derive(Clone, Debug)]
pub struct RegisterWorkerRequestParams {
    pub worker_id: String,
    pub capabilities: WorkerCapabilities,
}

/// The broker's answer to a registration.
#[derive(Clone, Debug)]
pub struct RegisterWorkerResponseParams {
    pub status: String,
}

/// A worker asks for a task.
#[derive(Clone, Debug)]
pub struct FetchTaskRequestParams {
    pub worker_id: String,
}

/// The broker's answer to a fetch: a task, or none.
#[derive(Clone, Debug)]
pub struct FetchTaskResponseResult {
    pub task: Option<Task>,
}

/// A worker says it is alive.
#[derive(Clone, Debug)]
pub struct HeartbeatNotificationParams {
    pub worker_id: String,
}

/// A worker says it is shutting down.
#[derive(Clone, Debug)]
pub struct WorkerShutdownNotificationParams {
    pub worker_id: String,
}

} // verus!
