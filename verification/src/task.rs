//! Tasks, their results and the leases that bind a running task to a worker.

use crate::capabilities::TaskCapabilities;
use vstd::prelude::*;

verus! {

/// Tasks and users are identified by the 128-bit value of their UUID.
pub type TaskId = u128;

/// Milliseconds since the UNIX epoch.
pub type Timestamp = u64;

/// The JSON value that a worker reports as the outcome of a task. The
/// library carries it through unchanged and never looks inside.
#[verifier::external_type_specification]
#[verifier::external_body]
pub struct ExJsonValue(serde_json::Value);

/// `serde_json::Value`'s `Clone` (derived in serde_json): the copy is the
/// same JSON value.
pub assume_specification[ <serde_json::Value as Clone>::clone ](v: &serde_json::Value) -> (r:
    serde_json::Value)
    ensures
        r == *v,
;

/// The queue a task is placed in.
#[derive(Clone, Copy, Debug, PartialEq, Eq, Structural)]
pub enum TaskPriority {
    High,
    Medium,
    Low,
}

/// Where a task stands in its life cycle.
#[derive(Clone, Copy, Debug, PartialEq, Eq, Structural)]
pub enum TaskStatus {
    Queued,
    Running,
    Completed,
    Failed,
    Cancelled,
}

/// A task waiting in a queue or handed to a worker.
#[derive(Clone, Debug)]
pub struct Task {
    pub id: TaskId,
    pub owner_id: TaskId,
    pub name: String,
    pub code_b64: String,
    pub priority: TaskPriority,
    pub capabilities: Option<TaskCapabilities>,
}

/// What the broker knows of a task's outcome.
#[derive(Clone, Debug, PartialEq)]
pub struct TaskResult {
    pub id: TaskId,
    pub owner_id: TaskId,
    pub name: String,
    pub code_b64: String,
    pub result: Option<serde_json::Value>,
    pub status: TaskStatus,
    pub capabilities: Option<TaskCapabilities>,
}

/// The binding of a running task to the worker that runs it.
#[derive(Clone, Debug, PartialEq, Eq)]
pub struct Lease {
    pub worker_id: String,
    pub attempts: usize,
    pub start_time: Timestamp,
}

impl Task {
    /// A copy of the task.
    pub fn duplicate(&self) -> (r: Task)
        ensures
            r == *self,
    {
        Task {
            id: self.id,
            owner_id: self.owner_id,
            name: self.name.clone(),
            code_b64: self.code_b64.clone(),
            priority: self.priority,
            capabilities: self.capabilities,
        }
    }
}

impl TaskResult {
    /// A copy of this result.
    pub fn duplicate(&self) -> (r: TaskResult)
        ensures
            r == *self,
    {
        let result = match &self.result {
            Some(v) => Some(v.clone()),
            None => None,
        };
        TaskResult {
            id: self.id,
            owner_id: self.owner_id,
            name: self.name.clone(),
            code_b64: self.code_b64.clone(),
            result,
            status: self.status,
            capabilities: self.capabilities,
        }
    }
}

impl Lease {
    /// A copy of this lease.
    pub fn duplicate(&self) -> (r: Lease)
        ensures
            r == *self,
    {
        Lease {
            worker_id: self.worker_id.clone(),
            attempts: self.attempts,
            start_time: self.start_time,
        }
    }
}

/// The result record the broker keeps for a task that was just handed to a
/// worker: same identity and code, no outcome yet, status `Running`.
pub open spec fn running_record(t: Task) -> TaskResult {
    TaskResult {
        id: t.id,
        owner_id: t.owner_id,
        name: t.name,
        code_b64: t.code_b64,
        result: None,
        status: TaskStatus::Running,
        capabilities: t.capabilities,
    }
}

/// The queue entry that puts back a task known from its result record; it
/// goes to the high priority queue since it was already under way.
pub open spec fn requeued_task(r: TaskResult) -> Task {
    Task {
        id: r.id,
        owner_id: r.owner_id,
        name: r.name,
        code_b64: r.code_b64,
        priority: TaskPriority::High,
        capabilities: r.capabilities,
    }
}

} // verus!
