//! The bodies of the broker's HTTP API.

use crate::auth::Permission;
use crate::capabilities::TaskCapabilities;
use crate::task::{TaskId, TaskPriority, TaskResult, TaskStatus};
use vstd::prelude::*;

verus! {

/// A client submits a task.
#[derive(Clone, Debug)]
pub struct CreateTaskRequest {
    pub name: String,
    pub code_b64: String,
    pub priority: TaskPriority,
    pub capabilities: Option<TaskCapabilities>,
}

/// The answer to a submission: accepted with the new task's id and
/// status, or refused with a message.
#[derive(Clone, Debug)]
pub enum CreateTaskResponse {
    Accepted { task_id: TaskId, status: TaskStatus },
    Error { message: String },
}

/// The answer to a query about one task.
#[derive(Clone, Debug)]
pub struct GetTaskResponse {
    pub task: Option<TaskResult>,
    pub error: Option<String>,
}

/// The answer to a query about all tasks.
#[derive(Clone, Debug)]
pub struct GetAllTasksResponse {
    pub tasks: Option<Vec<TaskResult>>,
}

/// The answer to a cancellation.
#[derive(Clone, Debug)]
pub struct CancelTaskResponse {
    pub message: String,
}

/// A user logs in.
#[derive(Clone, Debug)]
pub struct LoginRequest {
    pub username: String,
    pub password: String,
}

/// The answer to a login: a token, or a refusal with a message.
#[derive(Clone, Debug)]
pub enum LoginResponse {
    Token { jwt: String },
    Refused { message: String },
}

/// An administrator creates a user.
#[derive(Clone, Debug)]
pub struct CreateUserRequest {
    pub username: String,
    pub password: String,
    pub is_admin: bool,
    pub permissions: Vec<Permission>,
}

/// An HTTP status and, when there is one, a JSON body.
#[derive(Clone, Debug)]
pub struct HttpReply<T> {
    pub status: u16,
    pub body: Option<T>,
}

} // verus!
