use aether::broker::{
    BrokerState, Message, NotificationCall, RequestCall, RpcReply, RpcResult, MAX_ATTEMPTS,
};
use aether::capabilities::{CPUArchitecture, TaskCapabilities, WorkerCapabilities};
use aether::jrpc::JsonRpcErrorCode;
use aether::params::{
    FetchTaskRequestParams, HeartbeatNotificationParams, RegisterWorkerRequestParams,
    WorkerShutdownNotificationParams,
};
use aether::storage::InMemoryStorage;
use aether::task::{Task, TaskPriority, TaskResult, TaskStatus};

fn test_task(id: u128, name: &str, priority: TaskPriority) -> Task {
    Task {
        id,
        owner_id: 7,
        name: name.to_string(),
        code_b64: "cHJpbnQoIkhlbGxvIFdvcmxkIik=".to_string(),
        priority,
        capabilities: None,
    }
}

fn caps() -> WorkerCapabilities {
    WorkerCapabilities { gpu: false, arch: CPUArchitecture::X86_64 }
}

fn register(state: &mut BrokerState, worker: &str, now: u64) -> RpcReply {
    let msg = Message::Request {
        id: "1".to_string(),
        call: RequestCall::RegisterWorker(Some(RegisterWorkerRequestParams {
            worker_id: worker.to_string(),
            capabilities: caps(),
        })),
    };
    state.process_jsonrpc_message_at(Some(msg), now).reply.unwrap()
}

fn fetch(state: &mut BrokerState, worker: &str, now: u64) -> RpcReply {
    let msg = Message::Request {
        id: "2".to_string(),
        call: RequestCall::FetchTask(Some(FetchTaskRequestParams { worker_id: worker.to_string() })),
    };
    state.process_jsonrpc_message_at(Some(msg), now).reply.unwrap()
}

fn report(state: &mut BrokerState, result: TaskResult) -> Vec<aether::broker::StopExecution> {
    let msg = Message::Notification(NotificationCall::ReportResult(Some(result)));
    state.process_jsonrpc_message_at(Some(msg), 10).stops
}

fn result_of(task: &Task, status: TaskStatus, text: &str) -> TaskResult {
    TaskResult {
        id: task.id,
        owner_id: task.owner_id,
        name: task.name.clone(),
        code_b64: task.code_b64.clone(),
        status,
        result: Some(serde_json::Value::String(text.to_string())),
        capabilities: task.capabilities,
    }
}

#[test]
fn test_worker_register() {
    let mut state = BrokerState::new(InMemoryStorage::new());
    let r = register(&mut state, "test-worker", 5);
    assert!(r.error.is_none());
    assert!(matches!(r.result, Some(RpcResult::Registered)));
    assert_eq!(r.id, "1");
    let info = state.storage.get_worker_from_registry("test-worker").unwrap();
    assert!(info.active);
    assert_eq!(info.last_heartbeat, 5);
    assert!(state.worker_sessions.contains_key("test-worker"));
}

#[test]
fn test_fetch_task_no_tasks() {
    let mut state = BrokerState::new(InMemoryStorage::new());
    register(&mut state, "test-worker", 0);
    let r = fetch(&mut state, "test-worker", 1);
    assert!(r.error.is_none());
    assert!(matches!(r.result, Some(RpcResult::Fetched(None))));
}

#[test]
fn test_fetch_task_with_task() {
    let mut storage = InMemoryStorage::new();
    storage.enqueue_task(test_task(1, "test_task", TaskPriority::High)).unwrap();
    let mut state = BrokerState::new(storage);
    register(&mut state, "test-worker", 0);
    let r = fetch(&mut state, "test-worker", 1);
    assert!(r.error.is_none());
    match r.result {
        Some(RpcResult::Fetched(Some(t))) => {
            assert_eq!(t.id, 1);
            assert_eq!(t.name, "test_task");
        }
        _ => panic!("expected a task"),
    }
    assert_eq!(state.storage.queued_count(TaskPriority::High), 0);
    let lease = state.storage.get_lease(1).unwrap();
    assert_eq!(lease.worker_id, "test-worker");
    assert_eq!(lease.attempts, 0);
    assert_eq!(lease.start_time, 1);
    assert_eq!(state.storage.get_task_result(1).unwrap().status, TaskStatus::Running);
}

#[test]
fn test_heartbeat_active() {
    let mut state = BrokerState::new(InMemoryStorage::new());
    register(&mut state, "test-worker", 0);
    let hb = Message::Notification(NotificationCall::Heartbeat(Some(HeartbeatNotificationParams {
        worker_id: "test-worker".to_string(),
    })));
    let d = state.process_jsonrpc_message_at(Some(hb), 9000);
    assert!(d.reply.is_none());
    assert_eq!(state.storage.get_worker_from_registry("test-worker").unwrap().last_heartbeat, 9000);
    state.handle_heartbeats(15000);
    assert!(state.storage.get_worker_from_registry("test-worker").unwrap().active);
    let r = fetch(&mut state, "test-worker", 15001);
    assert!(r.error.is_none());
    assert!(matches!(r.result, Some(RpcResult::Fetched(None))));
}

#[test]
fn test_heartbeat_inactive() {
    let mut state = BrokerState::new(InMemoryStorage::new());
    register(&mut state, "test-worker", 0);
    state.handle_heartbeats(16000);
    assert!(!state.storage.get_worker_from_registry("test-worker").unwrap().active);
    let r = fetch(&mut state, "test-worker", 16001);
    let e = r.error.unwrap();
    assert_eq!(e.code, JsonRpcErrorCode::InvalidRequest);
    assert_eq!(e.message, "Cannot fetch task from an inactive worker");
    assert!(r.result.is_none());
}

#[test]
fn heartbeat_timeout_is_strict() {
    let mut state = BrokerState::new(InMemoryStorage::new());
    register(&mut state, "w", 0);
    state.handle_heartbeats(10000);
    assert!(state.storage.get_worker_from_registry("w").unwrap().active);
    state.handle_heartbeats(10001);
    assert!(!state.storage.get_worker_from_registry("w").unwrap().active);
}

#[test]
fn test_report_result_success() {
    let mut storage = InMemoryStorage::new();
    let task = test_task(11, "test_task", TaskPriority::High);
    storage.enqueue_task(task.clone()).unwrap();
    let mut state = BrokerState::new(storage);
    register(&mut state, "test-worker", 0);
    fetch(&mut state, "test-worker", 1);
    let result = result_of(&task, TaskStatus::Completed, "success");
    let stops = report(&mut state, result.clone());
    assert!(stops.is_empty());
    assert_eq!(state.storage.get_task_result(task.id).unwrap(), result);
    assert!(state.storage.get_lease(task.id).is_none());
}

#[test]
fn test_report_result_failure() {
    let mut storage = InMemoryStorage::new();
    let task = test_task(12, "test_task", TaskPriority::High);
    storage.enqueue_task(task.clone()).unwrap();
    let mut state = BrokerState::new(storage);
    register(&mut state, "test-worker", 0);
    fetch(&mut state, "test-worker", 1);
    let result = result_of(&task, TaskStatus::Failed, "error");
    let stops = report(&mut state, result.clone());
    assert!(stops.is_empty());
    assert_eq!(state.storage.get_task_result(task.id).unwrap(), result);
    assert_eq!(state.storage.get_lease(task.id).unwrap().attempts, 1);
}

#[test]
fn failed_task_is_stopped_at_max_attempts() {
    let mut storage = InMemoryStorage::new();
    let task = test_task(13, "t", TaskPriority::Low);
    storage.enqueue_task(task.clone()).unwrap();
    let mut state = BrokerState::new(storage);
    register(&mut state, "w", 0);
    fetch(&mut state, "w", 1);
    let mut total_stops = 0;
    for n in 1..=MAX_ATTEMPTS {
        let stops = report(&mut state, result_of(&task, TaskStatus::Failed, "error"));
        assert_eq!(state.storage.get_lease(task.id).unwrap().attempts, n);
        if n < MAX_ATTEMPTS {
            assert!(stops.is_empty());
        } else {
            assert_eq!(stops.len(), 1);
            assert_eq!(stops[0].worker_id, "w");
            assert_eq!(stops[0].task_id, task.id);
        }
        total_stops += stops.len();
    }
    assert_eq!(total_stops, 1);
}

#[test]
fn report_for_unknown_task_is_ignored() {
    let mut state = BrokerState::new(InMemoryStorage::new());
    let task = test_task(99, "ghost", TaskPriority::High);
    let stops = report(&mut state, result_of(&task, TaskStatus::Completed, "x"));
    assert!(stops.is_empty());
    assert!(state.storage.get_task_result(99).is_none());
}

#[test]
fn test_error_handling() {
    let mut state = BrokerState::new(InMemoryStorage::new());
    let r = fetch(&mut state, "test-worker", 1);
    let e = r.error.unwrap();
    assert_eq!(e.code, JsonRpcErrorCode::InvalidRequest);
    assert_eq!(e.message, "Cannot fetch task from non-registered worker.");
}

#[test]
fn unknown_method_is_answered_with_method_not_found() {
    let mut state = BrokerState::new(InMemoryStorage::new());
    let msg = Message::Request { id: "9".to_string(), call: RequestCall::Unknown("dance".to_string()) };
    let r = state.process_jsonrpc_message_at(Some(msg), 0).reply.unwrap();
    let e = r.error.unwrap();
    assert_eq!(e.code, JsonRpcErrorCode::MethodNotFound);
    assert_eq!(e.message, "Method 'dance' not found or not allowed");
    assert_eq!(r.id, "9");
}

#[test]
fn test_multiple_workers() {
    let mut storage = InMemoryStorage::new();
    let task1 = test_task(21, "task1", TaskPriority::High);
    let task2 = test_task(22, "task2", TaskPriority::High);
    storage.enqueue_task(task1.clone()).unwrap();
    storage.enqueue_task(task2.clone()).unwrap();
    let mut state = BrokerState::new(storage);
    register(&mut state, "worker1", 0);
    register(&mut state, "worker2", 0);
    let r1 = fetch(&mut state, "worker1", 1);
    let r2 = fetch(&mut state, "worker2", 1);
    match (r1.result, r2.result) {
        (Some(RpcResult::Fetched(Some(a))), Some(RpcResult::Fetched(Some(b)))) => {
            assert_eq!(a.id, 21);
            assert_eq!(b.id, 22);
        }
        _ => panic!("both workers should get a task"),
    }
    let result1 = result_of(&task1, TaskStatus::Completed, "done1");
    let result2 = result_of(&task2, TaskStatus::Completed, "done2");
    report(&mut state, result1.clone());
    report(&mut state, result2.clone());
    assert_eq!(state.storage.get_all_tasks().unwrap().len(), 2);
    assert_eq!(state.storage.get_task_result(21).unwrap(), result1);
    assert_eq!(state.storage.get_task_result(22).unwrap(), result2);
}

#[test]
fn test_shutdown_worker() {
    let mut state = BrokerState::new(InMemoryStorage::new());
    register(&mut state, "test-worker", 0);
    let msg = Message::Notification(NotificationCall::WorkerShutdown(Some(
        WorkerShutdownNotificationParams { worker_id: "test-worker".to_string() },
    )));
    state.process_jsonrpc_message_at(Some(msg), 1);
    assert_eq!(state.worker_sessions.len(), 0);
    assert!(!state.storage.exists_worker("test-worker"));
}

#[test]
fn shutdown_requeues_running_tasks() {
    let mut storage = InMemoryStorage::new();
    let task = test_task(31, "t", TaskPriority::Low);
    storage.enqueue_task(task.clone()).unwrap();
    let mut state = BrokerState::new(storage);
    register(&mut state, "w", 0);
    fetch(&mut state, "w", 1);
    assert_eq!(state.storage.queued_count(TaskPriority::Low), 0);
    let msg = Message::Notification(NotificationCall::WorkerShutdown(Some(
        WorkerShutdownNotificationParams { worker_id: "w".to_string() },
    )));
    state.process_jsonrpc_message_at(Some(msg), 2);
    assert!(state.storage.get_lease(31).is_none());
    assert_eq!(state.storage.queued_count(TaskPriority::High), 1);
    assert_eq!(state.storage.get_task_result(31).unwrap().status, TaskStatus::Cancelled);
}

#[test]
fn worker_gets_only_tasks_it_supports() {
    let mut storage = InMemoryStorage::new();
    let mut gpu_task = test_task(41, "gpu", TaskPriority::High);
    gpu_task.capabilities = Some(TaskCapabilities { gpu: true, arch: CPUArchitecture::Any });
    let plain = test_task(42, "plain", TaskPriority::Low);
    storage.enqueue_task(gpu_task).unwrap();
    storage.enqueue_task(plain).unwrap();
    let mut state = BrokerState::new(storage);
    register(&mut state, "cpu-only", 0);
    let r = fetch(&mut state, "cpu-only", 1);
    match r.result {
        Some(RpcResult::Fetched(Some(t))) => assert_eq!(t.id, 42),
        _ => panic!("expected the plain task"),
    }
    assert_eq!(state.storage.queued_count(TaskPriority::High), 1);
    let r = fetch(&mut state, "cpu-only", 2);
    assert!(matches!(r.result, Some(RpcResult::Fetched(None))));
}

#[test]
fn overdue_task_is_stopped() {
    let mut storage = InMemoryStorage::new();
    storage.enqueue_task(test_task(51, "slow", TaskPriority::Medium)).unwrap();
    let mut state = BrokerState::new(storage);
    register(&mut state, "w", 0);
    fetch(&mut state, "w", 100);
    assert!(state.handle_timeouts(30100).is_empty());
    let stops = state.handle_timeouts(30101);
    assert_eq!(stops.len(), 1);
    assert_eq!(stops[0].worker_id, "w");
    assert_eq!(stops[0].task_id, 51);
}

#[test]
fn attempts_in_range_check() {
    let state = BrokerState::new(InMemoryStorage::new());
    assert!(state.check_attempts_in_range());
}
