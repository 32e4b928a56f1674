use aether::task::{Task, TaskPriority, TaskStatus};
use aether::worker::{
    decode_task_code, execution_step, handle_server_message, next_backoff, next_id, task_report,
    undecodable_task, AfterRun, RunOutcome, ServerMessage, WorkerState, MAX_BACKOFF_SECS,
};

fn task(id: u128) -> Task {
    Task {
        id,
        owner_id: 5,
        name: "test-task".to_string(),
        code_b64: "cHJpbnQoJ2hlbGxvJyk=".to_string(),
        priority: TaskPriority::High,
        capabilities: None,
    }
}

#[test]
fn next_id_counts_up_and_wraps() {
    let mut c: usize = 1;
    assert_eq!(next_id(&mut c), 1);
    assert_eq!(next_id(&mut c), 2);
    assert_eq!(c, 3);
    let mut top = usize::MAX;
    assert_eq!(next_id(&mut top), usize::MAX);
    assert_eq!(top, 0);
}

#[test]
fn backoff_doubles_up_to_a_minute() {
    let mut b = 1;
    let mut seen = vec![];
    for _ in 0..8 {
        b = next_backoff(b);
        seen.push(b);
    }
    assert_eq!(seen, vec![2, 4, 8, 16, 32, 60, 60, 60]);
    assert_eq!(next_backoff(30), MAX_BACKOFF_SECS);
    assert_eq!(next_backoff(29), 58);
}

#[test]
fn queue_fetch_and_start() {
    let mut s: WorkerState<u8> = WorkerState::new("test-worker");
    assert_eq!(s.id, "test-worker");
    assert!(s.should_fetch(1));
    assert!(!s.should_fetch(0));
    s.queue_task(task(1));
    s.queue_task(task(2));
    assert!(!s.should_fetch(2));
    assert!(s.should_fetch(3));
    assert_eq!(s.next_task().unwrap().id, 1);
    assert_eq!(s.next_task().unwrap().id, 2);
    assert!(s.next_task().is_none());
    s.start_running(1, 10);
    s.queue_task(task(3));
    s.reset();
    assert!(s.next_task().is_none());
    assert!(s.finish(1).is_none());
}

#[test]
fn server_messages() {
    let mut s: WorkerState<u8> = WorkerState::new("w");
    assert!(handle_server_message(&mut s, ServerMessage::Response { error: false, task: Some(task(1)) }).is_none());
    assert!(handle_server_message(&mut s, ServerMessage::Response { error: true, task: Some(task(2)) }).is_none());
    assert!(handle_server_message(&mut s, ServerMessage::Response { error: false, task: None }).is_none());
    assert_eq!(s.task_list.len(), 1);
    s.start_running(1, 42);
    assert_eq!(handle_server_message(&mut s, ServerMessage::StopExecution(1)), Some(42));
    assert_eq!(handle_server_message(&mut s, ServerMessage::StopExecution(1)), None);
    assert!(handle_server_message(&mut s, ServerMessage::OtherNotification).is_none());
}

#[test]
fn test_worker_task_execution_success() {
    let mut s: WorkerState<u8> = WorkerState::new("w");
    s.start_running(1, 0);
    let out = RunOutcome::Exited { code: Some(0), stdout: b"hello world\n".to_vec(), stderr: vec![] };
    let (rep, next) = execution_step(&mut s, 1, out);
    let rep = rep.unwrap();
    assert_eq!(rep.status, TaskStatus::Completed);
    let ex = rep.execution.unwrap();
    assert_eq!(ex.exit_code, 0);
    assert_eq!(ex.stdout, "hello world\n");
    assert_eq!(ex.stderr, "");
    assert!(next == AfterRun::Finished);
    assert!(s.finish(1).is_none());
}

#[test]
fn test_worker_task_execution_failure() {
    let mut s: WorkerState<u8> = WorkerState::new("w");
    s.start_running(1, 0);
    let out = RunOutcome::Exited { code: Some(1), stdout: vec![], stderr: vec![0xff, b'x'] };
    let (rep, next) = execution_step(&mut s, 1, out);
    let rep = rep.unwrap();
    assert_eq!(rep.status, TaskStatus::Failed);
    let ex = rep.execution.unwrap();
    assert_eq!(ex.exit_code, 1);
    assert_eq!(ex.stderr, "\u{FFFD}x");
    assert!(next == AfterRun::RetryAfterPause);
    assert_eq!(s.finish(1), Some(0));
}

#[test]
fn killed_process_reports_minus_one() {
    let mut s: WorkerState<u8> = WorkerState::new("w");
    let (rep, next) = execution_step(&mut s, 1, RunOutcome::Exited { code: None, stdout: vec![], stderr: vec![] });
    assert_eq!(rep.unwrap().execution.unwrap().exit_code, -1);
    assert!(next == AfterRun::RetryAfterPause);
}

#[test]
fn test_worker_task_cancellation() {
    let mut s: WorkerState<u8> = WorkerState::new("w");
    s.start_running(1, 0);
    let (rep, next) = execution_step(&mut s, 1, RunOutcome::Cancelled);
    let rep = rep.unwrap();
    assert_eq!(rep.status, TaskStatus::Cancelled);
    assert!(rep.execution.is_none());
    assert!(next == AfterRun::Finished);
    assert!(s.finish(1).is_none());
}

#[test]
fn spawn_failure_retries_without_report() {
    let mut s: WorkerState<u8> = WorkerState::new("w");
    s.start_running(1, 0);
    let (rep, next) = execution_step(&mut s, 1, RunOutcome::SpawnFailed);
    assert!(rep.is_none());
    assert!(next == AfterRun::RetryNow);
    assert_eq!(s.finish(1), Some(0));
}

#[test]
fn decode_task_code_reads_base64() {
    assert_eq!(decode_task_code("cHJpbnQoJ2hlbGxvIHdvcmxkJyk="), Some("print('hello world')".to_string()));
    assert_eq!(decode_task_code("not base64!"), None);
    assert_eq!(decode_task_code("/w=="), Some("\u{FFFD}".to_string()));
}

#[test]
fn undecodable_task_fails() {
    let mut s: WorkerState<u8> = WorkerState::new("w");
    s.start_running(1, 0);
    let rep = undecodable_task(&mut s, 1);
    assert_eq!(rep.status, TaskStatus::Failed);
    assert!(rep.execution.is_none());
    assert!(s.finish(1).is_none());
}

#[test]
fn report_copies_the_task() {
    let t = task(3);
    let r = task_report(&t, TaskStatus::Running, None);
    assert_eq!(r.id, 3);
    assert_eq!(r.owner_id, 5);
    assert_eq!(r.name, "test-task");
    assert_eq!(r.code_b64, t.code_b64);
    assert_eq!(r.status, TaskStatus::Running);
    assert!(r.result.is_none());
}
