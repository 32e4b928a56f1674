use aether::auth::{token_expired, Permission, User};
use aether::capabilities::{CPUArchitecture, TaskCapabilities, WorkerCapabilities};
use aether::jrpc::{
    classify_header_line, frame_message, parse_content_length, HeaderLine, HeaderReader, JsonRpcErrorCode,
    NotificationMethod, RequestMethod,
};
use aether::maps::{IdMap, NameMap};
use aether::redis_keys::{
    first_supported, lease_key, lease_key_task_id, queue_key, registry_key, result_key, user_key,
};
use aether::storage::{pop_compatible, InMemoryStorage, StorageError, WorkerInfo};
use aether::task::{Task, TaskPriority, TaskStatus};
use aether::text::decimal;
use std::collections::VecDeque;

fn task(id: u128, priority: TaskPriority, caps: Option<TaskCapabilities>) -> Task {
    Task {
        id,
        owner_id: 1,
        name: format!("t{id}"),
        code_b64: String::new(),
        priority,
        capabilities: caps,
    }
}

fn caps(gpu: bool, arch: CPUArchitecture) -> WorkerCapabilities {
    WorkerCapabilities { gpu, arch }
}

#[test]
fn supports_matrix() {
    let t = |gpu, arch| Some(TaskCapabilities { gpu, arch });
    let x86 = caps(false, CPUArchitecture::X86_64);
    let arm_gpu = caps(true, CPUArchitecture::Aarch64);
    let any = caps(true, CPUArchitecture::Any);
    assert!(x86.supports(None));
    assert!(x86.supports(t(false, CPUArchitecture::X86_64)));
    assert!(x86.supports(t(false, CPUArchitecture::Any)));
    assert!(!x86.supports(t(false, CPUArchitecture::Aarch64)));
    assert!(!x86.supports(t(true, CPUArchitecture::X86_64)));
    assert!(arm_gpu.supports(t(true, CPUArchitecture::Aarch64)));
    assert!(!arm_gpu.supports(t(false, CPUArchitecture::X86_64)));
    assert!(any.supports(t(true, CPUArchitecture::X86_64)));
    assert!(any.supports(t(false, CPUArchitecture::Aarch64)));
}

#[test]
fn dequeue_prefers_priority_then_age() {
    let mut s = InMemoryStorage::new();
    s.enqueue_task(task(1, TaskPriority::Low, None)).unwrap();
    s.enqueue_task(task(2, TaskPriority::High, None)).unwrap();
    s.enqueue_task(task(3, TaskPriority::High, None)).unwrap();
    s.enqueue_task(task(4, TaskPriority::Medium, None)).unwrap();
    let w = caps(false, CPUArchitecture::X86_64);
    let order: Vec<u128> = (0..5).filter_map(|n| s.dequeue_task_at("w", &w, n).map(|t| t.id)).collect();
    assert_eq!(order, vec![2, 3, 4, 1]);
}

#[test]
fn pop_compatible_skips_unsupported() {
    let mut q = VecDeque::new();
    q.push_back(task(1, TaskPriority::High, Some(TaskCapabilities { gpu: true, arch: CPUArchitecture::Any })));
    q.push_back(task(2, TaskPriority::High, None));
    q.push_back(task(3, TaskPriority::High, None));
    let w = caps(false, CPUArchitecture::X86_64);
    assert_eq!(pop_compatible(&mut q, &w).unwrap().id, 2);
    let ids: Vec<u128> = q.iter().map(|t| t.id).collect();
    assert_eq!(ids, vec![1, 3]);
}

#[test]
fn mark_task_failed_errors() {
    let mut s = InMemoryStorage::new();
    assert_eq!(s.mark_task_failed(1, 5).unwrap_err(), StorageError::LeaseNotFound);
    s.enqueue_task(task(1, TaskPriority::High, None)).unwrap();
    let w = caps(false, CPUArchitecture::X86_64);
    s.dequeue_task_at("w", &w, 0).unwrap();
    let (too_many, worker) = s.mark_task_failed(1, 1).unwrap();
    assert!(too_many);
    assert_eq!(worker, "w");
    assert_eq!(s.get_task_result(1).unwrap().status, TaskStatus::Failed);
}

#[test]
fn registry_insertion_reports_new_workers() {
    let mut s = InMemoryStorage::new();
    let info = WorkerInfo { worker_id: "w".to_string(), last_heartbeat: 0, active: true, capabilities: caps(false, CPUArchitecture::Any) };
    assert_eq!(s.insert_worker_info_to_registry(info.clone()), Err(StorageError::RegistryInsertion));
    assert!(s.exists_worker("w"));
    assert_eq!(s.insert_worker_info_to_registry(info), Ok(()));
    assert_eq!(s.get_worker_registry().len(), 1);
    assert!(s.remove_worker_from_registry("w").is_some());
    assert!(!s.exists_worker("w"));
}

#[test]
fn leases_of_a_worker_are_removed() {
    let mut s = InMemoryStorage::new();
    for id in 1..=3 {
        s.enqueue_task(task(id, TaskPriority::High, None)).unwrap();
    }
    let w = caps(false, CPUArchitecture::X86_64);
    s.dequeue_task_at("a", &w, 0).unwrap();
    s.dequeue_task_at("b", &w, 0).unwrap();
    s.dequeue_task_at("a", &w, 0).unwrap();
    let mut removed = s.remove_leases_of_worker("a").unwrap();
    removed.sort();
    assert_eq!(removed, vec![1, 3]);
    assert!(s.get_lease(1).is_none());
    assert_eq!(s.get_lease(2).unwrap().worker_id, "b");
    assert_eq!(s.get_all_leases().len(), 1);
}

#[test]
fn users_are_found_by_name() {
    let mut s = InMemoryStorage::new();
    let u = User { id: 1, name: "ann".to_string(), password_hash: "h".to_string(), is_admin: false, permissions: vec![Permission::All] };
    s.create_user(u.clone()).unwrap();
    s.create_user(u).unwrap();
    assert_eq!(s.get_user("ann").unwrap().unwrap().id, 1);
    assert!(s.get_user("bob").unwrap().is_none());
    assert!(token_expired(11, 10));
    assert!(!token_expired(10, 10));
}

#[test]
fn error_codes() {
    assert_eq!(isize::from(JsonRpcErrorCode::ParseError), -32700);
    assert_eq!(isize::from(JsonRpcErrorCode::ServerError), -32001);
    assert_eq!(JsonRpcErrorCode::from_code(-32601), JsonRpcErrorCode::MethodNotFound);
    assert_eq!(JsonRpcErrorCode::from_code(-32050), JsonRpcErrorCode::ServerError);
    assert_eq!(JsonRpcErrorCode::try_from_code(-32000), None);
    assert_eq!(JsonRpcErrorCode::try_from_code(-32099), Some(JsonRpcErrorCode::ServerError));
    assert_eq!(JsonRpcErrorCode::try_from_code(0), None);
    assert_eq!(JsonRpcErrorCode::InvalidParams.description(), "InvalidParams Error (-32602)");
    assert_eq!(JsonRpcErrorCode::ServerError.description(), "Server Error");
}

#[test]
fn method_names() {
    assert!(matches!(RequestMethod::from("register_worker"), RequestMethod::RegisterWorker));
    assert!(matches!(RequestMethod::from("fetch_task"), RequestMethod::FetchTask));
    assert!(matches!(RequestMethod::from("x"), RequestMethod::Unknown("x")));
    assert!(matches!(NotificationMethod::from("heartbeat"), NotificationMethod::Heartbeat));
    assert!(matches!(NotificationMethod::from("report_result"), NotificationMethod::ReportResult));
    assert!(matches!(NotificationMethod::from("worker_shutdown"), NotificationMethod::WorkerShutdown));
    assert!(matches!(NotificationMethod::from("stop"), NotificationMethod::Unknown(())));
}

#[test]
fn framing_round_trip() {
    let body = "{\"a\":\"é\"}";
    let framed = frame_message(body);
    assert_eq!(framed, format!("Content-Length: {}\r\n\r\n{}", body.len(), body));
    assert_eq!(parse_content_length("Content-Length: 10\r\n"), Some(10));
    assert_eq!(parse_content_length("Content-Length: Content-Length:  7 "), Some(7));
    assert_eq!(parse_content_length("Content-Length: x"), None);
    assert_eq!(parse_content_length("content-length: 7"), None);
    assert_eq!(classify_header_line("  Content-Length: 12\r\n"), HeaderLine::ContentLength(12));
    assert_eq!(classify_header_line("\r\n"), HeaderLine::End);
    assert_eq!(classify_header_line("X-Other: 1"), HeaderLine::Other);
    let mut h = HeaderReader::new();
    assert!(!h.feed("Content-Length: 4\r\n"));
    assert!(!h.feed("Content-Length: nope\r\n"));
    assert!(h.feed("\r\n"));
    assert_eq!(h.content_length, Some(4));
    assert_eq!(decimal(0), "0");
    assert_eq!(decimal(1234567), "1234567");
}

#[test]
fn maps_keep_insertion_order() {
    let mut m: IdMap<&str> = IdMap::new();
    assert_eq!(m.insert(5, "a"), None);
    assert_eq!(m.insert(3, "b"), None);
    assert_eq!(m.insert(5, "c"), Some("a"));
    assert_eq!(m.len(), 2);
    assert_eq!(*m.entry(0), (5, "c"));
    assert_eq!(m.remove(5), Some("c"));
    assert!(!m.contains_key(5));
    assert_eq!(m.get(3), Some(&"b"));
    let mut n: NameMap<u8> = NameMap::new();
    n.insert("x".to_string(), 1);
    n.insert("y".to_string(), 2);
    assert_eq!(n.get("y"), Some(&2));
    assert_eq!(n.remove("x"), Some(1));
    assert_eq!(n.len(), 1);
}

#[test]
fn uuid_text_round_trips_through_lease_keys() {
    let id = 0x0123456789abcdef0123456789abcdef;
    assert_eq!(lease_key(id), "leases:01234567-89ab-cdef-0123-456789abcdef");
    assert_eq!(lease_key_task_id("leases:0123456789ABCDEF0123456789ABCDEF"), Some(id));
    assert_eq!(lease_key_task_id("leases:{01234567-89ab-cdef-0123-456789abcdef}"), Some(id));
    assert_eq!(lease_key_task_id("leases:nope"), None);
}

#[test]
fn redis_keys() {
    assert_eq!(queue_key(TaskPriority::High), "task_queue:high");
    assert_eq!(queue_key(TaskPriority::Medium), "task_queue:medium");
    assert_eq!(queue_key(TaskPriority::Low), "task_queue:low");
    assert_eq!(result_key(1), "task_results:00000000-0000-0000-0000-000000000001");
    let lk = lease_key(0xabc);
    assert_eq!(lk, "leases:00000000-0000-0000-0000-000000000abc");
    assert_eq!(lease_key_task_id(&lk), Some(0xabc));
    assert_eq!(lease_key_task_id("task_results:00000000-0000-0000-0000-000000000abc"), None);
    assert_eq!(lease_key_task_id("leases:zzz"), None);
    assert_eq!(registry_key("w1"), "worker_registry:w1");
    assert_eq!(user_key("ann"), "users:ann");
}

#[test]
fn first_supported_task() {
    let w = caps(false, CPUArchitecture::Aarch64);
    let gpu = Some(TaskCapabilities { gpu: true, arch: CPUArchitecture::Any });
    let tasks = vec![
        None,
        Some(task(1, TaskPriority::High, gpu)),
        Some(task(2, TaskPriority::High, Some(TaskCapabilities { gpu: false, arch: CPUArchitecture::Aarch64 }))),
        Some(task(3, TaskPriority::High, None)),
    ];
    assert_eq!(first_supported(&tasks, &w), Some(2));
    assert_eq!(first_supported(&vec![None, Some(task(1, TaskPriority::Low, gpu))], &w), None);
}
