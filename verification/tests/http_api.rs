use aether::api::{
    auth_jwt_middleware, bearer_token, cancel_delivery_reply, cancel_task_handler, create_task_handler,
    create_task_with_id, create_user_handler, format_cancel_response, get_all_tasks_handler,
    get_task_handler, login_handler, login_with_token_id, register_user, CancelStep, TOKEN_LIFETIME_SECS,
};
use aether::auth::{Permission, User};
use aether::broker::{BrokerState, Message, RequestCall};
use aether::capabilities::{CPUArchitecture, WorkerCapabilities};
use aether::http::{CreateTaskRequest, CreateTaskResponse, CreateUserRequest, LoginRequest, LoginResponse};
use aether::params::{FetchTaskRequestParams, RegisterWorkerRequestParams};
use aether::storage::InMemoryStorage;
use aether::task::{TaskPriority, TaskResult, TaskStatus};

fn user(id: u128, admin: bool, permissions: Vec<Permission>) -> User {
    User {
        id,
        name: "alice".to_string(),
        password_hash: "h".to_string(),
        is_admin: admin,
        permissions,
    }
}

fn request(name: &str) -> CreateTaskRequest {
    CreateTaskRequest {
        name: name.to_string(),
        code_b64: "cHJpbnQoImhlbGxvIHdvcmxkIik=".to_string(),
        priority: TaskPriority::Medium,
        capabilities: None,
    }
}

/// A broker whose storage holds the user `admin` with password `admin`.
fn state_with_admin() -> BrokerState {
    let mut state = BrokerState::new(InMemoryStorage::new());
    state
        .storage
        .create_user(User {
            id: 42,
            name: "admin".to_string(),
            password_hash: bcrypt::hash("admin", bcrypt::DEFAULT_COST).expect("To be able to hash."),
            is_admin: true,
            permissions: vec![Permission::All],
        })
        .unwrap();
    state
}

fn login_token(state: &mut BrokerState, name: &str, password: &str, now: usize) -> Option<String> {
    let r = login_handler(state, LoginRequest { username: name.to_string(), password: password.to_string() }, now);
    match r.body {
        Some(LoginResponse::Token { jwt }) => {
            assert_eq!(r.status, 200);
            Some(jwt)
        }
        Some(LoginResponse::Refused { message }) => {
            assert_eq!(r.status, 401);
            assert_eq!(message, "Invalid username or password.");
            None
        }
        None => panic!("a login always has a body"),
    }
}

/// Submits a task as `owner` under `id` and hands it to worker `w`.
fn running_task(state: &mut BrokerState, owner: &User, id: u128, w: &str) {
    create_task_with_id(state, owner, request("task1"), id);
    let reg = Message::Request {
        id: "1".to_string(),
        call: RequestCall::RegisterWorker(Some(RegisterWorkerRequestParams {
            worker_id: w.to_string(),
            capabilities: WorkerCapabilities { gpu: false, arch: CPUArchitecture::X86_64 },
        })),
    };
    state.process_jsonrpc_message_at(Some(reg), 0);
    let f = Message::Request {
        id: "2".to_string(),
        call: RequestCall::FetchTask(Some(FetchTaskRequestParams { worker_id: w.to_string() })),
    };
    state.process_jsonrpc_message_at(Some(f), 1);
}

#[test]
fn tasks_test_create_task() {
    let mut state = state_with_admin();
    let jwt = login_token(&mut state, "admin", "admin", 1000).expect("admin logs in");
    let header = format!("Bearer {jwt}");
    let token = bearer_token(&header).unwrap();
    let admin = auth_jwt_middleware(&state, &token, 1000).expect("the token is accepted");
    let req = CreateTaskRequest {
        name: "task1".to_string(),
        code_b64: "cHJpbnQoImhlbGxvIHdvcmxkIik=".to_string(),
        priority: TaskPriority::High,
        capabilities: None,
    };
    let r = create_task_handler(&mut state, &admin, req);
    assert_eq!(r.status, 201);
    match r.body {
        Some(CreateTaskResponse::Accepted { task_id, status }) => {
            assert_eq!(status, TaskStatus::Queued);
            assert_eq!((task_id >> 76) & 0xF, 4);
            assert_eq!((task_id >> 62) & 0x3, 2);
        }
        _ => panic!("expected an accepted task"),
    }
    assert_eq!(state.storage.queued_count(TaskPriority::High), 1);
    assert_eq!(state.storage.queued_tasks(TaskPriority::High)[0].name, "task1".to_string());
}

#[test]
fn create_task_test_create_task() {
    let mut state = BrokerState::new(InMemoryStorage::new());
    let u = user(2, false, vec![Permission::CreateTask]);
    let r = create_task_with_id(&mut state, &u, request("task1"), 77);
    assert_eq!(r.status, 201);
    assert!(matches!(
        r.body,
        Some(CreateTaskResponse::Accepted { task_id: 77, status: TaskStatus::Queued })
    ));
}

#[test]
fn create_task_without_permission_is_unauthorized() {
    let mut state = BrokerState::new(InMemoryStorage::new());
    let u = user(3, false, vec![Permission::CheckTask]);
    let r = create_task_with_id(&mut state, &u, request("t"), 5);
    assert_eq!(r.status, 401);
    assert!(r.body.is_none());
    assert_eq!(state.storage.queued_count(TaskPriority::Medium), 0);
}

#[test]
fn all_permission_grants_every_action() {
    let mut state = BrokerState::new(InMemoryStorage::new());
    let u = user(3, false, vec![Permission::All]);
    assert_eq!(create_task_with_id(&mut state, &u, request("t"), 5).status, 201);
    assert_eq!(get_all_tasks_handler(&state, &u).status, 200);
}

#[test]
fn get_task_reports_each_status() {
    let mut state = BrokerState::new(InMemoryStorage::new());
    let admin = user(1, true, vec![]);
    let missing = get_task_handler(&state, &admin, 404);
    assert_eq!(missing.status, 404);
    let body = missing.body.unwrap();
    assert!(body.task.is_none());
    assert_eq!(body.error.unwrap(), "No task was found with the provided id");

    running_task(&mut state, &admin, 10, "w");
    let running = get_task_handler(&state, &admin, 10);
    assert_eq!(running.status, 200);
    let body = running.body.unwrap();
    assert_eq!(body.task.unwrap().status, TaskStatus::Running);
    assert!(body.error.is_none());

    let mut rec: TaskResult = state.storage.get_task_result(10).unwrap();
    rec.status = TaskStatus::Failed;
    state.storage.store_result(10, rec.clone());
    let failed = get_task_handler(&state, &admin, 10).body.unwrap();
    assert_eq!(failed.error.unwrap(), "An error occured parsing inputs.");

    rec.status = TaskStatus::Cancelled;
    state.storage.store_result(10, rec);
    let cancelled = get_task_handler(&state, &admin, 10).body.unwrap();
    let note = format!("{} {}", "This", "task got cancelled due too many attempts");
    assert_eq!(cancelled.error.unwrap(), note);

    let stranger = user(9, false, vec![]);
    let r = get_task_handler(&state, &stranger, 10);
    assert_eq!(r.status, 401);
    assert!(r.body.is_none());
}

#[test]
fn get_all_tasks_lists_records() {
    let mut state = BrokerState::new(InMemoryStorage::new());
    let u = user(1, false, vec![Permission::ListTasks]);
    let empty = get_all_tasks_handler(&state, &u);
    assert_eq!(empty.status, 200);
    assert!(empty.body.unwrap().tasks.is_none());
    let admin = user(1, true, vec![]);
    running_task(&mut state, &admin, 10, "w");
    let tasks = get_all_tasks_handler(&state, &u).body.unwrap().tasks.unwrap();
    assert_eq!(tasks.len(), 1);
    assert_eq!(tasks[0].id, 10);
    assert_eq!(get_all_tasks_handler(&state, &user(1, false, vec![])).status, 401);
}

#[test]
fn format_cancel_response_carries_message() {
    let r = format_cancel_response(409, "nope");
    assert_eq!(r.status, 409);
    assert_eq!(r.body.unwrap().message, "nope");
}

#[test]
fn cancel_running_task_asks_its_worker() {
    let mut state = BrokerState::new(InMemoryStorage::new());
    let admin = user(1, true, vec![]);
    running_task(&mut state, &admin, 10, "w");
    match cancel_task_handler(&state, &admin, 10) {
        CancelStep::Stop(s) => {
            assert_eq!(s.worker_id, "w");
            assert_eq!(s.task_id, 10);
        }
        CancelStep::Reply(_) => panic!("expected a stop request"),
    }
}

#[test]
fn cancel_answers() {
    let mut state = BrokerState::new(InMemoryStorage::new());
    let admin = user(1, true, vec![]);
    let reply = |s: CancelStep| match s {
        CancelStep::Reply(r) => (r.status, r.body.map(|b| b.message)),
        CancelStep::Stop(_) => panic!("expected a reply"),
    };
    assert_eq!(
        reply(cancel_task_handler(&state, &admin, 10)),
        (404, Some("The solicited task does not exist.".to_string()))
    );
    running_task(&mut state, &admin, 10, "w");
    // Only an administrator who owns the task may cancel it.
    let owner_not_admin = user(1, false, vec![Permission::CancelTask]);
    assert_eq!(reply(cancel_task_handler(&state, &owner_not_admin, 10)), (401, None));
    let other_admin = user(2, true, vec![]);
    assert_eq!(reply(cancel_task_handler(&state, &other_admin, 10)), (401, None));
    assert_eq!(reply(cancel_task_handler(&state, &user(1, false, vec![]), 10)), (401, None));

    let mut rec = state.storage.get_task_result(10).unwrap();
    rec.status = TaskStatus::Completed;
    state.storage.store_result(10, rec.clone());
    assert_eq!(
        reply(cancel_task_handler(&state, &admin, 10)),
        (409, Some("Cannot cancel an already completed task.".to_string()))
    );
    rec.status = TaskStatus::Cancelled;
    state.storage.store_result(10, rec.clone());
    assert_eq!(
        reply(cancel_task_handler(&state, &admin, 10)),
        (200, Some("Task was already cancelled.".to_string()))
    );
    rec.status = TaskStatus::Running;
    state.storage.store_result(10, rec);
    state.storage.remove_lease(10);
    assert_eq!(
        reply(cancel_task_handler(&state, &admin, 10)),
        (500, Some("Could not retrieve the task lease.".to_string()))
    );
}

#[test]
fn cancel_delivery_answers() {
    let ok = cancel_delivery_reply(0x0123456789abcdef0123456789abcdef, true);
    assert_eq!(ok.status, 200);
    assert_eq!(
        ok.body.unwrap().message,
        "Task 01234567-89ab-cdef-0123-456789abcdef cancelled successfully."
    );
    let failed = cancel_delivery_reply(1, false);
    assert_eq!(failed.status, 500);
    assert_eq!(failed.body.unwrap().message, "Failed to send stop_execution_notification");
}

#[test]
fn create_user_files_the_user() {
    let mut state = BrokerState::new(InMemoryStorage::new());
    let req = CreateUserRequest {
        username: "bob".to_string(),
        password: "pw".to_string(),
        is_admin: false,
        permissions: vec![Permission::CheckTask],
    };
    assert_eq!(register_user(&mut state, req, Some("$2b$12$hash".to_string()), 3), 201);
    let u = state.storage.get_user("bob").unwrap().unwrap();
    assert_eq!(u.id, 3);
    assert_eq!(u.password_hash, "$2b$12$hash");
    assert_eq!(u.permissions, vec![Permission::CheckTask]);
    let req2 = CreateUserRequest {
        username: "carol".to_string(),
        password: "pw".to_string(),
        is_admin: true,
        permissions: vec![],
    };
    assert_eq!(register_user(&mut state, req2, None, 4), 500);
    assert!(state.storage.get_user("carol").unwrap().is_none());
}

#[test]
fn create_user_handler_hashes_with_bcrypt() {
    let mut state = BrokerState::new(InMemoryStorage::new());
    let req = CreateUserRequest {
        username: "dave".to_string(),
        password: "secret".to_string(),
        is_admin: true,
        permissions: vec![],
    };
    assert_eq!(create_user_handler(&mut state, req), 201);
    let u = state.storage.get_user("dave").unwrap().unwrap();
    assert_eq!(u.password_hash.len(), 60);
    assert!(u.password_hash.starts_with("$2b$12$"));
    assert!(u.password_hash != "secret");
    assert!(u.is_admin);
    assert!(bcrypt::verify("secret", &u.password_hash).unwrap());
    assert!(login_token(&mut state, "dave", "secret", 5).is_some());
    assert!(login_token(&mut state, "dave", "", 5).is_none());
}

#[test]
fn login_checks_the_password() {
    let mut state = state_with_admin();
    assert_eq!(login_token(&mut state, "admin", "wrong", 10), None);
    assert_eq!(login_token(&mut state, "nobody", "admin", 10), None);
    assert_eq!(state.logins.len(), 0);
    let jwt = login_token(&mut state, "admin", "admin", 10).unwrap();
    assert_eq!(jwt.len(), 36);
    assert_eq!(state.logins.len(), 1);
}

#[test]
fn login_issues_claims() {
    let mut state = state_with_admin();
    let r = login_with_token_id(
        &mut state,
        LoginRequest { username: "admin".to_string(), password: "admin".to_string() },
        100,
        7,
    );
    assert_eq!(r.status, 200);
    match r.body {
        Some(LoginResponse::Token { jwt }) => assert_eq!(jwt, "00000000-0000-0000-0000-000000000007"),
        _ => panic!("expected a token"),
    }
    let c = state.logins.get(7).unwrap();
    assert_eq!(c.username, "admin");
    assert_eq!(c.exp, 100 + TOKEN_LIFETIME_SECS);
    assert_eq!(c.iat, 100);
    assert_eq!(c.user_id, 42);
    assert_eq!(c.sub, "00000000-0000-0000-0000-00000000002a");
    assert_eq!(c.iss, "aether");
    assert!(c.is_admin);
    assert_eq!(c.permissions, vec!["All".to_string()]);
}

#[test]
fn bearer_token_strips_scheme() {
    assert_eq!(bearer_token("Bearer abc.def"), Some("abc.def".to_string()));
    assert_eq!(bearer_token("Bearer "), Some(String::new()));
    assert_eq!(bearer_token("Basic abc"), None);
    assert_eq!(bearer_token("bearer abc"), None);
}

#[test]
fn middleware_admits_known_unexpired_users() {
    let mut state = state_with_admin();
    let jwt = login_token(&mut state, "admin", "admin", 100).unwrap();
    assert_eq!(auth_jwt_middleware(&state, &jwt, 100).unwrap().id, 42);
    assert_eq!(auth_jwt_middleware(&state, &jwt, 100 + TOKEN_LIFETIME_SECS).unwrap().name, "admin");
    assert!(auth_jwt_middleware(&state, &jwt, 101 + TOKEN_LIFETIME_SECS).is_none());
    assert!(auth_jwt_middleware(&state, "Placeholder", 100).is_none());
    assert!(auth_jwt_middleware(&state, "00000000-0000-0000-0000-000000000099", 100).is_none());
}
