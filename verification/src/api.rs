//! What the broker's HTTP endpoints answer: submitting, querying and
//! cancelling tasks, creating users, and checking a login token.

use crate::auth::{spec_can, JWTClaims, Permission, User};
use crate::broker::{BrokerModel, BrokerState, StopExecution};
use crate::external::{
    bcrypt_verifies, hash_password, is_v4, new_uuid, parse_uuid, uuid_hyphenated, uuid_parse, uuid_string,
    verify_password,
};
use crate::http::{
    CancelTaskResponse, CreateTaskRequest, CreateTaskResponse, CreateUserRequest, GetAllTasksResponse,
    GetTaskResponse, HttpReply, LoginRequest, LoginResponse,
};
use crate::storage::{enqueued, StorageModel};
use crate::task::{Task, TaskId, TaskResult, TaskStatus};
use vstd::string::StrSliceExecFns;
use vstd::prelude::*;
use vstd::string::StringSliceAdditionalSpecFns;
use vstd::utf8::encode_utf8;

verus! {

/// `r` refuses the request as unauthorized, with no body.
pub open spec fn is_unauthorized<T>(r: HttpReply<T>) -> bool {
    r.status == 401 && r.body is None
}

/// The task a submission by `user` creates under the id `id`.
pub open spec fn submitted_task(user: User, req: CreateTaskRequest, id: TaskId) -> Task {
    Task {
        id,
        owner_id: user.id,
        name: req.name,
        code_b64: req.code_b64,
        priority: req.priority,
        capabilities: req.capabilities,
    }
}

/// What a submission does: a user without the right is refused and nothing
/// changes; otherwise the task is queued under `id` and the answer is
/// "created", with the id and the status `Queued`.
pub open spec fn task_submitted(
    before: BrokerModel,
    after: BrokerModel,
    user: User,
    req: CreateTaskRequest,
    id: TaskId,
    r: HttpReply<CreateTaskResponse>,
) -> bool {
    if !spec_can(user, Permission::CreateTask) {
        is_unauthorized(r) && after == before
    } else {
        &&& r.status == 201
        &&& r.body == Some(CreateTaskResponse::Accepted { task_id: id, status: TaskStatus::Queued })
        &&& after.sessions == before.sessions
        &&& enqueued(before.storage, after.storage, submitted_task(user, req, id))
    }
}

/// Submits a task under the id `id`.
pub fn create_task_with_id(
    state: &mut BrokerState,
    user: &User,
    req: CreateTaskRequest,
    id: TaskId,
) -> (r: HttpReply<CreateTaskResponse>)
    requires
        old(state).wf(),
    ensures
        final(state).wf(),
        task_submitted(old(state)@, final(state)@, *user, req, id, r),
{
    if !user.can(Permission::CreateTask) {
        return HttpReply { status: 401, body: None };
    }
    let task = Task {
        id,
        owner_id: user.id,
        name: req.name,
        code_b64: req.code_b64,
        priority: req.priority,
        capabilities: req.capabilities,
    };
    match state.storage.enqueue_task(task) {
        Ok(()) => HttpReply {
            status: 201,
            body: Some(CreateTaskResponse::Accepted { task_id: id, status: TaskStatus::Queued }),
        },
        Err(_) => HttpReply {
            status: 500,
            body: Some(CreateTaskResponse::Error { message: "Could not create task successfully.".to_owned() }),
        },
    }
}

/// `POST /api/v1/tasks`: submits a task under a fresh random (version 4)
/// id.
pub fn create_task_handler(state: &mut BrokerState, user: &User, req: CreateTaskRequest) -> (r: HttpReply<
    CreateTaskResponse,
>)
    requires
        old(state).wf(),
    ensures
        final(state).wf(),
        exists|id: TaskId| is_v4(id) && task_submitted(old(state)@, final(state)@, *user, req, id, r),
{
    let id = new_uuid();
    create_task_with_id(state, user, req, id)
}

/// `r` carries the record `t` and the error text `e`, if any.
pub open spec fn task_reply(r: HttpReply<GetTaskResponse>, status: u16, t: Option<TaskResult>, e: Option<Seq<char>>) -> bool {
    &&& r.status == status
    &&& r.body matches Some(b) && b.task == t && match e {
        None => b.error is None,
        Some(msg) => b.error matches Some(m) && m@ == msg,
    }
}

/// The note a query shows for a cancelled task.
pub open spec fn cancelled_note() -> Seq<char> {
    "This"@ + " task got cancelled due too many attempts"@
}

fn cancelled_note_text() -> (r: String)
    ensures
        r@ == cancelled_note(),
{
    let mut s = "This".to_owned();
    s.append(" task got cancelled due too many attempts");
    s
}

/// The answer to a query about task `id`: unauthorized without the right;
/// not found without a record; otherwise the record, with an error text
/// for a failed or cancelled task.
pub open spec fn task_query_answer(m: BrokerModel, user: User, id: TaskId, r: HttpReply<GetTaskResponse>) -> bool {
    if !spec_can(user, Permission::CheckTask) {
        is_unauthorized(r)
    } else if !m.storage.results.contains_key(id) {
        task_reply(r, 404, None, Some("No task was found with the provided id"@))
    } else {
        let t = m.storage.results[id];
        if t.status == TaskStatus::Failed {
            task_reply(r, 200, Some(t), Some("An error occured parsing inputs."@))
        } else if t.status == TaskStatus::Cancelled {
            task_reply(r, 200, Some(t), Some(cancelled_note()))
        } else {
            task_reply(r, 200, Some(t), None)
        }
    }
}

/// `GET /api/v1/tasks/{task_id}`.
pub fn get_task_handler(state: &BrokerState, user: &User, task_id: TaskId) -> (r: HttpReply<GetTaskResponse>)
    requires
        state.wf(),
    ensures
        task_query_answer(state@, *user, task_id, r),
{
    if !user.can(Permission::CheckTask) {
        return HttpReply { status: 401, body: None };
    }
    match state.storage.get_task_result(task_id) {
        Some(task) => {
            let error = match task.status {
                TaskStatus::Failed => Some("An error occured parsing inputs.".to_owned()),
                TaskStatus::Cancelled => Some(cancelled_note_text()),
                _ => None,
            };
            HttpReply { status: 200, body: Some(GetTaskResponse { task: Some(task), error }) }
        },
        None => HttpReply {
            status: 404,
            body: Some(
                GetTaskResponse { task: None, error: Some("No task was found with the provided id".to_owned()) },
            ),
        },
    }
}

/// `GET /api/v1/tasks`: every record, oldest first, or none when there is
/// none; unauthorized without the right.
pub fn get_all_tasks_handler(state: &BrokerState, user: &User) -> (r: HttpReply<GetAllTasksResponse>)
    requires
        state.wf(),
    ensures
        !spec_can(*user, Permission::ListTasks) ==> is_unauthorized(r),
        spec_can(*user, Permission::ListTasks) ==> r.status == 200 && (r.body matches Some(b) && match b.tasks {
            None => state.storage.result_entries().len() == 0,
            Some(v) => state.storage.result_entries().len() > 0 && v@ == state.storage.result_entries().map_values(
                |e: (TaskId, TaskResult)| e.1,
            ),
        }),
{
    if !user.can(Permission::ListTasks) {
        return HttpReply { status: 401, body: None };
    }
    let tasks = state.storage.get_all_tasks();
    HttpReply { status: 200, body: Some(GetAllTasksResponse { tasks }) }
}

/// A cancellation answer with status `status` and text `message`.
pub fn format_cancel_response(status: u16, message: &str) -> (r: HttpReply<CancelTaskResponse>)
    ensures
        cancel_reply(r, status, message@),
{
    HttpReply { status, body: Some(CancelTaskResponse { message: message.to_owned() }) }
}

/// `r` has status `status` and the text `msg`.
pub open spec fn cancel_reply(r: HttpReply<CancelTaskResponse>, status: u16, msg: Seq<char>) -> bool {
    r.status == status && (r.body matches Some(b) && b.message@ == msg)
}

/// The first step of a cancellation: answer at once, or ask a worker to
/// stop the task and answer once the request went out (or did not).
pub enum CancelStep {
    Reply(HttpReply<CancelTaskResponse>),
    Stop(StopExecution),
}

/// The first step of cancelling task `id`. Unauthorized without the right,
/// or when the user is not an administrator who owns the task; not found
/// without a record; a conflict for a completed task; nothing to do for a
/// cancelled one; otherwise its worker is asked to stop it when the task
/// has a lease and that worker a session, and it is an internal error when
/// not.
pub open spec fn cancel_step_of(m: BrokerModel, user: User, id: TaskId, s: CancelStep) -> bool {
    if !spec_can(user, Permission::CancelTask) {
        s matches CancelStep::Reply(r) && is_unauthorized(r)
    } else if !m.storage.results.contains_key(id) {
        s matches CancelStep::Reply(r) && cancel_reply(r, 404, "The solicited task does not exist."@)
    } else if m.storage.results[id].owner_id != user.id || !user.is_admin {
        s matches CancelStep::Reply(r) && is_unauthorized(r)
    } else if m.storage.results[id].status == TaskStatus::Completed {
        s matches CancelStep::Reply(r) && cancel_reply(r, 409, "Cannot cancel an already completed task."@)
    } else if m.storage.results[id].status == TaskStatus::Cancelled {
        s matches CancelStep::Reply(r) && cancel_reply(r, 200, "Task was already cancelled."@)
    } else if m.storage.leases.contains_key(id) && m.sessions.contains_key(m.storage.leases[id].worker_id@) {
        s matches CancelStep::Stop(st) && st.worker_id@ == m.storage.leases[id].worker_id@ && st.task_id == id
    } else {
        s matches CancelStep::Reply(r) && cancel_reply(r, 500, "Could not retrieve the task lease."@)
    }
}

/// `POST /api/v1/tasks/{task_id}/cancel`, up to the stop request.
pub fn cancel_task_handler(state: &BrokerState, user: &User, task_id: TaskId) -> (r: CancelStep)
    requires
        state.wf(),
    ensures
        cancel_step_of(state@, *user, task_id, r),
{
    if !user.can(Permission::CancelTask) {
        return CancelStep::Reply(HttpReply { status: 401, body: None });
    }
    let tr = match state.storage.get_task_result(task_id) {
        Some(tr) => tr,
        None => {
            return CancelStep::Reply(format_cancel_response(404, "The solicited task does not exist."));
        },
    };
    if tr.owner_id != user.id || !user.is_admin {
        return CancelStep::Reply(HttpReply { status: 401, body: None });
    }
    match tr.status {
        TaskStatus::Completed => CancelStep::Reply(
            format_cancel_response(409, "Cannot cancel an already completed task."),
        ),
        TaskStatus::Cancelled => CancelStep::Reply(format_cancel_response(200, "Task was already cancelled.")),
        _ => {
            match state.storage.get_lease(task_id) {
                Some(lease) => {
                    if state.worker_sessions.contains_key(lease.worker_id.as_str()) {
                        CancelStep::Stop(StopExecution { worker_id: lease.worker_id, task_id })
                    } else {
                        CancelStep::Reply(format_cancel_response(500, "Could not retrieve the task lease."))
                    }
                },
                None => CancelStep::Reply(format_cancel_response(500, "Could not retrieve the task lease.")),
            }
        },
    }
}

/// The answer once the stop request for task `task_id` was handed to its
/// worker's connection (`sent`) or could not be.
pub fn cancel_delivery_reply(task_id: TaskId, sent: bool) -> (r: HttpReply<CancelTaskResponse>)
    ensures
        sent ==> cancel_reply(r, 200, "Task "@ + uuid_hyphenated(task_id) + " cancelled successfully."@),
        !sent ==> cancel_reply(r, 500, "Failed to send stop_execution_notification"@),
{
    if sent {
        let mut msg = "Task ".to_owned();
        let id = uuid_string(task_id);
        msg.append(id.as_str());
        msg.append(" cancelled successfully.");
        format_cancel_response(200, msg.as_str())
    } else {
        format_cancel_response(500, "Failed to send stop_execution_notification")
    }
}

/// The user a creation request describes, under the id `id` and with the
/// password hash `password_hash`.
pub open spec fn requested_user(req: CreateUserRequest, id: TaskId, password_hash: String) -> User {
    User {
        id,
        name: req.username,
        password_hash,
        is_admin: req.is_admin,
        permissions: req.permissions,
    }
}

/// What filing a user does: without a password hash it is an internal
/// error (500) and nothing changes; with one it is created (201), and the
/// user is added unless a record equal in every field is already on file.
pub open spec fn user_registered(
    before: BrokerModel,
    after: BrokerModel,
    req: CreateUserRequest,
    password_hash: Option<String>,
    id: TaskId,
    r: u16,
) -> bool {
    match password_hash {
        None => r == 500 && after == before,
        Some(h) => {
            let u = requested_user(req, id, h);
            let s = before.storage;
            &&& r == 201
            &&& after.sessions == before.sessions
            &&& if exists|i: int| 0 <= i < s.users.len() && crate::auth::same_user(s.users[i], u) {
                after.storage == s
            } else {
                after.storage == (StorageModel { users: s.users.push(u), ..s })
            }
        },
    }
}

/// Files the user a creation request describes, once its password was
/// hashed (`None` when hashing failed).
pub fn register_user(state: &mut BrokerState, req: CreateUserRequest, password_hash: Option<String>, id: TaskId) -> (r: u16)
    requires
        old(state).wf(),
    ensures
        final(state).wf(),
        user_registered(old(state)@, final(state)@, req, password_hash, id, r),
{
    match password_hash {
        None => 500,
        Some(h) => {
            let user = User {
                id,
                name: req.username,
                password_hash: h,
                is_admin: req.is_admin,
                permissions: req.permissions,
            };
            match state.storage.create_user(user) {
                Ok(()) => 201,
                Err(_) => 500,
            }
        },
    }
}

/// `POST /api/v1/users`: hashes the password with bcrypt (a random salt, so
/// the hash is not fixed; a hash that is made is a bcrypt hash at the
/// default cost) and files the user under a fresh random id.
pub fn create_user_handler(state: &mut BrokerState, req: CreateUserRequest) -> (r: u16)
    requires
        old(state).wf(),
    ensures
        final(state).wf(),
        exists|h: Option<String>, id: TaskId|
            #![trigger user_registered(old(state)@, final(state)@, req, h, id, r)]
            is_v4(id) && (h matches Some(hs) ==> hs@.len() == 60 && hs@.subrange(0, 7) == "$2b$12$"@
                && bcrypt_verifies(encode_utf8(req.password@), hs@)) && user_registered(
                old(state)@,
                final(state)@,
                req,
                h,
                id,
                r,
            ),
{
    let hashed = match hash_password(req.password.as_str()) {
        Ok(h) => Some(h),
        Err(_) => None,
    };
    let id = new_uuid();
    let ghost req0 = req;
    let r = register_user(state, req, hashed, id);
    assert(user_registered(old(state)@, final(state)@, req0, hashed, id, r));
    r
}

/// How long a login token stays valid, in seconds.
pub const TOKEN_LIFETIME_SECS: usize = 86400;

/// When a token issued at `now` expires (the largest time there is, when
/// the sum would not fit).
pub open spec fn token_expiry(now: usize) -> usize {
    if now <= usize::MAX - TOKEN_LIFETIME_SECS {
        (now + TOKEN_LIFETIME_SECS) as usize
    } else {
        usize::MAX
    }
}

/// The name a token's claims give a permission.
pub open spec fn permission_name(p: Permission) -> Seq<char> {
    match p {
        Permission::CreateTask => "CreateTask"@,
        Permission::CheckTask => "CheckTask"@,
        Permission::ListTasks => "ListTasks"@,
        Permission::CancelTask => "CancelTask"@,
        Permission::All => "All"@,
    }
}

/// `i` is the position of the first user named `name`.
pub open spec fn first_named(users: Seq<User>, name: Seq<char>, i: int) -> bool {
    &&& 0 <= i < users.len()
    &&& users[i].name@ == name
    &&& forall|j: int| 0 <= j < i ==> users[j].name@ != name
}

/// The claims a login at `now` (seconds since the UNIX epoch) issues for
/// the user `u`.
pub open spec fn issued_for(c: JWTClaims, u: User, now: usize) -> bool {
    &&& c.sub@ == uuid_hyphenated(u.id)
    &&& c.exp == token_expiry(now)
    &&& c.iat == now
    &&& c.iss@ == "aether"@
    &&& c.user_id == u.id
    &&& c.username@ == u.name@
    &&& c.is_admin == u.is_admin
    &&& c.permissions@.len() == u.permissions@.len()
    &&& forall|k: int| 0 <= k < c.permissions@.len() ==> #[trigger] c.permissions@[k]@ == permission_name(u.permissions@[k])
}

/// The user named `name` on file accepts `password`: the first user of
/// that name is at `i` and bcrypt accepts the password for its hash.
pub open spec fn accepts(users: Seq<User>, name: Seq<char>, password: Seq<char>, i: int) -> bool {
    first_named(users, name, i) && bcrypt_verifies(encode_utf8(password), users[i].password_hash@)
}

/// What a login at `now` answers and does: when the first user of that name
/// accepts the password, the token with id `id` (its hyphenated UUID text)
/// is issued for that user and the answer is 200 with the token; otherwise
/// the login is refused with 401 and nothing changes.
pub open spec fn login_answer(
    before: BrokerModel,
    after: BrokerModel,
    req: LoginRequest,
    now: usize,
    id: u128,
    r: HttpReply<LoginResponse>,
) -> bool {
    let users = before.storage.users;
    if exists|i: int| accepts(users, req.username@, req.password@, i) {
        let i = choose|i: int| accepts(users, req.username@, req.password@, i);
        &&& r.status == 200
        &&& r.body matches Some(LoginResponse::Token { jwt }) && jwt@ == uuid_hyphenated(id) && uuid_parse(jwt@) == Some(id)
        &&& after.storage == before.storage
        &&& after.sessions == before.sessions
        &&& after.logins == before.logins.insert(id, after.logins[id])
        &&& issued_for(after.logins[id], users[i], now)
    } else {
        &&& r.status == 401
        &&& r.body matches Some(LoginResponse::Refused { message }) && message@ == "Invalid username or password."@
        &&& after == before
    }
}

fn permission_text(p: Permission) -> (r: String)
    ensures
        r@ == permission_name(p),
{
    match p {
        Permission::CreateTask => "CreateTask".to_owned(),
        Permission::CheckTask => "CheckTask".to_owned(),
        Permission::ListTasks => "ListTasks".to_owned(),
        Permission::CancelTask => "CancelTask".to_owned(),
        Permission::All => "All".to_owned(),
    }
}

/// The claims a login at `now` issues for `u`.
fn claims_for(u: &User, now: usize) -> (c: JWTClaims)
    ensures
        issued_for(c, *u, now),
{
    let mut permissions: Vec<String> = Vec::new();
    let mut k: usize = 0;
    while k < u.permissions.len()
        invariant
            k <= u.permissions@.len(),
            permissions@.len() == k,
            forall|m: int| 0 <= m < k ==> #[trigger] permissions@[m]@ == permission_name(u.permissions@[m]),
        decreases u.permissions@.len() - k,
    {
        permissions.push(permission_text(u.permissions[k]));
        k = k + 1;
    }
    let exp = if now <= usize::MAX - TOKEN_LIFETIME_SECS {
        now + TOKEN_LIFETIME_SECS
    } else {
        usize::MAX
    };
    JWTClaims {
        sub: uuid_string(u.id),
        exp,
        iat: now,
        iss: "aether".to_owned(),
        user_id: u.id,
        username: u.name.clone(),
        is_admin: u.is_admin,
        permissions,
    }
}

fn refused_login() -> (r: HttpReply<LoginResponse>)
    ensures
        r.status == 401,
        r.body matches Some(LoginResponse::Refused { message }) && message@ == "Invalid username or password."@,
{
    HttpReply {
        status: 401,
        body: Some(LoginResponse::Refused { message: "Invalid username or password.".to_owned() }),
    }
}

/// Logs a user in at `now` (seconds since the UNIX epoch), issuing the
/// token with id `token_id` when the password is right.
pub fn login_with_token_id(state: &mut BrokerState, req: LoginRequest, now: usize, token_id: u128) -> (r: HttpReply<
    LoginResponse,
>)
    requires
        old(state).wf(),
    ensures
        final(state).wf(),
        login_answer(old(state)@, final(state)@, req, now, token_id, r),
{
    let ghost users = state@.storage.users;
    let found = state.storage.get_user(req.username.as_str());
    assert(state@.storage == state.storage@);
    let u = match found {
        Ok(Some(u)) => u,
        _ => {
            assert forall|i: int| !accepts(users, req.username@, req.password@, i) by {}
            return refused_login();
        },
    };
    let ghost i = choose|i: int|
        0 <= i < users.len() && users[i].name@ == req.username@ && crate::auth::same_user(u, users[i])
            && forall|j: int| 0 <= j < i ==> users[j].name@ != req.username@;
    assert(first_named(users, req.username@, i));
    assert forall|j: int| first_named(users, req.username@, j) implies j == i by {
        if j < i {
            assert(users[j].name@ != req.username@);
        }
        if i < j {
            assert(users[i].name@ != req.username@);
        }
    }
    if !verify_password(req.password.as_str(), u.password_hash.as_str()) {
        assert forall|k: int| !accepts(users, req.username@, req.password@, k) by {
            if accepts(users, req.username@, req.password@, k) {
                assert(k == i);
            }
        }
        return refused_login();
    }
    assert(accepts(users, req.username@, req.password@, i));
    let claims = claims_for(&u, now);
    assert(issued_for(claims, users[i], now));
    let ghost before = state@;
    let _ = state.logins.insert(token_id, claims);
    let jwt = uuid_string(token_id);
    proof {
        let c = choose|k: int| accepts(users, req.username@, req.password@, k);
        assert(accepts(users, req.username@, req.password@, c));
        assert(c == i);
        assert(state@.logins == before.logins.insert(token_id, state@.logins[token_id]));
    }
    HttpReply { status: 200, body: Some(LoginResponse::Token { jwt }) }
}

/// `POST /api/v1/auth/login`: checks the password against the user's
/// bcrypt hash and, when it matches, issues a token with a fresh random id.
pub fn login_handler(state: &mut BrokerState, req: LoginRequest, now: usize) -> (r: HttpReply<LoginResponse>)
    requires
        old(state).wf(),
    ensures
        final(state).wf(),
        exists|id: u128| is_v4(id) && login_answer(old(state)@, final(state)@, req, now, id, r),
{
    let id = new_uuid();
    login_with_token_id(state, req, now, id)
}

/// The user a token admits at `now`: the token must be the text of the id
/// of a login on file that has not expired; the user is then the first one
/// named in its claims, if there is one.
pub open spec fn admitted(m: BrokerModel, token: Seq<char>, now: usize, r: Option<User>) -> bool {
    match uuid_parse(token) {
        Some(id) => if m.logins.contains_key(id) && now <= m.logins[id].exp {
            let name = m.logins[id].username@;
            match r {
                None => forall|i: int| 0 <= i < m.storage.users.len() ==> m.storage.users[i].name@ != name,
                Some(u) => exists|i: int|
                    first_named(m.storage.users, name, i) && crate::auth::same_user(u, m.storage.users[i]),
            }
        } else {
            r is None
        },
        None => r is None,
    }
}

/// A token from a successful login admits the user who logged in, from the
/// moment it was issued until it expires.
pub proof fn law_login_token_admits_user(
    before: BrokerModel,
    after: BrokerModel,
    req: LoginRequest,
    now: usize,
    id: u128,
    r: HttpReply<LoginResponse>,
    t: usize,
    found: Option<User>,
)
    requires
        login_answer(before, after, req, now, id, r),
        r.status == 200,
        now <= t <= token_expiry(now),
        r.body matches Some(LoginResponse::Token { jwt }) && admitted(after, jwt@, t, found),
    ensures
        found matches Some(u) && u.name@ == req.username@,
{
    let users = before.storage.users;
    let i = choose|i: int| accepts(users, req.username@, req.password@, i);
    assert(after.logins.contains_key(id));
    assert(after.logins[id].username@ == req.username@);
    if found is None {
        assert(after.storage.users[i].name@ == req.username@);
    }
}

/// The token of an `Authorization` header value: what follows `Bearer `.
pub fn bearer_token(header: &str) -> (r: Option<String>)
    ensures
        crate::text::starts_with(header@, "Bearer "@) ==> (r matches Some(t) && header@ == "Bearer "@ + t@),
        !crate::text::starts_with(header@, "Bearer "@) ==> r is None,
{
    proof {
        reveal_strlit("Bearer ");
    }
    let chars = crate::text::chars_of(header);
    let prefix = crate::text::chars_of("Bearer ");
    if !crate::text::vec_starts_with(&chars, &prefix) {
        return None;
    }
    let n = header.unicode_len();
    let t = header.substring_char(prefix.len(), n).to_owned();
    assert(header@ =~= "Bearer "@ + t@);
    Some(t)
}

/// `auth` middleware: the user the bearer token `token` admits at `now`
/// (seconds since the UNIX epoch).
pub fn auth_jwt_middleware(state: &BrokerState, token: &str, now: usize) -> (r: Option<User>)
    requires
        state.wf(),
    ensures
        admitted(state@, token@, now, r),
{
    let id = match parse_uuid(token) {
        Some(id) => id,
        None => return None,
    };
    let claims = match state.logins.get(id) {
        Some(c) => c,
        None => return None,
    };
    if crate::auth::token_expired(now, claims.exp) {
        return None;
    }
    let found = state.storage.get_user(claims.username.as_str());
    assert(state@.storage == state.storage@);
    match found {
        Ok(Some(u)) => {
            proof {
                let users = state@.storage.users;
                let name = claims.username@;
                let i = choose|i: int|
                    0 <= i < users.len() && users[i].name@ == name && crate::auth::same_user(u, users[i])
                        && forall|j: int| 0 <= j < i ==> users[j].name@ != name;
                assert(first_named(users, name, i));
            }
            Some(u)
        },
        Ok(None) => None,
        Err(_) => None,
    }
}

} // verus!
