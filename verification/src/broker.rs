//! The broker's side of the JSON-RPC protocol: registering workers, handing
//! out tasks, taking heartbeats and results, handling shutdowns, and the
//! periodic checks for silent workers and overdue tasks.

use crate::jrpc::{JsonRpcError, JsonRpcErrorCode};
use crate::auth::JWTClaims;
use crate::maps::{IdMap, NameMap};
use crate::params::{
    FetchTaskRequestParams, HeartbeatNotificationParams, RegisterWorkerRequestParams,
    WorkerShutdownNotificationParams,
};
use crate::storage::{
    dequeued, failure_marked, leases_without_worker, InMemoryStorage, StorageError, StorageModel,
    WorkerInfo,
};
use crate::task::{requeued_task, Lease, Task, TaskId, TaskResult, TaskStatus, Timestamp};
use vstd::prelude::*;

verus! {

/// How many failed attempts a task may have before the broker asks its
/// worker to stop it.
pub const MAX_ATTEMPTS: usize = 5;

/// How long a worker may stay silent before it is marked inactive.
pub const HEARTBEAT_TIMEOUT_MS: u64 = 10000;

/// How long a task may run before the broker asks its worker to stop it.
pub const MAX_EXECUTION_TIME_MS: u64 = 30000;

/// The broker's state: its storage, the workers with an open session, and
/// the claims of each login token it issued, by the token's id.
pub struct BrokerState {
    pub storage: InMemoryStorage,
    pub worker_sessions: NameMap<Timestamp>,
    pub logins: IdMap<JWTClaims>,
}

/// The abstract state of a broker.
#[verifier::ext_equal]
pub struct BrokerModel {
    pub storage: StorageModel,
    pub sessions: Map<Seq<char>, Timestamp>,
    pub logins: Map<u128, JWTClaims>,
}

impl View for BrokerState {
    type V = BrokerModel;

    open spec fn view(&self) -> BrokerModel {
        BrokerModel { storage: self.storage@, sessions: self.worker_sessions@, logins: self.logins@ }
    }
}

/// A parsed request: the method and, when they could be read, its
/// parameters.
pub enum RequestCall {
    RegisterWorker(Option<RegisterWorkerRequestParams>),
    FetchTask(Option<FetchTaskRequestParams>),
    Unknown(String),
}

/// A parsed notification: the method and, when they could be read, its
/// parameters.
pub enum NotificationCall {
    Heartbeat(Option<HeartbeatNotificationParams>),
    ReportResult(Option<TaskResult>),
    WorkerShutdown(Option<WorkerShutdownNotificationParams>),
    Unknown,
}

/// A message from a worker: a request, which gets a response, or a
/// notification, which does not.
pub enum Message {
    Request { id: String, call: RequestCall },
    Notification(NotificationCall),
}

/// The result a successful response carries.
#[derive(Debug)]
pub enum RpcResult {
    /// `{"status": "registered"}`.
    Registered,
    /// A `FetchTaskResponseResult`.
    Fetched(Option<Task>),
}

/// A response to a request.
pub struct RpcReply {
    pub id: String,
    pub result: Option<RpcResult>,
    pub error: Option<JsonRpcError>,
}

/// A `stop_execution` notification to send to a worker.
#[derive(Debug)]
pub struct StopExecution {
    pub worker_id: String,
    pub task_id: TaskId,
}

/// What processing a message produced: the response to send, if any, the
/// workers to ask to stop a task, and a storage failure to log.
pub struct Dispatch {
    pub reply: Option<RpcReply>,
    pub stops: Vec<StopExecution>,
    pub failure: Option<StorageError>,
}

/// `r` answers request `id` with an error of kind `code` and text `msg`.
pub open spec fn is_error_reply(r: RpcReply, id: Seq<char>, code: JsonRpcErrorCode, msg: Seq<char>) -> bool {
    &&& r.id@ == id
    &&& r.result is None
    &&& r.error matches Some(e) && e.code == code && e.message@ == msg && e.data is None
}

/// `r` answers request `id` with `res`.
pub open spec fn is_result_reply(r: RpcReply, id: Seq<char>, res: RpcResult) -> bool {
    &&& r.id@ == id
    &&& r.result == Some(res)
    &&& r.error is None
}

/// The stop requests as (worker, task) pairs.
pub open spec fn stop_pairs(s: Seq<StopExecution>) -> Seq<(Seq<char>, TaskId)> {
    s.map_values(|x: StopExecution| (x.worker_id@, x.task_id))
}

/// What registering does: a known worker is refreshed (heartbeat now,
/// active) and keeps what else it had; a new worker is filed with the
/// capabilities it announced; either way it gets a session opened now.
pub open spec fn registered(before: BrokerModel, after: BrokerModel, p: RegisterWorkerRequestParams, now: Timestamp) -> bool {
    let w = p.worker_id@;
    let info = if before.storage.workers.contains_key(w) {
        WorkerInfo { last_heartbeat: now, active: true, ..before.storage.workers[w] }
    } else {
        WorkerInfo { worker_id: p.worker_id, last_heartbeat: now, active: true, capabilities: p.capabilities }
    };
    after == (BrokerModel {
        storage: StorageModel { workers: before.storage.workers.insert(w, info), ..before.storage },
        sessions: before.sessions.insert(w, now),
        ..before
    })
}

/// What a fetch does: a worker that is not registered, or not active, gets
/// an error and nothing changes; an active worker gets the task that
/// `dequeue_task` hands it for its registered capabilities, or none.
pub open spec fn fetched(before: BrokerModel, after: BrokerModel, p: FetchTaskRequestParams, now: Timestamp, id: Seq<char>, r: RpcReply) -> bool {
    let w = p.worker_id@;
    if !before.storage.workers.contains_key(w) {
        after == before && is_error_reply(r, id, JsonRpcErrorCode::InvalidRequest, "Cannot fetch task from non-registered worker."@)
    } else if !before.storage.workers[w].active {
        after == before && is_error_reply(r, id, JsonRpcErrorCode::InvalidRequest, "Cannot fetch task from an inactive worker"@)
    } else {
        &&& r.id@ == id
        &&& r.error is None
        &&& r.result matches Some(RpcResult::Fetched(t))
        &&& dequeued(before.storage, after.storage, w, before.storage.workers[w].capabilities, now, t)
        &&& after.sessions == before.sessions
    }
}

/// What a heartbeat does: a registered worker's heartbeat time becomes
/// `now`; anything else changes nothing.
pub open spec fn heartbeat_applied(before: BrokerModel, after: BrokerModel, p: Option<HeartbeatNotificationParams>, now: Timestamp) -> bool {
    if p is Some && before.storage.workers.contains_key(p->Some_0.worker_id@) {
        let w = p->Some_0.worker_id@;
        after == (BrokerModel {
            storage: StorageModel {
                workers: before.storage.workers.insert(w, WorkerInfo { last_heartbeat: now, ..before.storage.workers[w] }),
                ..before.storage
            },
            ..before
        })
    } else {
        after == before
    }
}

/// What a reported result does. A result for a task the broker has no
/// record of is ignored. Otherwise the record is replaced by the report,
/// then: a completed or cancelled task loses its lease; a failed task
/// counts one more failed attempt, and when the attempts reach
/// `MAX_ATTEMPTS` its worker, if still registered and connected, is asked
/// to stop it; a queued or running report changes nothing more.
pub open spec fn report_applied(
    before: BrokerModel,
    after: BrokerModel,
    tr: Option<TaskResult>,
    stops: Seq<(Seq<char>, TaskId)>,
    failure: Option<StorageError>,
) -> bool {
    if tr is None || !before.storage.results.contains_key(tr->Some_0.id) {
        after == before && stops.len() == 0 && failure is None
    } else {
        let t = tr->Some_0;
        let s1 = StorageModel { results: before.storage.results.insert(t.id, t), ..before.storage };
        &&& after.sessions == before.sessions
        &&& if t.status == TaskStatus::Completed || t.status == TaskStatus::Cancelled {
            after.storage == (StorageModel { leases: s1.leases.remove(t.id), ..s1 }) && stops.len() == 0
                && failure is None
        } else if t.status == TaskStatus::Failed {
            if !s1.leases.contains_key(t.id) {
                after.storage == s1 && failure == Some(StorageError::LeaseNotFound) && stops.len() == 0
            } else {
                let l = s1.leases[t.id];
                &&& after.storage == (StorageModel {
                    leases: s1.leases.insert(t.id, Lease { attempts: (l.attempts + 1) as usize, ..l }),
                    results: s1.results.insert(t.id, TaskResult { status: TaskStatus::Failed, ..t }),
                    ..s1
                })
                &&& failure is None
                &&& stops == (if l.attempts + 1 >= MAX_ATTEMPTS && s1.workers.contains_key(l.worker_id@)
                    && before.sessions.contains_key(l.worker_id@) {
                    seq![(l.worker_id@, t.id)]
                } else {
                    Seq::<(Seq<char>, TaskId)>::empty()
                })
            }
        } else {
            after.storage == s1 && stops.len() == 0 && failure is None
        }
    }
}

/// One step of putting back the tasks of a worker that shut down: a task
/// whose record says queued or running goes back to the high priority
/// queue and its record is marked cancelled; any other is left alone.
pub open spec fn requeue_step(m: StorageModel, id: TaskId) -> StorageModel {
    if m.results.contains_key(id) && (m.results[id].status == TaskStatus::Running || m.results[id].status == TaskStatus::Queued) {
        let res = m.results[id];
        StorageModel {
            high: m.high.push(requeued_task(res)),
            results: m.results.insert(res.id, TaskResult { status: TaskStatus::Cancelled, ..res }),
            ..m
        }
    } else {
        m
    }
}

/// `requeue_step` for each of `ids`, in order.
pub open spec fn requeue_all(m: StorageModel, ids: Seq<TaskId>) -> StorageModel
    decreases ids.len(),
{
    if ids.len() == 0 {
        m
    } else {
        requeue_step(requeue_all(m, ids.drop_last()), ids.last())
    }
}

/// What a shutdown notification does. A worker without a session is
/// ignored. Otherwise its session closes; if it is also registered, it
/// leaves the registry, its leases are removed, and each of its tasks still
/// queued or running goes back to the high priority queue with its record
/// marked cancelled.
pub open spec fn shutdown_applied(before: BrokerModel, after: BrokerModel, p: Option<WorkerShutdownNotificationParams>) -> bool {
    if p is None || !before.sessions.contains_key(p->Some_0.worker_id@) {
        after == before
    } else {
        let w = p->Some_0.worker_id@;
        &&& after.sessions == before.sessions.remove(w)
        &&& if !before.storage.workers.contains_key(w) {
            after.storage == before.storage
        } else {
            exists|ids: Seq<TaskId>|
                #![trigger requeue_all(StorageModel {
                    workers: before.storage.workers.remove(w),
                    leases: leases_without_worker(before.storage.leases, w),
                    ..before.storage
                }, ids)]
                ids.no_duplicates() && (forall|k: TaskId| #[trigger] ids.contains(k) == (
                before.storage.leases.contains_key(k) && before.storage.leases[k].worker_id@ == w))
                && after.storage == requeue_all(
                StorageModel {
                    workers: before.storage.workers.remove(w),
                    leases: leases_without_worker(before.storage.leases, w),
                    ..before.storage
                },
                ids,
            )
        }
    }
}

/// What a registration request is answered, and what it does.
pub open spec fn register_outcome(before: BrokerModel, after: BrokerModel, id: Seq<char>, params: Option<RegisterWorkerRequestParams>, now: Timestamp, r: RpcReply) -> bool {
    match params {
        None => after == before && is_error_reply(r, id, JsonRpcErrorCode::InvalidRequest, "Something occured trying to parse the request."@),
        Some(p) => registered(before, after, p, now) && is_result_reply(r, id, RpcResult::Registered),
    }
}

/// What a fetch request is answered, and what it does.
pub open spec fn fetch_outcome(before: BrokerModel, after: BrokerModel, id: Seq<char>, params: Option<FetchTaskRequestParams>, now: Timestamp, r: RpcReply) -> bool {
    match params {
        None => after == before && is_error_reply(r, id, JsonRpcErrorCode::InternalError, "An error occurred internally trying to fetch a task"@),
        Some(p) => fetched(before, after, p, now, id, r),
    }
}

/// The message of the error a request for an unknown method gets.
pub open spec fn unknown_method_message(method: Seq<char>) -> Seq<char> {
    "Method '"@ + method + "' not found or not allowed"@
}

/// What processing a message at time `now` does and answers: requests get
/// a response and ask no worker to stop; notifications get none; an
/// unreadable message and an unknown notification change nothing.
pub open spec fn processed(before: BrokerModel, after: BrokerModel, message: Option<Message>, now: Timestamp, r: Dispatch) -> bool {
    match message {
        None => after == before && r.reply is None && r.stops@.len() == 0 && r.failure is None,
        Some(Message::Request { id, call }) => {
            &&& r.stops@.len() == 0
            &&& r.failure is None
            &&& r.reply matches Some(reply) && match call {
                RequestCall::RegisterWorker(params) => register_outcome(before, after, id@, params, now, reply),
                RequestCall::FetchTask(params) => fetch_outcome(before, after, id@, params, now, reply),
                RequestCall::Unknown(m) => after == before && is_error_reply(reply, id@, JsonRpcErrorCode::MethodNotFound, unknown_method_message(m@)),
            }
        },
        Some(Message::Notification(call)) => {
            &&& r.reply is None
            &&& match call {
                NotificationCall::Heartbeat(params) => heartbeat_applied(before, after, params, now) && r.stops@.len() == 0 && r.failure is None,
                NotificationCall::ReportResult(report) => report_applied(before, after, report, stop_pairs(r.stops@), r.failure),
                NotificationCall::WorkerShutdown(params) => shutdown_applied(before, after, params) && r.stops@.len() == 0 && r.failure is None,
                NotificationCall::Unknown => after == before && r.stops@.len() == 0 && r.failure is None,
            }
        },
    }
}

/// A worker silent for longer than the timeout at time `now`.
pub open spec fn stale(w: WorkerInfo, now: Timestamp) -> bool {
    now > w.last_heartbeat && now - w.last_heartbeat > HEARTBEAT_TIMEOUT_MS
}

/// The registry after the silent workers are marked inactive.
pub open spec fn expire_workers(workers: Map<Seq<char>, WorkerInfo>, now: Timestamp) -> Map<Seq<char>, WorkerInfo> {
    Map::new(
        |k: Seq<char>| workers.contains_key(k),
        |k: Seq<char>|
            if stale(workers[k], now) {
                WorkerInfo { active: false, ..workers[k] }
            } else {
                workers[k]
            },
    )
}

/// A lease running for longer than allowed at time `now`.
pub open spec fn overdue(l: Lease, now: Timestamp) -> bool {
    now > l.start_time && now - l.start_time > MAX_EXECUTION_TIME_MS
}

/// The (worker, task) pairs to stop, for the overdue leases among
/// `entries` whose worker has a session, in the order of `entries`.
pub open spec fn overdue_stops(entries: Seq<(TaskId, Lease)>, sessions: Map<Seq<char>, Timestamp>, now: Timestamp) -> Seq<(Seq<char>, TaskId)>
    decreases entries.len(),
{
    if entries.len() == 0 {
        Seq::empty()
    } else {
        let rest = overdue_stops(entries.drop_last(), sessions, now);
        let e = entries.last();
        if overdue(e.1, now) && sessions.contains_key(e.1.worker_id@) {
            rest.push((e.1.worker_id@, e.0))
        } else {
            rest
        }
    }
}

fn error_reply(id: String, code: JsonRpcErrorCode, message: &str) -> (r: RpcReply)
    ensures
        is_error_reply(r, id@, code, message@),
{
    RpcReply {
        id,
        result: None,
        error: Some(JsonRpcError { code, message: message.to_owned(), data: None }),
    }
}

impl BrokerState {
    /// The storage and the sessions are consistent.
    pub open spec fn wf(&self) -> bool {
        self.storage.wf() && self.worker_sessions.wf() && self.logins.wf()
    }

    /// No lease has reached the largest attempt count a `usize` holds.
    pub open spec fn attempts_in_range(&self) -> bool {
        forall|k: TaskId| #[trigger]
            self.storage@.leases.contains_key(k) ==> self.storage@.leases[k].attempts < usize::MAX
    }

    /// A broker over `storage`, with no sessions and no logins.
    pub fn new(storage: InMemoryStorage) -> (r: BrokerState)
        requires
            storage.wf(),
        ensures
            r.wf(),
            r@ == (BrokerModel { storage: storage@, sessions: Map::empty(), logins: Map::empty() }),
    {
        BrokerState { storage, worker_sessions: NameMap::new(), logins: IdMap::new() }
    }

    /// Whether every lease's attempt count is below `usize::MAX`.
    pub fn check_attempts_in_range(&self) -> (r: bool)
        requires
            self.wf(),
        ensures
            r == self.attempts_in_range(),
    {
        let leases = self.storage.get_all_leases();
        proof { self.storage.lemma_entries(); }
        let mut i: usize = 0;
        while i < leases.len()
            invariant
                self.wf(),
                leases@ == self.storage.lease_entries(),
                i <= leases@.len(),
                forall|j: int| 0 <= j < i ==> leases@[j].1.attempts < usize::MAX,
            decreases leases@.len() - i,
        {
            if leases[i].1.attempts == usize::MAX {
                proof { self.storage.lemma_entries(); }
                assert(self.storage@.leases.contains_key(leases@[i as int].0));
                return false;
            }
            i = i + 1;
        }
        proof {
            self.storage.lemma_entries();
            assert forall|k: TaskId| #[trigger] self.storage@.leases.contains_key(k) implies self.storage@.leases[k].attempts < usize::MAX by {
                let j = choose|j: int| 0 <= j < self.storage.lease_entries().len() && self.storage.lease_entries()[j].0 == k;
                assert(self.storage@.leases[self.storage.lease_entries()[j].0] == self.storage.lease_entries()[j].1);
            }
        }
        true
    }

    /// Processes one message from a worker at the current time.
    pub fn process_jsonrpc_message(&mut self, message: Option<Message>) -> (r: Dispatch)
        requires
            old(self).wf(),
            old(self).attempts_in_range(),
        ensures
            final(self).wf(),
            exists|now: Timestamp| processed(old(self)@, final(self)@, message, now, r),
    {
        let now = crate::clock::now_millis();
        self.process_jsonrpc_message_at(message, now)
    }

    /// Processes one message from a worker at time `now`: dispatches it on
    /// its method.
    pub fn process_jsonrpc_message_at(&mut self, message: Option<Message>, now: Timestamp) -> (r: Dispatch)
        requires
            old(self).wf(),
            old(self).attempts_in_range(),
        ensures
            final(self).wf(),
            processed(old(self)@, final(self)@, message, now, r),
    {
        match message {
            None => Dispatch { reply: None, stops: Vec::new(), failure: None },
            Some(Message::Request { id, call }) => {
                let reply = match call {
                    RequestCall::RegisterWorker(params) => self.register_worker(id, params, now),
                    RequestCall::FetchTask(params) => self.fetch_task_for_worker(id, params, now),
                    RequestCall::Unknown(method) => {
                        let mut text = "Method '".to_owned();
                        text.append(method.as_str());
                        text.append("' not found or not allowed");
                        error_reply(id, JsonRpcErrorCode::MethodNotFound, text.as_str())
                    },
                };
                Dispatch { reply: Some(reply), stops: Vec::new(), failure: None }
            },
            Some(Message::Notification(call)) => match call {
                NotificationCall::Heartbeat(params) => {
                    self.process_heartbeat(params, now);
                    Dispatch { reply: None, stops: Vec::new(), failure: None }
                },
                NotificationCall::ReportResult(report) => {
                    let (stops, failure) = self.handle_report_result(report);
                    Dispatch { reply: None, stops, failure }
                },
                NotificationCall::WorkerShutdown(params) => {
                    self.handle_worker_shutdown(params);
                    Dispatch { reply: None, stops: Vec::new(), failure: None }
                },
                NotificationCall::Unknown => Dispatch { reply: None, stops: Vec::new(), failure: None },
            },
        }
    }

    /// Registers a worker, or refreshes one that registered before, and
    /// opens its session.
    pub fn register_worker(&mut self, request_id: String, params: Option<RegisterWorkerRequestParams>, now: Timestamp) -> (r: RpcReply)
        requires
            old(self).wf(),
        ensures
            final(self).wf(),
            register_outcome(old(self)@, final(self)@, request_id@, params, now, r),
    {
        let p = match params {
            Some(p) => p,
            None => return error_reply(request_id, JsonRpcErrorCode::InvalidRequest, "Something occured trying to parse the request."),
        };
        let info = match self.storage.get_worker_from_registry(p.worker_id.as_str()) {
            Some(existing) => WorkerInfo { last_heartbeat: now, active: true, ..existing },
            None => WorkerInfo {
                worker_id: p.worker_id.clone(),
                last_heartbeat: now,
                active: true,
                capabilities: p.capabilities,
            },
        };
        proof { self.storage.lemma_entries(); }
        assert(info.worker_id@ == p.worker_id@);
        let _ = self.storage.insert_worker_info_to_registry(info);
        self.worker_sessions.insert(p.worker_id, now);
        RpcReply { id: request_id, result: Some(RpcResult::Registered), error: None }
    }

    /// Hands a task to a registered, active worker.
    pub fn fetch_task_for_worker(&mut self, request_id: String, params: Option<FetchTaskRequestParams>, now: Timestamp) -> (r: RpcReply)
        requires
            old(self).wf(),
        ensures
            final(self).wf(),
            fetch_outcome(old(self)@, final(self)@, request_id@, params, now, r),
    {
        let p = match params {
            Some(p) => p,
            None => return error_reply(request_id, JsonRpcErrorCode::InternalError, "An error occurred internally trying to fetch a task"),
        };
        let info = match self.storage.get_worker_from_registry(p.worker_id.as_str()) {
            Some(info) => info,
            None => return error_reply(request_id, JsonRpcErrorCode::InvalidRequest, "Cannot fetch task from non-registered worker."),
        };
        if !info.active {
            return error_reply(request_id, JsonRpcErrorCode::InvalidRequest, "Cannot fetch task from an inactive worker");
        }
        let task = self.storage.dequeue_task_at(p.worker_id.as_str(), &info.capabilities, now);
        RpcReply { id: request_id, result: Some(RpcResult::Fetched(task)), error: None }
    }

    /// Takes a heartbeat: a registered worker's heartbeat time becomes `now`.
    pub fn process_heartbeat(&mut self, params: Option<HeartbeatNotificationParams>, now: Timestamp)
        requires
            old(self).wf(),
        ensures
            final(self).wf(),
            heartbeat_applied(old(self)@, final(self)@, params, now),
    {
        if let Some(p) = params {
            if let Some(info) = self.storage.get_worker_from_registry(p.worker_id.as_str()) {
                proof { self.storage.lemma_entries(); }
                let updated = WorkerInfo { last_heartbeat: now, ..info };
                let _ = self.storage.insert_worker_info_to_registry(updated);
            }
        }
    }

    /// Takes a reported result; see `report_applied`.
    pub fn handle_report_result(&mut self, report: Option<TaskResult>) -> (r: (Vec<StopExecution>, Option<StorageError>))
        requires
            old(self).wf(),
            old(self).attempts_in_range(),
        ensures
            final(self).wf(),
            report_applied(old(self)@, final(self)@, report, stop_pairs(r.0@), r.1),
    {
        let mut stops: Vec<StopExecution> = Vec::new();
        let tr = match report {
            Some(tr) => tr,
            None => {
                assert(stop_pairs(stops@) =~= Seq::<(Seq<char>, TaskId)>::empty());
                return (stops, None);
            },
        };
        if !self.storage.contains_result(tr.id) {
            assert(stop_pairs(stops@) =~= Seq::<(Seq<char>, TaskId)>::empty());
            return (stops, None);
        }
        let id = tr.id;
        let status = tr.status;
        let ghost t = tr;
        self.storage.store_result(id, tr);
        let ghost s1 = self.storage@;
        let mut failure: Option<StorageError> = None;
        match status {
            TaskStatus::Completed | TaskStatus::Cancelled => {
                self.storage.remove_lease(id);
                assert(stop_pairs(stops@) =~= Seq::<(Seq<char>, TaskId)>::empty());
                assert(self.storage@ == (StorageModel { leases: s1.leases.remove(t.id), ..s1 }));
                assert(report_applied(old(self)@, self@, Some(t), stop_pairs(stops@), failure));
            },
            TaskStatus::Failed => {
                let marked = self.storage.mark_task_failed(id, MAX_ATTEMPTS);
                let ghost mr = marked;
                assert(s1 == (StorageModel { results: old(self).storage@.results.insert(t.id, t), ..old(self).storage@ }));
                assert(failure_marked(s1, self.storage@, t.id, MAX_ATTEMPTS, mr));
                match marked {
                    Err(e) => {
                        failure = Some(e);
                        assert(stop_pairs(stops@) =~= Seq::<(Seq<char>, TaskId)>::empty());
                        assert(report_applied(old(self)@, self@, Some(t), stop_pairs(stops@), failure));
                    },
                    Ok((too_many, wid)) => {
                        let ghost wv = wid@;
                        if too_many && self.storage.exists_worker(wid.as_str())
                            && self.worker_sessions.contains_key(wid.as_str()) {
                            stops.push(StopExecution { worker_id: wid, task_id: id });
                            assert(stop_pairs(stops@) =~= seq![(wv, id)]);
                        } else {
                            assert(stop_pairs(stops@) =~= Seq::<(Seq<char>, TaskId)>::empty());
                        }
                        assert(report_applied(old(self)@, self@, Some(t), stop_pairs(stops@), failure));
                    },
                }
            },
            _ => {
                assert(stop_pairs(stops@) =~= Seq::<(Seq<char>, TaskId)>::empty());
                assert(report_applied(old(self)@, self@, Some(t), stop_pairs(stops@), failure));
            },
        }
        (stops, failure)
    }

    /// Handles a worker's shutdown; see `shutdown_applied`.
    pub fn handle_worker_shutdown(&mut self, params: Option<WorkerShutdownNotificationParams>)
        requires
            old(self).wf(),
        ensures
            final(self).wf(),
            shutdown_applied(old(self)@, final(self)@, params),
    {
        let p = match params {
            Some(p) => p,
            None => return,
        };
        if self.worker_sessions.remove(p.worker_id.as_str()).is_none() {
            assert(self.worker_sessions@ =~= old(self).worker_sessions@);
            return;
        }
        if self.storage.remove_worker_from_registry(p.worker_id.as_str()).is_none() {
            assert(self.storage@.workers =~= old(self).storage@.workers);
            assert(self.storage@ =~= old(self).storage@);
            return;
        }
        let ghost base = self.storage@;
        let ghost w = p.worker_id@;
        let ids = match self.storage.remove_leases_of_worker(p.worker_id.as_str()) {
            Ok(ids) => ids,
            Err(_) => return,
        };
        let ghost start = self.storage@;
        assert(start == (StorageModel {
            workers: old(self).storage@.workers.remove(p.worker_id@),
            leases: leases_without_worker(old(self).storage@.leases, p.worker_id@),
            ..old(self).storage@
        }));
        assert(requeue_all(start, ids@.subrange(0, 0)) == start) by {
            assert(ids@.subrange(0, 0).len() == 0);
        }
        let mut i: usize = 0;
        while i < ids.len()
            invariant
                self.wf(),
                i <= ids@.len(),
                self.storage@ == requeue_all(start, ids@.subrange(0, i as int)),
                self.worker_sessions@ == old(self).worker_sessions@.remove(w),
            decreases ids@.len() - i,
        {
            let id = ids[i];
            let ghost before_step = self.storage@;
            if let Some(res) = self.storage.get_task_result(id) {
                if res.status == TaskStatus::Running || res.status == TaskStatus::Queued {
                    let new_task = Task {
                        id: res.id,
                        owner_id: res.owner_id,
                        name: res.name.clone(),
                        code_b64: res.code_b64.clone(),
                        priority: crate::task::TaskPriority::High,
                        capabilities: res.capabilities,
                    };
                    let rid = res.id;
                    let cancelled = TaskResult { status: TaskStatus::Cancelled, ..res };
                    let _ = self.storage.enqueue_task(new_task);
                    self.storage.store_result(rid, cancelled);
                }
            }
            assert(self.storage@ == requeue_step(before_step, id));
            assert(ids@.subrange(0, i + 1).drop_last() =~= ids@.subrange(0, i as int));
            i = i + 1;
        }
        assert(ids@.subrange(0, ids@.len() as int) =~= ids@);
        assert(self.storage@ == requeue_all(start, ids@));
        assert(forall|k: TaskId| #[trigger] ids@.contains(k) == (
            old(self).storage@.leases.contains_key(k) && old(self).storage@.leases[k].worker_id@ == w));
        assert(ids@.no_duplicates() && (forall|k: TaskId| #[trigger] ids@.contains(k) == (
            old(self).storage@.leases.contains_key(k) && old(self).storage@.leases[k].worker_id@ == w))
            && self.storage@ == requeue_all(StorageModel {
                workers: old(self).storage@.workers.remove(w),
                leases: leases_without_worker(old(self).storage@.leases, w),
                ..old(self).storage@
            }, ids@));
    }

    /// Marks the workers silent for longer than the timeout as inactive.
    pub fn handle_heartbeats(&mut self, now: Timestamp)
        requires
            old(self).wf(),
        ensures
            final(self).wf(),
            final(self)@ == (BrokerModel {
                storage: StorageModel { workers: expire_workers(old(self)@.storage.workers, now), ..old(self)@.storage },
                ..old(self)@
            }),
    {
        let workers = self.storage.get_worker_registry();
        let ghost orig = self.storage@.workers;
        let ghost entries = self.storage.worker_entries();
        proof {
            self.storage.lemma_entries();
            self.storage.worker_registry_keys_unique();
            assert forall|k: Seq<char>| #[trigger] orig.contains_key(k) implies exists|j: int| 0 <= j < entries.len() && entries[j].0 == k by {
                let j = choose|j: int| 0 <= j < self.storage.worker_entries().len() && self.storage.worker_entries()[j].0 == k;
                assert(entries[j].0 == k);
            }
        }
        let mut i: usize = 0;
        while i < workers.len()
            invariant
                self.wf(),
                forall|k: Seq<char>| #[trigger] orig.contains_key(k) ==> exists|j: int| 0 <= j < entries.len() && entries[j].0 == k,
                self.worker_sessions@ == old(self).worker_sessions@,
                self.logins@ == old(self).logins@,
                workers@ == entries.map_values(|e: (Seq<char>, WorkerInfo)| e.1),
                i <= workers@.len(),
                forall|a: int, b: int| 0 <= a < b < entries.len() ==> entries[a].0 != entries[b].0,
                forall|a: int| 0 <= a < entries.len() ==> #[trigger] orig.contains_key(entries[a].0)
                    && orig[entries[a].0] == entries[a].1,
                forall|k: Seq<char>| #[trigger] orig.contains_key(k) ==> orig[k].worker_id@ == k,
                self.storage@ == (StorageModel { workers: self.storage@.workers, ..old(self)@.storage }),
                forall|k: Seq<char>| #[trigger] self.storage@.workers.contains_key(k) == orig.contains_key(k),
                forall|k: Seq<char>| #[trigger] self.storage@.workers.contains_key(k) ==> self.storage@.workers[k] == (
                    if (exists|j: int| 0 <= j < i && entries[j].0 == k) && stale(orig[k], now) {
                        WorkerInfo { active: false, ..orig[k] }
                    } else {
                        orig[k]
                    }),
            decreases workers@.len() - i,
        {
            let w = &workers[i];
            let ghost k = entries[i as int].0;
            assert(w == entries[i as int].1);
            assert(orig.contains_key(entries[i as int].0));
            assert(orig[k] == *w);
            assert(w.worker_id@ == k);
            if now > w.last_heartbeat && now - w.last_heartbeat > HEARTBEAT_TIMEOUT_MS {
                let updated = WorkerInfo { active: false, ..w.duplicate() };
                let _ = self.storage.insert_worker_info_to_registry(updated);
            }
            assert forall|kk: Seq<char>| #[trigger] self.storage@.workers.contains_key(kk) implies self.storage@.workers[kk] == (
                if (exists|j: int| 0 <= j < i + 1 && entries[j].0 == kk) && stale(orig[kk], now) {
                    WorkerInfo { active: false, ..orig[kk] }
                } else {
                    orig[kk]
                }) by {
                if kk == k {
                    assert(entries[i as int].0 == kk);
                } else {
                    if exists|j: int| 0 <= j < i + 1 && entries[j].0 == kk {
                        let j = choose|j: int| 0 <= j < i + 1 && entries[j].0 == kk;
                        assert(j != i);
                    }
                }
            }
            i = i + 1;
        }
        assert(self.storage@.workers =~= expire_workers(orig, now));
    }

    /// The `stop_execution` notifications for the overdue leases whose
    /// worker has a session, oldest lease first.
    pub fn handle_timeouts(&self, now: Timestamp) -> (r: Vec<StopExecution>)
        requires
            self.wf(),
        ensures
            stop_pairs(r@) == overdue_stops(self.storage.lease_entries(), self@.sessions, now),
    {
        let leases = self.storage.get_all_leases();
        let mut out: Vec<StopExecution> = Vec::new();
        let mut i: usize = 0;
        while i < leases.len()
            invariant
                self.wf(),
                leases@ == self.storage.lease_entries(),
                i <= leases@.len(),
                stop_pairs(out@) == overdue_stops(leases@.subrange(0, i as int), self@.sessions, now),
            decreases leases@.len() - i,
        {
            let (id, l) = (&leases[i].0, &leases[i].1);
            let ghost prefix = leases@.subrange(0, i + 1);
            assert(prefix.drop_last() =~= leases@.subrange(0, i as int));
            if now > l.start_time && now - l.start_time > MAX_EXECUTION_TIME_MS
                && self.worker_sessions.contains_key(l.worker_id.as_str()) {
                out.push(StopExecution { worker_id: l.worker_id.clone(), task_id: *id });
            }
            assert(stop_pairs(out@) =~= overdue_stops(prefix, self@.sessions, now));
            i = i + 1;
        }
        assert(leases@.subrange(0, leases@.len() as int) =~= leases@);
        out
    }
}

} // verus!
