//! What the broker's protocol handling promises across messages.

use crate::broker::{
    expire_workers, fetched, registered, report_applied, requeue_all, requeue_step,
    shutdown_applied, stale, BrokerModel, RpcReply, MAX_ATTEMPTS,
};
use crate::params::{FetchTaskRequestParams, RegisterWorkerRequestParams};
use crate::storage::{leases_without_worker, queues_by_priority, StorageError, StorageModel};
use crate::task::{TaskId, TaskResult, TaskStatus, Timestamp, TaskPriority};
use crate::api::{submitted_task, task_submitted};
use crate::auth::{spec_can, Permission, User};
use crate::capabilities::spec_supports;
use crate::http::{CreateTaskRequest, CreateTaskResponse, HttpReply};
use crate::storage::has_compatible;
use crate::api::task_query_answer;
use crate::http::GetTaskResponse;
use crate::broker::RpcResult;
use crate::task::Task;
use vstd::prelude::*;

verus! {

/// A registered worker is on file, active, with the heartbeat time of its
/// registration, and has a session.
pub proof fn law_registration_activates(before: BrokerModel, after: BrokerModel, p: RegisterWorkerRequestParams, now: Timestamp)
    requires
        registered(before, after, p, now),
    ensures
        after.storage.workers.contains_key(p.worker_id@),
        after.storage.workers[p.worker_id@].active,
        after.storage.workers[p.worker_id@].last_heartbeat == now,
        after.sessions.contains_key(p.worker_id@),
{
}

/// A worker that just registered is served when it fetches: it gets a
/// response with no error (a task or none).
pub proof fn law_registered_worker_is_served(
    b0: BrokerModel,
    b1: BrokerModel,
    b2: BrokerModel,
    reg: RegisterWorkerRequestParams,
    fetch: FetchTaskRequestParams,
    now: Timestamp,
    later: Timestamp,
    id: Seq<char>,
    r: RpcReply,
)
    requires
        registered(b0, b1, reg, now),
        fetch.worker_id@ == reg.worker_id@,
        fetched(b1, b2, fetch, later, id, r),
    ensures
        r.error is None,
{
}

/// A worker that is not registered is refused a task and nothing changes.
pub proof fn law_unregistered_worker_is_refused(
    before: BrokerModel,
    after: BrokerModel,
    fetch: FetchTaskRequestParams,
    now: Timestamp,
    id: Seq<char>,
    r: RpcReply,
)
    requires
        !before.storage.workers.contains_key(fetch.worker_id@),
        fetched(before, after, fetch, now, id, r),
    ensures
        r.error is Some,
        r.result is None,
        after == before,
{
}

/// A worker silent for longer than the timeout is marked inactive by the
/// periodic check and then refused a task; the others keep their state.
pub proof fn law_silent_worker_is_refused(
    before: BrokerModel,
    after: BrokerModel,
    after_fetch: BrokerModel,
    fetch: FetchTaskRequestParams,
    now: Timestamp,
    later: Timestamp,
    id: Seq<char>,
    r: RpcReply,
)
    requires
        before.storage.workers.contains_key(fetch.worker_id@),
        stale(before.storage.workers[fetch.worker_id@], now),
        after == (BrokerModel {
            storage: StorageModel { workers: expire_workers(before.storage.workers, now), ..before.storage },
            ..before
        }),
        fetched(after, after_fetch, fetch, later, id, r),
    ensures
        !after.storage.workers[fetch.worker_id@].active,
        r.error is Some,
        after_fetch == after,
{
}

/// A task whose lease already counts `MAX_ATTEMPTS - 1` failed attempts
/// and whose worker is registered and connected: one more failure report
/// makes the broker ask that worker to stop it. With fewer attempts, a
/// failure report asks no one to stop.
pub proof fn law_failed_task_stopped_at_max_attempts(
    before: BrokerModel,
    after: BrokerModel,
    report: TaskResult,
    stops: Seq<(Seq<char>, TaskId)>,
    failure: Option<StorageError>,
)
    requires
        report.status == TaskStatus::Failed,
        before.storage.results.contains_key(report.id),
        before.storage.leases.contains_key(report.id),
        before.storage.leases[report.id].attempts < usize::MAX,
        report_applied(before, after, Some(report), stops, failure),
    ensures
        failure is None,
        after.storage.leases[report.id].attempts == before.storage.leases[report.id].attempts + 1,
        after.storage.results[report.id].status == TaskStatus::Failed,
        before.storage.leases[report.id].attempts + 1 < MAX_ATTEMPTS ==> stops.len() == 0,
        before.storage.leases[report.id].attempts + 1 == MAX_ATTEMPTS
            && before.storage.workers.contains_key(before.storage.leases[report.id].worker_id@)
            && before.sessions.contains_key(before.storage.leases[report.id].worker_id@)
            ==> stops == seq![(before.storage.leases[report.id].worker_id@, report.id)],
{
}

/// A completed or cancelled task's report is kept as its record, its
/// lease is gone, and no worker is asked to stop anything.
pub proof fn law_completed_task_released(
    before: BrokerModel,
    after: BrokerModel,
    report: TaskResult,
    stops: Seq<(Seq<char>, TaskId)>,
    failure: Option<StorageError>,
)
    requires
        report.status == TaskStatus::Completed || report.status == TaskStatus::Cancelled,
        before.storage.results.contains_key(report.id),
        report_applied(before, after, Some(report), stops, failure),
    ensures
        after.storage.results[report.id] == report,
        !after.storage.leases.contains_key(report.id),
        stops.len() == 0,
{
}

/// A task accepted from a user is handed out by the next fetch of any
/// registered, active worker that can run it (that task or another one
/// ahead of it).
pub proof fn law_submitted_task_is_served(
    b0: BrokerModel,
    b1: BrokerModel,
    b2: BrokerModel,
    user: User,
    req: CreateTaskRequest,
    id: TaskId,
    created: HttpReply<CreateTaskResponse>,
    fetch: FetchTaskRequestParams,
    now: Timestamp,
    rid: Seq<char>,
    reply: RpcReply,
)
    requires
        spec_can(user, Permission::CreateTask),
        task_submitted(b0, b1, user, req, id, created),
        b1.storage.workers.contains_key(fetch.worker_id@),
        b1.storage.workers[fetch.worker_id@].active,
        spec_supports(b1.storage.workers[fetch.worker_id@].capabilities, req.capabilities),
        fetched(b1, b2, fetch, now, rid, reply),
    ensures
        created.status == 201,
        reply.error is None,
        reply.result matches Some(crate::broker::RpcResult::Fetched(Some(_))),
{
    let caps = b1.storage.workers[fetch.worker_id@].capabilities;
    let t = submitted_task(user, req, id);
    let q = b1.storage.queue(t.priority);
    assert(q[q.len() - 1] == t);
    assert(spec_supports(caps, q[q.len() - 1].capabilities));
    assert(has_compatible(q, caps));
    assert(has_compatible(b1.storage.high, caps) || has_compatible(b1.storage.mid, caps)
        || has_compatible(b1.storage.low, caps));
}

proof fn lemma_requeue_keeps(m: StorageModel, ids: Seq<TaskId>)
    requires
        queues_by_priority(m),
    ensures
        requeue_all(m, ids).leases == m.leases,
        requeue_all(m, ids).workers == m.workers,
        requeue_all(m, ids).users == m.users,
        requeue_all(m, ids).mid == m.mid,
        requeue_all(m, ids).low == m.low,
        queues_by_priority(requeue_all(m, ids)),
    decreases ids.len(),
{
    if ids.len() > 0 {
        lemma_requeue_keeps(m, ids.drop_last());
        let prev = requeue_all(m, ids.drop_last());
        let next = requeue_step(prev, ids.last());
        assert forall|i: int| 0 <= i < next.high.len() implies (#[trigger] next.high[i]).priority == TaskPriority::High by {
            if i < prev.high.len() {
                assert(next.high[i] == prev.high[i]);
            }
        }
    }
}

/// After a connected, registered worker shuts down, it has no session, is
/// no longer registered and holds no lease; every other worker keeps its
/// leases; the queues still hold only tasks of their own priority.
pub proof fn law_shutdown_forgets_worker(
    before: BrokerModel,
    after: BrokerModel,
    p: crate::params::WorkerShutdownNotificationParams,
    k: TaskId,
)
    requires
        queues_by_priority(before.storage),
        before.sessions.contains_key(p.worker_id@),
        before.storage.workers.contains_key(p.worker_id@),
        shutdown_applied(before, after, Some(p)),
    ensures
        !after.sessions.contains_key(p.worker_id@),
        !after.storage.workers.contains_key(p.worker_id@),
        after.storage.leases.contains_key(k) ==> after.storage.leases[k].worker_id@ != p.worker_id@,
        before.storage.leases.contains_key(k) && before.storage.leases[k].worker_id@ != p.worker_id@
            ==> after.storage.leases.contains_key(k) && after.storage.leases[k] == before.storage.leases[k],
        queues_by_priority(after.storage),
{
    let w = p.worker_id@;
    let base = StorageModel {
        workers: before.storage.workers.remove(w),
        leases: leases_without_worker(before.storage.leases, w),
        ..before.storage
    };
    let ids = choose|ids: Seq<TaskId>|
        #![trigger requeue_all(base, ids)]
        ids.no_duplicates() && (forall|k: TaskId| #[trigger] ids.contains(k) == (
        before.storage.leases.contains_key(k) && before.storage.leases[k].worker_id@ == w))
        && after.storage == requeue_all(base, ids);
    lemma_requeue_keeps(base, ids);
}

/// A fetch hands a worker only a task that the capabilities it registered
/// support, and only a registered, active worker gets one.
pub proof fn law_fetched_task_is_supported(
    before: BrokerModel,
    after: BrokerModel,
    p: FetchTaskRequestParams,
    now: Timestamp,
    id: Seq<char>,
    r: RpcReply,
    t: Task,
)
    requires
        fetched(before, after, p, now, id, r),
        r.result == Some(RpcResult::Fetched(Some(t))),
    ensures
        before.storage.workers.contains_key(p.worker_id@),
        before.storage.workers[p.worker_id@].active,
        spec_supports(before.storage.workers[p.worker_id@].capabilities, t.capabilities),
        after.storage.leases.contains_key(t.id),
        after.storage.leases[t.id].worker_id@ == p.worker_id@,
        after.storage.results[t.id].status == TaskStatus::Running,
{
    let caps = before.storage.workers[p.worker_id@].capabilities;
    crate::storage_laws::law_dequeued_task_is_supported(before.storage, after.storage, p.worker_id@, caps, now, t);
}

/// A report that a task is running or queued, for a task the broker has a
/// record of, replaces the record and touches no lease, queue or worker;
/// no worker is asked to stop anything.
pub proof fn law_progress_report_keeps_lease(
    before: BrokerModel,
    after: BrokerModel,
    report: TaskResult,
    stops: Seq<(Seq<char>, TaskId)>,
    failure: Option<StorageError>,
)
    requires
        report.status == TaskStatus::Running || report.status == TaskStatus::Queued,
        before.storage.results.contains_key(report.id),
        report_applied(before, after, Some(report), stops, failure),
    ensures
        after.storage.leases == before.storage.leases,
        after.storage.results[report.id] == report,
        after.storage.high == before.storage.high,
        after.storage.mid == before.storage.mid,
        after.storage.low == before.storage.low,
        after.storage.workers == before.storage.workers,
        stops.len() == 0,
        failure is None,
{
}

/// A worker keeps the capabilities it announced: a new worker is filed
/// with exactly those, a returning one keeps those it was filed with.
pub proof fn law_registration_keeps_capabilities(
    before: BrokerModel,
    after: BrokerModel,
    p: RegisterWorkerRequestParams,
    now: Timestamp,
)
    requires
        registered(before, after, p, now),
    ensures
        !before.storage.workers.contains_key(p.worker_id@) ==> after.storage.workers[p.worker_id@].capabilities
            == p.capabilities,
        before.storage.workers.contains_key(p.worker_id@) ==> after.storage.workers[p.worker_id@].capabilities
            == before.storage.workers[p.worker_id@].capabilities,
        after.storage.workers[p.worker_id@].worker_id@ == (if before.storage.workers.contains_key(p.worker_id@) {
            before.storage.workers[p.worker_id@].worker_id@
        } else {
            p.worker_id@
        }),
{
}

/// An accepted submission puts one task at the end of the queue of the
/// requested priority, under the new id, owned by the submitting user, and
/// with the requested name, code and hardware requirements; the other
/// queues are untouched.
pub proof fn law_submission_queues_request(
    before: BrokerModel,
    after: BrokerModel,
    user: User,
    req: CreateTaskRequest,
    id: TaskId,
    r: HttpReply<CreateTaskResponse>,
)
    requires
        spec_can(user, Permission::CreateTask),
        task_submitted(before, after, user, req, id, r),
    ensures
        r.status == 201,
        after.storage.queue(req.priority).len() == before.storage.queue(req.priority).len() + 1,
        after.storage.queue(req.priority).drop_last() == before.storage.queue(req.priority),
        after.storage.queue(req.priority).last().id == id,
        after.storage.queue(req.priority).last().owner_id == user.id,
        after.storage.queue(req.priority).last().name@ == req.name@,
        after.storage.queue(req.priority).last().code_b64@ == req.code_b64@,
        after.storage.queue(req.priority).last().priority == req.priority,
        after.storage.queue(req.priority).last().capabilities == req.capabilities,
        forall|q: TaskPriority| q != req.priority ==> after.storage.queue(q) == before.storage.queue(q),
        after.storage.results == before.storage.results,
        after.storage.leases == before.storage.leases,
{
    let t = submitted_task(user, req, id);
    assert(after.storage.queue(req.priority) == before.storage.queue(req.priority).push(t));
    assert(before.storage.queue(req.priority).push(t).drop_last() =~= before.storage.queue(req.priority));
}

/// A query by a user allowed to check tasks answers 200 with the task's
/// record whenever it has one, whatever its status, and 404 without a task
/// only when it has none.
pub proof fn law_recorded_task_is_answered(m: BrokerModel, user: User, id: TaskId, r: HttpReply<GetTaskResponse>)
    requires
        spec_can(user, Permission::CheckTask),
        task_query_answer(m, user, id, r),
    ensures
        m.storage.results.contains_key(id) ==> r.status == 200 && (r.body matches Some(b) && b.task == Some(
            m.storage.results[id],
        )),
        !m.storage.results.contains_key(id) ==> r.status == 404 && (r.body matches Some(b) && b.task is None),
{
}

} // verus!
