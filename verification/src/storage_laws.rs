//! What the storage operations promise when taken together.

use crate::capabilities::{spec_supports, WorkerCapabilities};
use crate::storage::{dequeued, enqueued, first_compatible_at, has_compatible, lease_removed, leases_without_worker, popped, queues_by_priority, result_stored, StorageModel};
use crate::task::{running_record, Task, TaskId, TaskPriority, TaskResult, Timestamp};
use vstd::prelude::*;

verus! {

/// A worker is only ever handed a task it can run.
pub proof fn law_dequeued_task_is_supported(
    before: StorageModel,
    after: StorageModel,
    worker_id: Seq<char>,
    caps: WorkerCapabilities,
    now: Timestamp,
    t: Task,
)
    requires
        dequeued(before, after, worker_id, caps, now, Some(t)),
    ensures
        spec_supports(caps, t.capabilities),
{
}

/// Tasks leave in priority order: the task handed out has the highest
/// priority among the tasks the worker can run.
pub proof fn law_dequeue_respects_priority(
    before: StorageModel,
    after: StorageModel,
    worker_id: Seq<char>,
    caps: WorkerCapabilities,
    now: Timestamp,
    t: Task,
)
    requires
        queues_by_priority(before),
        dequeued(before, after, worker_id, caps, now, Some(t)),
    ensures
        has_compatible(before.high, caps) ==> t.priority == TaskPriority::High,
        !has_compatible(before.high, caps) && has_compatible(before.mid, caps) ==> t.priority
            == TaskPriority::Medium,
        !has_compatible(before.high, caps) && !has_compatible(before.mid, caps) ==> t.priority
            == TaskPriority::Low,
{
    if popped(before.high, after.high, caps, t) {
        let i = choose|i: int| #![trigger first_compatible_at(before.high, caps, i)]
            first_compatible_at(before.high, caps, i) && t == before.high[i] && after.high == before.high.remove(i);
        assert(before.high[i].priority == TaskPriority::High);
    } else if !has_compatible(before.high, caps) && popped(before.mid, after.mid, caps, t) {
        let i = choose|i: int| #![trigger first_compatible_at(before.mid, caps, i)]
            first_compatible_at(before.mid, caps, i) && t == before.mid[i] && after.mid == before.mid.remove(i);
        assert(before.mid[i].priority == TaskPriority::Medium);
    } else {
        let i = choose|i: int| #![trigger first_compatible_at(before.low, caps, i)]
            first_compatible_at(before.low, caps, i) && t == before.low[i] && after.low == before.low.remove(i);
        assert(before.low[i].priority == TaskPriority::Low);
    }
}

/// A worker that can run some queued task always gets one.
pub proof fn law_dequeue_serves_when_possible(
    before: StorageModel,
    after: StorageModel,
    worker_id: Seq<char>,
    caps: WorkerCapabilities,
    now: Timestamp,
    r: Option<Task>,
)
    requires
        dequeued(before, after, worker_id, caps, now, r),
        has_compatible(before.high, caps) || has_compatible(before.mid, caps)
            || has_compatible(before.low, caps),
    ensures
        r is Some,
{
}

/// A dequeued task is leased to the worker that asked and recorded as
/// running.
pub proof fn law_dequeue_leases_and_records(
    before: StorageModel,
    after: StorageModel,
    worker_id: Seq<char>,
    caps: WorkerCapabilities,
    now: Timestamp,
    t: Task,
)
    requires
        dequeued(before, after, worker_id, caps, now, Some(t)),
    ensures
        after.leases.contains_key(t.id),
        after.leases[t.id].worker_id@ == worker_id,
        after.results.contains_key(t.id),
        after.results[t.id] == running_record(t),
{
}

/// Within a priority, tasks leave in the order they came: of two tasks of
/// the same priority that a worker can both run, queued one after the
/// other into a storage holding nothing that worker can run, the first
/// one queued is handed out first.
pub proof fn law_fifo_within_priority(
    s0: StorageModel,
    s1: StorageModel,
    s2: StorageModel,
    s3: StorageModel,
    t1: Task,
    t2: Task,
    worker_id: Seq<char>,
    caps: WorkerCapabilities,
    now: Timestamp,
    r: Option<Task>,
)
    requires
        !has_compatible(s0.high, caps),
        !has_compatible(s0.mid, caps),
        !has_compatible(s0.low, caps),
        t1.priority == t2.priority,
        spec_supports(caps, t1.capabilities),
        spec_supports(caps, t2.capabilities),
        enqueued(s0, s1, t1),
        enqueued(s1, s2, t2),
        dequeued(s2, s3, worker_id, caps, now, r),
    ensures
        r == Some(t1),
{
    let p = t1.priority;
    let q0 = s0.queue(p);
    let q2 = s2.queue(p);
    assert(q2 == q0.push(t1).push(t2));
    let n = q0.len() as int;
    assert(q2[n] == t1);
    assert forall|j: int| 0 <= j < n implies !spec_supports(caps, #[trigger] q2[j].capabilities) by {
        assert(q2[j] == q0[j]);
        if spec_supports(caps, q0[j].capabilities) {
            assert(has_compatible(q0, caps));
        }
    }
    assert(first_compatible_at(q2, caps, n));
    let t = r->Some_0;
    match p {
        TaskPriority::High => {
            assert(has_compatible(s2.high, caps));
            let i = choose|i: int| #![trigger first_compatible_at(s2.high, caps, i)]
                first_compatible_at(s2.high, caps, i) && t == s2.high[i] && s3.high == s2.high.remove(i);
            assert(i == n);
        },
        TaskPriority::Medium => {
            assert(s2.high == s0.high);
            assert(has_compatible(s2.mid, caps));
            let i = choose|i: int| #![trigger first_compatible_at(s2.mid, caps, i)]
                first_compatible_at(s2.mid, caps, i) && t == s2.mid[i] && s3.mid == s2.mid.remove(i);
            assert(i == n);
        },
        TaskPriority::Low => {
            assert(s2.high == s0.high);
            assert(s2.mid == s0.mid);
            assert(has_compatible(s2.low, caps));
            let i = choose|i: int| #![trigger first_compatible_at(s2.low, caps, i)]
                first_compatible_at(s2.low, caps, i) && t == s2.low[i] && s3.low == s2.low.remove(i);
            assert(i == n);
        },
    }
}

/// A stored result is what is read back for that task, and no other
/// task's record changes.
pub proof fn law_result_read_after_write(
    before: StorageModel,
    after: StorageModel,
    id: TaskId,
    result: TaskResult,
    other: TaskId,
)
    requires
        result_stored(before, after, id, result),
        other != id,
    ensures
        after.results.contains_key(id),
        after.results[id] == result,
        after.results.contains_key(other) == before.results.contains_key(other),
        after.results[other] == before.results[other],
{
}

/// A removed lease is gone and the other leases stay.
pub proof fn law_removed_lease_is_gone(
    before: StorageModel,
    after: StorageModel,
    id: TaskId,
    other: TaskId,
)
    requires
        lease_removed(before, after, id),
        other != id,
    ensures
        !after.leases.contains_key(id),
        after.leases.contains_key(other) == before.leases.contains_key(other),
        after.leases[other] == before.leases[other],
{
}

/// After the leases of a worker are removed, none of its leases remain and
/// the leases of every other worker are untouched.
pub proof fn law_worker_leases_removed(leases: Map<TaskId, crate::task::Lease>, worker_id: Seq<char>, k: TaskId)
    ensures
        leases_without_worker(leases, worker_id).contains_key(k) ==> leases_without_worker(
            leases,
            worker_id,
        )[k].worker_id@ != worker_id,
        leases.contains_key(k) && leases[k].worker_id@ != worker_id ==> leases_without_worker(
            leases,
            worker_id,
        ).contains_key(k) && leases_without_worker(leases, worker_id)[k] == leases[k],
{
}

} // verus!
