//! How the Redis-backed storage names its keys, and which stored task a
//! worker gets.

use crate::capabilities::{spec_supports, WorkerCapabilities};
use crate::external::{parse_uuid, uuid_hyphenated, uuid_parse, uuid_string};
use crate::task::{Lease, Task, TaskId, TaskPriority, TaskResult, TaskStatus, Timestamp};
use vstd::prelude::*;

verus! {

/// The list that holds the queued tasks of a priority.
pub fn queue_key(priority: TaskPriority) -> (r: &'static str)
    ensures
        r@ == (match priority {
            TaskPriority::High => "task_queue:high"@,
            TaskPriority::Medium => "task_queue:medium"@,
            TaskPriority::Low => "task_queue:low"@,
        }),
{
    match priority {
        TaskPriority::High => "task_queue:high",
        TaskPriority::Medium => "task_queue:medium",
        TaskPriority::Low => "task_queue:low",
    }
}

fn prefixed_id(prefix: &str, id: TaskId) -> (r: String)
    ensures
        r@ == prefix@ + uuid_hyphenated(id),
        uuid_parse(uuid_hyphenated(id)) == Some(id),
{
    let mut s = prefix.to_owned();
    let t = uuid_string(id);
    s.append(t.as_str());
    s
}

/// The key of a task's result record: `task_results:{id}`.
pub fn result_key(id: TaskId) -> (r: String)
    ensures
        r@ == "task_results:"@ + uuid_hyphenated(id),
{
    prefixed_id("task_results:", id)
}

/// The task a lease key names: what follows `leases:`, read as a UUID.
pub open spec fn lease_key_id_of(key: Seq<char>) -> Option<TaskId> {
    if crate::text::starts_with(key, "leases:"@) {
        uuid_parse(key.subrange(7, key.len() as int))
    } else {
        None
    }
}

/// The key of a task's lease: `leases:{id}`; it names the task back.
pub fn lease_key(id: TaskId) -> (r: String)
    ensures
        r@ == "leases:"@ + uuid_hyphenated(id),
        lease_key_id_of(r@) == Some(id),
{
    let r = prefixed_id("leases:", id);
    proof {
        reveal_strlit("leases:");
        assert(r@.subrange(0, 7) =~= "leases:"@);
        assert(r@.subrange(7, r@.len() as int) =~= uuid_hyphenated(id));
    }
    r
}

/// The key of a worker's registry entry: `worker_registry:{worker_id}`.
pub fn registry_key(worker_id: &str) -> (r: String)
    ensures
        r@ == "worker_registry:"@ + worker_id@,
{
    let mut s = "worker_registry:".to_owned();
    s.append(worker_id);
    s
}

/// The key of a user: `users:{name}`.
pub fn user_key(name: &str) -> (r: String)
    ensures
        r@ == "users:"@ + name@,
{
    let mut s = "users:".to_owned();
    s.append(name);
    s
}

/// The task a lease key names.
pub fn lease_key_task_id(key: &str) -> (r: Option<TaskId>)
    ensures
        r == lease_key_id_of(key@),
{
    proof {
        reveal_strlit("leases:");
    }
    let chars = crate::text::chars_of(key);
    let prefix = crate::text::chars_of("leases:");
    if !crate::text::vec_starts_with(&chars, &prefix) {
        return None;
    }
    let n = vstd::string::StrSliceExecFns::unicode_len(key);
    let rest = vstd::string::StrSliceExecFns::substring_char(key, 7, n);
    parse_uuid(rest)
}

/// The queues a dequeue scans, in this order.
pub fn queue_scan_order() -> (r: Vec<TaskPriority>)
    ensures
        r@ == seq![TaskPriority::High, TaskPriority::Medium, TaskPriority::Low],
{
    let mut r: Vec<TaskPriority> = Vec::new();
    r.push(TaskPriority::High);
    r.push(TaskPriority::Medium);
    r.push(TaskPriority::Low);
    assert(r@ =~= seq![TaskPriority::High, TaskPriority::Medium, TaskPriority::Low]);
    r
}

/// The result record written for a task when it is handed out: the task's
/// identity and code, no outcome, status `Queued`.
pub fn handed_out_record(task: &Task) -> (r: TaskResult)
    ensures
        r.id == task.id,
        r.owner_id == task.owner_id,
        r.name@ == task.name@,
        r.code_b64@ == task.code_b64@,
        r.result is None,
        r.status == TaskStatus::Queued,
        r.capabilities == task.capabilities,
{
    TaskResult {
        id: task.id,
        owner_id: task.owner_id,
        name: task.name.clone(),
        code_b64: task.code_b64.clone(),
        result: None,
        status: TaskStatus::Queued,
        capabilities: task.capabilities,
    }
}

/// The lease written when a task is handed to `worker_id` at `now`: it
/// counts one attempt.
pub fn handed_out_lease(worker_id: &str, now: Timestamp) -> (r: Lease)
    ensures
        r.worker_id@ == worker_id@,
        r.attempts == 1,
        r.start_time == now,
{
    Lease { worker_id: worker_id.to_owned(), attempts: 1, start_time: now }
}

/// The position of the first stored task (`None` where a stored entry could
/// not be read) that a worker with capabilities `caps` can run.
pub fn first_supported(tasks: &Vec<Option<Task>>, caps: &WorkerCapabilities) -> (r: Option<usize>)
    ensures
        match r {
            Some(i) => i < tasks@.len() && (tasks@[i as int] matches Some(t) && spec_supports(
                *caps,
                t.capabilities,
            )) && forall|j: int|
                0 <= j < i ==> !(#[trigger] tasks@[j] matches Some(t) && spec_supports(*caps, t.capabilities)),
            None => forall|j: int|
                0 <= j < tasks@.len() ==> !(#[trigger] tasks@[j] matches Some(t) && spec_supports(
                    *caps,
                    t.capabilities,
                )),
        },
{
    let mut i: usize = 0;
    while i < tasks.len()
        invariant
            i <= tasks@.len(),
            forall|j: int|
                0 <= j < i ==> !(#[trigger] tasks@[j] matches Some(t) && spec_supports(*caps, t.capabilities)),
        decreases tasks@.len() - i,
    {
        match &tasks[i] {
            Some(t) => {
                if caps.supports(t.capabilities) {
                    return Some(i);
                }
            },
            None => {},
        }
        i = i + 1;
    }
    None
}

} // verus!
