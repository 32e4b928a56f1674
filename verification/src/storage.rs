//! The broker's in-memory storage: three priority queues of tasks, the
//! result record of every task handed out, the leases that bind running
//! tasks to workers, the worker registry and the users.

use crate::auth::{same_user, User};
use crate::capabilities::{spec_supports, WorkerCapabilities};
use crate::maps::{IdMap, NameMap};
use crate::task::{running_record, Lease, Task, TaskId, TaskPriority, TaskResult, TaskStatus, Timestamp};
use std::collections::VecDeque;
use vstd::prelude::*;

verus! {

broadcast use vstd::std_specs::vecdeque::group_vec_dequeue_axioms;

/// What the broker knows of a registered worker.
#[derive(Clone, Debug)]
pub struct WorkerInfo {
    pub worker_id: String,
    pub last_heartbeat: Timestamp,
    pub active: bool,
    pub capabilities: WorkerCapabilities,
}

impl WorkerInfo {
    /// A copy of this record.
    pub fn duplicate(&self) -> (r: WorkerInfo)
        ensures
            r == *self,
    {
        WorkerInfo {
            worker_id: self.worker_id.clone(),
            last_heartbeat: self.last_heartbeat,
            active: self.active,
            capabilities: self.capabilities,
        }
    }
}

/// Why a storage operation did not complete.
#[derive(Clone, Copy, Debug, PartialEq, Eq, Structural)]
pub enum StorageError {
    /// There is no lease for the task.
    LeaseNotFound,
    /// There is no result record for the task.
    ResultNotFound,
    /// The worker was not in the registry before it was inserted.
    RegistryInsertion,
}

/// The abstract state of the storage.
#[verifier::ext_equal]
pub struct StorageModel {
    pub high: Seq<Task>,
    pub mid: Seq<Task>,
    pub low: Seq<Task>,
    pub results: Map<TaskId, TaskResult>,
    pub leases: Map<TaskId, Lease>,
    pub workers: Map<Seq<char>, WorkerInfo>,
    pub users: Seq<User>,
}

impl StorageModel {
    /// The queue that holds tasks of priority `p`.
    pub open spec fn queue(self, p: TaskPriority) -> Seq<Task> {
        match p {
            TaskPriority::High => self.high,
            TaskPriority::Medium => self.mid,
            TaskPriority::Low => self.low,
        }
    }
}

/// Some task of `q` can run on a worker with capabilities `caps`.
pub open spec fn has_compatible(q: Seq<Task>, caps: WorkerCapabilities) -> bool {
    exists|i: int| 0 <= i < q.len() && spec_supports(caps, #[trigger] q[i].capabilities)
}

/// `i` is the position of the oldest task of `q` that a worker with
/// capabilities `caps` can run.
pub open spec fn first_compatible_at(q: Seq<Task>, caps: WorkerCapabilities, i: int) -> bool {
    &&& 0 <= i < q.len()
    &&& spec_supports(caps, q[i].capabilities)
    &&& forall|j: int| 0 <= j < i ==> !spec_supports(caps, #[trigger] q[j].capabilities)
}

/// `after` is `before` without its oldest task that a worker with
/// capabilities `caps` can run, and that task is `t`.
pub open spec fn popped(before: Seq<Task>, after: Seq<Task>, caps: WorkerCapabilities, t: Task) -> bool {
    exists|i: int|
        #![trigger first_compatible_at(before, caps, i)]
        first_compatible_at(before, caps, i) && t == before[i] && after == before.remove(i)
}

/// Removes and returns the oldest task of `queue` that a worker with
/// capabilities `worker_caps` can run; the other tasks keep their order.
pub fn pop_compatible(queue: &mut VecDeque<Task>, worker_caps: &WorkerCapabilities) -> (r: Option<Task>)
    ensures
        match r {
            None => !has_compatible(old(queue)@, *worker_caps) && final(queue)@ == old(queue)@,
            Some(t) => popped(old(queue)@, final(queue)@, *worker_caps, t),
        },
{
    let mut i: usize = 0;
    let n = queue.len();
    while i < n
        invariant
            n == queue@.len(),
            queue@ == old(queue)@,
            i <= n,
            forall|j: int| 0 <= j < i ==> !spec_supports(*worker_caps, #[trigger] queue@[j].capabilities),
        decreases n - i,
    {
        if worker_caps.supports(queue[i].capabilities) {
            let ghost before = queue@;
            let t = queue.remove(i);
            assert(first_compatible_at(before, *worker_caps, i as int));
            return t;
        }
        i = i + 1;
    }
    None
}

/// The broker's storage kept in memory.
pub struct InMemoryStorage {
    high_prio: VecDeque<Task>,
    mid_prio: VecDeque<Task>,
    low_prio: VecDeque<Task>,
    results: IdMap<TaskResult>,
    leases: IdMap<Lease>,
    worker_registry: NameMap<WorkerInfo>,
    users: Vec<User>,
}

impl View for InMemoryStorage {
    type V = StorageModel;

    closed spec fn view(&self) -> StorageModel {
        StorageModel {
            high: self.high_prio@,
            mid: self.mid_prio@,
            low: self.low_prio@,
            results: self.results@,
            leases: self.leases@,
            workers: self.worker_registry@,
            users: self.users@,
        }
    }
}

impl InMemoryStorage {
    /// The storage is consistent: its maps are well formed, each worker is
    /// filed under its own id, and no user is stored twice.
    pub closed spec fn wf(&self) -> bool {
        &&& self.results.wf()
        &&& self.leases.wf()
        &&& self.worker_registry.wf()
        &&& forall|k: Seq<char>| #[trigger]
            self.worker_registry@.contains_key(k) ==> self.worker_registry@[k].worker_id@ == k
        &&& forall|i: int, j: int|
            0 <= i < j < self.users@.len() ==> !same_user(self.users@[i], self.users@[j])
        &&& queues_by_priority(self@)
    }

    /// The result records, oldest first.
    pub closed spec fn result_entries(&self) -> Seq<(TaskId, TaskResult)> {
        self.results.entries()
    }

    /// The registered workers, in order of registration.
    pub closed spec fn worker_entries(&self) -> Seq<(Seq<char>, WorkerInfo)> {
        self.worker_registry.entries()
    }

    /// The leases, oldest first.
    pub closed spec fn lease_entries(&self) -> Seq<(TaskId, Lease)> {
        self.leases.entries()
    }

    /// How the ordered listings relate to the model.
    pub proof fn lemma_entries(&self)
        requires
            self.wf(),
        ensures
            forall|i: int|
                0 <= i < self.result_entries().len() ==> #[trigger] self@.results.contains_key(
                    self.result_entries()[i].0,
                ) && self@.results[self.result_entries()[i].0] == self.result_entries()[i].1,
            forall|k: TaskId|
                #[trigger] self@.results.contains_key(k) ==> exists|i: int|
                    0 <= i < self.result_entries().len() && self.result_entries()[i].0 == k,
            forall|i: int, j: int|
                0 <= i < j < self.result_entries().len() ==> self.result_entries()[i].0
                    != self.result_entries()[j].0,
            forall|i: int|
                0 <= i < self.lease_entries().len() ==> #[trigger] self@.leases.contains_key(
                    self.lease_entries()[i].0,
                ) && self@.leases[self.lease_entries()[i].0] == self.lease_entries()[i].1,
            forall|k: TaskId|
                #[trigger] self@.leases.contains_key(k) ==> exists|i: int|
                    0 <= i < self.lease_entries().len() && self.lease_entries()[i].0 == k,
            forall|i: int|
                0 <= i < self.worker_entries().len() ==> #[trigger] self@.workers.contains_key(
                    self.worker_entries()[i].0,
                ) && self@.workers[self.worker_entries()[i].0] == self.worker_entries()[i].1,
            forall|k: Seq<char>|
                #[trigger] self@.workers.contains_key(k) ==> exists|i: int|
                    0 <= i < self.worker_entries().len() && self.worker_entries()[i].0 == k,
            forall|k: Seq<char>| #[trigger]
                self@.workers.contains_key(k) ==> self@.workers[k].worker_id@ == k,
            queues_by_priority(self@),
    {
        self.results.lemma_wf();
        self.leases.lemma_wf();
        self.worker_registry.lemma_wf();
        assert forall|k: TaskId| #[trigger] self@.results.contains_key(k) implies exists|i: int|
            0 <= i < self.result_entries().len() && self.result_entries()[i].0 == k by {
            let i = choose|i: int| 0 <= i < self.results.entries().len() && self.results.entries()[i].0 == k;
            assert(self.result_entries()[i].0 == k);
        }
        assert forall|k: TaskId| #[trigger] self@.leases.contains_key(k) implies exists|i: int|
            0 <= i < self.lease_entries().len() && self.lease_entries()[i].0 == k by {
            let i = choose|i: int| 0 <= i < self.leases.entries().len() && self.leases.entries()[i].0 == k;
            assert(self.lease_entries()[i].0 == k);
        }
        assert forall|k: Seq<char>| #[trigger] self@.workers.contains_key(k) implies exists|i: int|
            0 <= i < self.worker_entries().len() && self.worker_entries()[i].0 == k by {
            let i = choose|i: int| 0 <= i < self.worker_registry.entries().len() && self.worker_registry.entries()[i].0 == k;
            assert(self.worker_entries()[i].0 == k);
        }
    }

    /// No two registered workers share an id.
    pub proof fn worker_registry_keys_unique(&self)
        requires
            self.wf(),
        ensures
            forall|a: int, b: int|
                0 <= a < b < self.worker_entries().len() ==> self.worker_entries()[a].0
                    != self.worker_entries()[b].0,
    {
        self.worker_registry.lemma_wf();
    }

    /// An empty storage.
    pub fn new() -> (r: Self)
        ensures
            r.wf(),
            r@ == (StorageModel {
                high: Seq::empty(),
                mid: Seq::empty(),
                low: Seq::empty(),
                results: Map::empty(),
                leases: Map::empty(),
                workers: Map::empty(),
                users: Seq::empty(),
            }),
            r.result_entries() == Seq::<(TaskId, TaskResult)>::empty(),
    {
        InMemoryStorage {
            high_prio: VecDeque::new(),
            mid_prio: VecDeque::new(),
            low_prio: VecDeque::new(),
            results: IdMap::new(),
            leases: IdMap::new(),
            worker_registry: NameMap::new(),
            users: Vec::new(),
        }
    }

    /// How many tasks wait in the queue of `priority`.
    pub fn queued_count(&self, priority: TaskPriority) -> (r: usize)
        ensures
            r == self@.queue(priority).len(),
    {
        match priority {
            TaskPriority::High => self.high_prio.len(),
            TaskPriority::Medium => self.mid_prio.len(),
            TaskPriority::Low => self.low_prio.len(),
        }
    }

    /// The tasks waiting in the queue of `priority`, oldest first.
    pub fn queued_tasks(&self, priority: TaskPriority) -> (r: Vec<Task>)
        ensures
            r@ == self@.queue(priority),
    {
        let q = match priority {
            TaskPriority::High => &self.high_prio,
            TaskPriority::Medium => &self.mid_prio,
            TaskPriority::Low => &self.low_prio,
        };
        let mut out: Vec<Task> = Vec::new();
        let mut i: usize = 0;
        while i < q.len()
            invariant
                q@ == self@.queue(priority),
                i <= q@.len(),
                out@ == q@.subrange(0, i as int),
            decreases q@.len() - i,
        {
            out.push(q[i].duplicate());
            i = i + 1;
            assert(out@ =~= q@.subrange(0, i as int));
        }
        assert(q@.subrange(0, q@.len() as int) =~= q@);
        out
    }

    /// Appends a task to the queue of its priority.
    pub fn enqueue_task(&mut self, task: Task) -> (r: Result<(), StorageError>)
        requires
            old(self).wf(),
        ensures
            final(self).wf(),
            r is Ok,
            enqueued(old(self)@, final(self)@, task),
            final(self).result_entries() == old(self).result_entries(),
            final(self).lease_entries() == old(self).lease_entries(),
            final(self).worker_entries() == old(self).worker_entries(),
    {
        match task.priority {
            TaskPriority::High => self.high_prio.push_back(task),
            TaskPriority::Medium => self.mid_prio.push_back(task),
            TaskPriority::Low => self.low_prio.push_back(task),
        }
        Ok(())
    }

    /// Takes the oldest task a worker with capabilities `worker_caps` can
    /// run from the highest priority queue that holds one, records it as
    /// running and leases it to `worker_id`, stamped with the current time.
    pub fn dequeue_task(&mut self, worker_id: &str, worker_caps: &WorkerCapabilities) -> (r: Option<Task>)
        requires
            old(self).wf(),
        ensures
            final(self).wf(),
            exists|now: Timestamp| dequeued(old(self)@, final(self)@, worker_id@, *worker_caps, now, r),
    {
        let now = crate::clock::now_millis();
        self.dequeue_task_at(worker_id, worker_caps, now)
    }

    /// `dequeue_task` at time `now`.
    pub fn dequeue_task_at(&mut self, worker_id: &str, worker_caps: &WorkerCapabilities, now: Timestamp) -> (r: Option<Task>)
        requires
            old(self).wf(),
        ensures
            final(self).wf(),
            dequeued(old(self)@, final(self)@, worker_id@, *worker_caps, now, r),
    {
        let task = match pop_compatible(&mut self.high_prio, worker_caps) {
            Some(t) => Some(t),
            None => match pop_compatible(&mut self.mid_prio, worker_caps) {
                Some(t) => Some(t),
                None => pop_compatible(&mut self.low_prio, worker_caps),
            },
        };
        match task {
            Some(t) => {
                let id = t.id;
                let record = TaskResult {
                    id,
                    owner_id: t.owner_id,
                    name: t.name.clone(),
                    code_b64: t.code_b64.clone(),
                    result: None,
                    status: TaskStatus::Running,
                    capabilities: t.capabilities,
                };
                self.results.insert(id, record);
                let lease = Lease { worker_id: worker_id.to_owned(), attempts: 0, start_time: now };
                self.leases.insert(id, lease);
                assert(self@.leases.remove(id) =~= old(self)@.leases.remove(id));
                Some(t)
            },
            None => None,
        }
    }

    /// The lease of a task, if it has one.
    pub fn get_lease(&self, task_id: TaskId) -> (r: Option<Lease>)
        requires
            self.wf(),
        ensures
            r == (if self@.leases.contains_key(task_id) {
                Some(self@.leases[task_id])
            } else {
                None
            }),
    {
        match self.leases.get(task_id) {
            Some(l) => Some(l.duplicate()),
            None => None,
        }
    }

    /// Removes the lease of a task (the worker finished it or was lost) and
    /// returns it.
    pub fn remove_lease(&mut self, task_id: TaskId) -> (r: Option<Lease>)
        requires
            old(self).wf(),
        ensures
            final(self).wf(),
            r == (if old(self)@.leases.contains_key(task_id) {
                Some(old(self)@.leases[task_id])
            } else {
                None
            }),
            lease_removed(old(self)@, final(self)@, task_id),
    {
        self.leases.remove(task_id)
    }

    /// Removes all the leases of a worker and returns the ids of their tasks.
    pub fn remove_leases_of_worker(&mut self, worker_id: &str) -> (r: Result<Vec<TaskId>, StorageError>)
        requires
            old(self).wf(),
        ensures
            final(self).wf(),
            r matches Ok(ids) && ids@.no_duplicates() && forall|k: TaskId|
                #[trigger] ids@.contains(k) == (old(self)@.leases.contains_key(k)
                    && old(self)@.leases[k].worker_id@ == worker_id@),
            final(self)@ == (StorageModel {
                leases: leases_without_worker(old(self)@.leases, worker_id@),
                ..old(self)@
            }),
    {
        let ghost old_leases = self.leases@;
        proof { self.leases.lemma_wf(); }
        let mut ids: Vec<TaskId> = Vec::new();
        let n = self.leases.len();
        let mut i: usize = 0;
        while i < n
            invariant
                n == self.leases.entries().len(),
                i <= n,
                self.leases.wf(),
                forall|a: int, b: int|
                    0 <= a < b < self.leases.entries().len() ==> self.leases.entries()[a].0 != self.leases.entries()[b].0,
                ids@.no_duplicates(),
                forall|k: TaskId| #[trigger] ids@.contains(k) == (exists|j: int|
                    0 <= j < i && self.leases.entries()[j].0 == k
                        && self.leases.entries()[j].1.worker_id@ == worker_id@),
            decreases n - i,
        {
            let (k, l) = self.leases.entry(i);
            let ghost old_ids = ids@;
            if crate::text::str_eq(l.worker_id.as_str(), worker_id) {
                proof {
                    if ids@.contains(*k) {
                        let j = choose|j: int|
                            0 <= j < i && self.leases.entries()[j].0 == *k
                                && self.leases.entries()[j].1.worker_id@ == worker_id@;
                        assert(self.leases.entries()[j].0 != self.leases.entries()[i as int].0);
                    }
                }
                ids.push(*k);
                assert(ids@ == old_ids.push(*k));
                assert forall|kk: TaskId| #[trigger] ids@.contains(kk) == (exists|j: int|
                    0 <= j < i + 1 && self.leases.entries()[j].0 == kk
                        && self.leases.entries()[j].1.worker_id@ == worker_id@) by {
                    if kk == *k {
                        assert(ids@[ids@.len() - 1] == kk);
                    } else {
                        if old_ids.contains(kk) {
                            let x = choose|x: int| 0 <= x < old_ids.len() && old_ids[x] == kk;
                            assert(ids@[x] == kk);
                        }
                        if ids@.contains(kk) {
                            let x = choose|x: int| 0 <= x < ids@.len() && ids@[x] == kk;
                            assert(old_ids[x] == kk);
                        }
                    }
                }
            } else {
                assert forall|kk: TaskId| #[trigger] ids@.contains(kk) == (exists|j: int|
                    0 <= j < i + 1 && self.leases.entries()[j].0 == kk
                        && self.leases.entries()[j].1.worker_id@ == worker_id@) by {
                    if exists|j: int| 0 <= j < i + 1 && self.leases.entries()[j].0 == kk
                        && self.leases.entries()[j].1.worker_id@ == worker_id@ {
                        let j = choose|j: int| 0 <= j < i + 1 && self.leases.entries()[j].0 == kk
                            && self.leases.entries()[j].1.worker_id@ == worker_id@;
                        assert(j != i);
                    }
                }
            }
            i = i + 1;
        }
        assert forall|k: TaskId| #[trigger] ids@.contains(k) == (old_leases.contains_key(k)
            && old_leases[k].worker_id@ == worker_id@) by {
            if old_leases.contains_key(k) {
                let j = choose|j: int| 0 <= j < self.leases.entries().len() && self.leases.entries()[j].0 == k;
                assert(old_leases[self.leases.entries()[j].0] == self.leases.entries()[j].1);
            }
            if ids@.contains(k) {
                let j = choose|j: int| 0 <= j < n && self.leases.entries()[j].0 == k
                    && self.leases.entries()[j].1.worker_id@ == worker_id@;
                assert(old_leases.contains_key(self.leases.entries()[j].0));
            }
        }
        let mut m: usize = 0;
        while m < ids.len()
            invariant
                m <= ids@.len(),
                self.leases.wf(),
                self.high_prio@ == old(self).high_prio@,
                self.mid_prio@ == old(self).mid_prio@,
                self.low_prio@ == old(self).low_prio@,
                self.results == old(self).results,
                self.worker_registry == old(self).worker_registry,
                self.users == old(self).users,
                old(self).wf(),
                ids@.no_duplicates(),
                forall|k: TaskId| #[trigger] ids@.contains(k) == (old_leases.contains_key(k)
                    && old_leases[k].worker_id@ == worker_id@),
                forall|k: TaskId| #[trigger] self.leases@.contains_key(k) == (old_leases.contains_key(k)
                    && !(exists|x: int| 0 <= x < m && ids@[x] == k)),
                forall|k: TaskId| #[trigger] self.leases@.contains_key(k) ==> self.leases@[k] == old_leases[k],
            decreases ids@.len() - m,
        {
            let id = ids[m];
            self.leases.remove(id);
            assert forall|k: TaskId| #[trigger] self.leases@.contains_key(k) == (old_leases.contains_key(k)
                && !(exists|x: int| 0 <= x < m + 1 && ids@[x] == k)) by {
                if k == id {
                    assert(ids@[m as int] == k);
                } else {
                    if exists|x: int| 0 <= x < m + 1 && ids@[x] == k {
                        let x = choose|x: int| 0 <= x < m + 1 && ids@[x] == k;
                        assert(x != m);
                    }
                }
            }
            m = m + 1;
        }
        assert forall|k: TaskId| #[trigger] self.leases@.contains_key(k) == (old_leases.contains_key(k)
            && old_leases[k].worker_id@ != worker_id@) by {
            if exists|x: int| 0 <= x < m && ids@[x] == k {
                let x = choose|x: int| 0 <= x < m && ids@[x] == k;
                assert(ids@.contains(k));
            }
            if ids@.contains(k) {
                let x = choose|x: int| 0 <= x < ids@.len() && ids@[x] == k;
                assert(0 <= x < m && ids@[x] == k);
            }
        }
        assert(self.leases@ =~= leases_without_worker(old_leases, worker_id@));
        Ok(ids)
    }

    /// All the leases, oldest first.
    pub fn get_all_leases(&self) -> (r: Vec<(TaskId, Lease)>)
        requires
            self.wf(),
        ensures
            r@ == self.lease_entries(),
    {
        let mut out: Vec<(TaskId, Lease)> = Vec::new();
        let n = self.leases.len();
        let mut i: usize = 0;
        while i < n
            invariant
                n == self.leases.entries().len(),
                i <= n,
                out@ == self.leases.entries().subrange(0, i as int),
            decreases n - i,
        {
            let e = self.leases.entry(i);
            out.push((e.0, e.1.duplicate()));
            i = i + 1;
            assert(out@ =~= self.leases.entries().subrange(0, i as int));
        }
        assert(out@ =~= self.leases.entries());
        out
    }

    /// Stores the result record of a task (completed, failed, ...).
    pub fn store_result(&mut self, task_id: TaskId, result: TaskResult)
        requires
            old(self).wf(),
        ensures
            final(self).wf(),
            result_stored(old(self)@, final(self)@, task_id, result),
    {
        self.results.insert(task_id, result);
    }

    /// Whether the storage holds a result record for the task.
    pub fn contains_result(&self, task_id: TaskId) -> (r: bool)
        requires
            self.wf(),
        ensures
            r == self@.results.contains_key(task_id),
    {
        self.results.contains_key(task_id)
    }

    /// The result record of a task, if there is one.
    pub fn get_task_result(&self, task_id: TaskId) -> (r: Option<TaskResult>)
        requires
            self.wf(),
        ensures
            r == (if self@.results.contains_key(task_id) {
                Some(self@.results[task_id])
            } else {
                None
            }),
    {
        match self.results.get(task_id) {
            Some(res) => Some(res.duplicate()),
            None => None,
        }
    }

    /// All result records, oldest first; `None` when there is none.
    pub fn get_all_tasks(&self) -> (r: Option<Vec<TaskResult>>)
        requires
            self.wf(),
        ensures
            match r {
                None => self.result_entries().len() == 0,
                Some(v) => self.result_entries().len() > 0 && v@ == self.result_entries().map_values(
                    |e: (TaskId, TaskResult)| e.1,
                ),
            },
    {
        let mut out: Vec<TaskResult> = Vec::new();
        let n = self.results.len();
        let mut i: usize = 0;
        while i < n
            invariant
                n == self.results.entries().len(),
                i <= n,
                out@ == self.results.entries().subrange(0, i as int).map_values(
                    |e: (TaskId, TaskResult)| e.1,
                ),
            decreases n - i,
        {
            let e = self.results.entry(i);
            out.push(e.1.duplicate());
            i = i + 1;
            assert(out@ =~= self.results.entries().subrange(0, i as int).map_values(
                |e: (TaskId, TaskResult)| e.1,
            ));
        }
        assert(self.results.entries().subrange(0, n as int) =~= self.results.entries());
        if out.len() == 0 {
            None
        } else {
            Some(out)
        }
    }

    /// Records a failed attempt of a task: its lease counts one more attempt
    /// and its result record is marked failed. Returns whether the attempts
    /// reached `max_attempts`, and the worker that holds the lease.
    pub fn mark_task_failed(&mut self, task_id: TaskId, max_attempts: usize) -> (r: Result<(bool, String), StorageError>)
        requires
            old(self).wf(),
            old(self)@.leases.contains_key(task_id) ==> old(self)@.leases[task_id].attempts < usize::MAX,
        ensures
            final(self).wf(),
            failure_marked(old(self)@, final(self)@, task_id, max_attempts, r),
    {
        let lease = match self.leases.get(task_id) {
            Some(l) => l.duplicate(),
            None => return Err(StorageError::LeaseNotFound),
        };
        let attempts = lease.attempts + 1;
        let wid = lease.worker_id.clone();
        let bumped = Lease { worker_id: lease.worker_id, attempts, start_time: lease.start_time };
        self.leases.insert(task_id, bumped);
        let record = match self.results.get(task_id) {
            Some(res) => res.duplicate(),
            None => return Err(StorageError::ResultNotFound),
        };
        let failed = TaskResult { status: TaskStatus::Failed, ..record };
        self.results.insert(task_id, failed);
        Ok((attempts >= max_attempts, wid))
    }

    /// Files a worker under its id, replacing what was filed there. The
    /// worker is filed in any case; the result is an error when no worker
    /// was filed under that id before.
    pub fn insert_worker_info_to_registry(&mut self, worker: WorkerInfo) -> (r: Result<(), StorageError>)
        requires
            old(self).wf(),
        ensures
            final(self).wf(),
            final(self)@ == (StorageModel { workers: old(self)@.workers.insert(worker.worker_id@, worker), ..old(self)@ }),
            r == (if old(self)@.workers.contains_key(worker.worker_id@) {
                Ok::<(), StorageError>(())
            } else {
                Err(StorageError::RegistryInsertion)
            }),
    {
        let key = worker.worker_id.clone();
        match self.worker_registry.insert(key, worker) {
            Some(_) => Ok(()),
            None => Err(StorageError::RegistryInsertion),
        }
    }

    /// Whether a worker is registered under `worker_id`.
    pub fn exists_worker(&self, worker_id: &str) -> (r: bool)
        requires
            self.wf(),
        ensures
            r == self@.workers.contains_key(worker_id@),
    {
        self.worker_registry.contains_key(worker_id)
    }

    /// The registry record of a worker, if it is registered.
    pub fn get_worker_from_registry(&self, worker_id: &str) -> (r: Option<WorkerInfo>)
        requires
            self.wf(),
        ensures
            r == (if self@.workers.contains_key(worker_id@) {
                Some(self@.workers[worker_id@])
            } else {
                None
            }),
    {
        match self.worker_registry.get(worker_id) {
            Some(w) => Some(w.duplicate()),
            None => None,
        }
    }

    /// All registered workers, in order of registration.
    pub fn get_worker_registry(&self) -> (r: Vec<WorkerInfo>)
        requires
            self.wf(),
        ensures
            r@ == self.worker_entries().map_values(|e: (Seq<char>, WorkerInfo)| e.1),
    {
        let mut out: Vec<WorkerInfo> = Vec::new();
        let n = self.worker_registry.len();
        let mut i: usize = 0;
        while i < n
            invariant
                n == self.worker_registry.entries().len(),
                i <= n,
                out@ == self.worker_registry.entries().subrange(0, i as int).map_values(
                    |e: (Seq<char>, WorkerInfo)| e.1,
                ),
            decreases n - i,
        {
            let (_, w) = self.worker_registry.entry(i);
            out.push(w.duplicate());
            i = i + 1;
            assert(out@ =~= self.worker_registry.entries().subrange(0, i as int).map_values(
                |e: (Seq<char>, WorkerInfo)| e.1,
            ));
        }
        assert(self.worker_registry.entries().subrange(0, n as int) =~= self.worker_registry.entries());
        out
    }

    /// Removes a worker from the registry and returns its record.
    pub fn remove_worker_from_registry(&mut self, worker_id: &str) -> (r: Option<WorkerInfo>)
        requires
            old(self).wf(),
        ensures
            final(self).wf(),
            r == (if old(self)@.workers.contains_key(worker_id@) {
                Some(old(self)@.workers[worker_id@])
            } else {
                None
            }),
            final(self)@ == (StorageModel { workers: old(self)@.workers.remove(worker_id@), ..old(self)@ }),
    {
        self.worker_registry.remove(worker_id)
    }

    /// Adds a user; a record equal in every field to a stored one is not
    /// stored twice.
    pub fn create_user(&mut self, user: User) -> (r: Result<(), StorageError>)
        requires
            old(self).wf(),
        ensures
            final(self).wf(),
            r is Ok,
            (exists|i: int| 0 <= i < old(self)@.users.len() && same_user(old(self)@.users[i], user))
                ==> final(self)@ == old(self)@,
            !(exists|i: int| 0 <= i < old(self)@.users.len() && same_user(old(self)@.users[i], user))
                ==> final(self)@ == (StorageModel { users: old(self)@.users.push(user), ..old(self)@ }),
    {
        let mut i: usize = 0;
        while i < self.users.len()
            invariant
                self.wf(),
                *self == *old(self),
                i <= self.users@.len(),
                forall|j: int| 0 <= j < i ==> !same_user(self.users@[j], user),
            decreases self.users@.len() - i,
        {
            if self.users[i].same_as(&user) {
                return Ok(());
            }
            i = i + 1;
        }
        self.users.push(user);
        Ok(())
    }

    /// The first stored user named `username`, if any.
    pub fn get_user(&self, username: &str) -> (r: Result<Option<User>, StorageError>)
        requires
            self.wf(),
        ensures
            r matches Ok(found) && match found {
                None => forall|i: int| 0 <= i < self@.users.len() ==> self@.users[i].name@ != username@,
                Some(u) => exists|i: int|
                    0 <= i < self@.users.len() && self@.users[i].name@ == username@ && same_user(u, self@.users[i])
                        && forall|j: int| 0 <= j < i ==> self@.users[j].name@ != username@,
            },
    {
        let mut i: usize = 0;
        while i < self.users.len()
            invariant
                i <= self.users@.len(),
                forall|j: int| 0 <= j < i ==> self.users@[j].name@ != username@,
            decreases self.users@.len() - i,
        {
            if crate::text::str_eq(self.users[i].name.as_str(), username) {
                let u = self.users[i].duplicate();
                assert(self@.users[i as int].name@ == username@ && same_user(u, self@.users[i as int])
                    && forall|j: int| 0 <= j < i ==> self@.users[j].name@ != username@);
                return Ok(Some(u));
            }
            i = i + 1;
        }
        Ok(None)
    }
}

/// Every queue holds only tasks of its own priority.
pub open spec fn queues_by_priority(m: StorageModel) -> bool {
    &&& forall|i: int| 0 <= i < m.high.len() ==> (#[trigger] m.high[i]).priority == TaskPriority::High
    &&& forall|i: int| 0 <= i < m.mid.len() ==> (#[trigger] m.mid[i]).priority == TaskPriority::Medium
    &&& forall|i: int| 0 <= i < m.low.len() ==> (#[trigger] m.low[i]).priority == TaskPriority::Low
}

/// What `enqueue_task` does: the task goes last in the queue of its priority.
pub open spec fn enqueued(before: StorageModel, after: StorageModel, task: Task) -> bool {
    after == (match task.priority {
        TaskPriority::High => StorageModel { high: before.high.push(task), ..before },
        TaskPriority::Medium => StorageModel { mid: before.mid.push(task), ..before },
        TaskPriority::Low => StorageModel { low: before.low.push(task), ..before },
    })
}

/// What `store_result` does: the record of `id` becomes `result`.
pub open spec fn result_stored(before: StorageModel, after: StorageModel, id: TaskId, result: TaskResult) -> bool {
    after == (StorageModel { results: before.results.insert(id, result), ..before })
}

/// What `remove_lease` does: the lease of `id` is gone.
pub open spec fn lease_removed(before: StorageModel, after: StorageModel, id: TaskId) -> bool {
    after == (StorageModel { leases: before.leases.remove(id), ..before })
}

/// What `mark_task_failed` does: without a lease it fails and changes
/// nothing; otherwise the lease counts one more attempt, and then without a
/// result record it fails, while with one the record is marked failed and
/// the answer tells whether the attempts reached `max_attempts` and which
/// worker holds the lease.
pub open spec fn failure_marked(
    before: StorageModel,
    after: StorageModel,
    id: TaskId,
    max_attempts: usize,
    r: Result<(bool, String), StorageError>,
) -> bool {
    if !before.leases.contains_key(id) {
        r == Err::<(bool, String), StorageError>(StorageError::LeaseNotFound) && after == before
    } else {
        let l = before.leases[id];
        let bumped = Lease { attempts: (l.attempts + 1) as usize, ..l };
        if !before.results.contains_key(id) {
            &&& r == Err::<(bool, String), StorageError>(StorageError::ResultNotFound)
            &&& after == (StorageModel { leases: before.leases.insert(id, bumped), ..before })
        } else {
            &&& after == (StorageModel {
                leases: before.leases.insert(id, bumped),
                results: before.results.insert(
                    id,
                    TaskResult { status: TaskStatus::Failed, ..before.results[id] },
                ),
                ..before
            })
            &&& r matches Ok((too_many, wid)) && too_many == (l.attempts + 1 >= max_attempts)
                && wid@ == l.worker_id@
        }
    }
}

/// The leases that do not belong to `worker_id`.
pub open spec fn leases_without_worker(leases: Map<TaskId, Lease>, worker_id: Seq<char>) -> Map<TaskId, Lease> {
    leases.restrict(leases.dom().filter(|k: TaskId| leases[k].worker_id@ != worker_id))
}

/// What `dequeue_task` does, at time `now`: when some queue holds a task the
/// worker can run, the oldest such task of the highest priority queue that
/// holds one leaves its queue, gets a running result record and a lease to
/// the worker with no attempts yet; otherwise nothing changes.
pub open spec fn dequeued(
    before: StorageModel,
    after: StorageModel,
    worker_id: Seq<char>,
    caps: WorkerCapabilities,
    now: Timestamp,
    r: Option<Task>,
) -> bool {
    match r {
        None => {
            &&& !has_compatible(before.high, caps)
            &&& !has_compatible(before.mid, caps)
            &&& !has_compatible(before.low, caps)
            &&& after == before
        },
        Some(t) => {
            &&& {
                ||| popped(before.high, after.high, caps, t) && after.mid == before.mid && after.low == before.low
                ||| !has_compatible(before.high, caps) && after.high == before.high
                    && popped(before.mid, after.mid, caps, t) && after.low == before.low
                ||| !has_compatible(before.high, caps) && !has_compatible(before.mid, caps)
                    && after.high == before.high && after.mid == before.mid
                    && popped(before.low, after.low, caps, t)
            }
            &&& after.results == before.results.insert(t.id, running_record(t))
            &&& after.leases.contains_key(t.id)
            &&& after.leases[t.id].worker_id@ == worker_id
            &&& after.leases[t.id].attempts == 0
            &&& after.leases[t.id].start_time == now
            &&& after.leases.remove(t.id) == before.leases.remove(t.id)
            &&& after.workers == before.workers
            &&& after.users == before.users
        },
    }
}

} // verus!
