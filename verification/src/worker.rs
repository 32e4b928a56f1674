//! The worker's decisions: request ids, reconnection back-off, its queue of
//! fetched tasks and the tasks it runs, what it does with the broker's
//! messages, and what it reports after each run of a task.

use crate::external::{base64_decoding, decode_base64, lossy_string, utf8_lossy};
use crate::maps::IdMap;
use crate::task::{Task, TaskId, TaskResult, TaskStatus};
use std::collections::VecDeque;
use vstd::prelude::*;
use vstd::string::StringSliceAdditionalSpecFns;
use vstd::utf8::{decode_utf8, encode_utf8, valid_utf8};

verus! {

/// Hands out the next request id from `counter` and advances it; like an
/// atomic `fetch_add(1)`, it wraps around at `usize::MAX`.
pub fn next_id(counter: &mut usize) -> (r: usize)
    ensures
        r == *old(counter),
        *final(counter) == (if *old(counter) == usize::MAX { 0 } else { (*old(counter) + 1) as usize }),
{
    let r = *counter;
    *counter = counter.wrapping_add(1);
    r
}

/// The longest pause between two connection attempts, in seconds.
pub const MAX_BACKOFF_SECS: u64 = 60;

/// The pause before the next connection attempt, in seconds: twice the
/// last one, but never more than `MAX_BACKOFF_SECS`.
pub open spec fn backoff_after(secs: u64) -> u64 {
    if secs * 2 < MAX_BACKOFF_SECS {
        (secs * 2) as u64
    } else {
        MAX_BACKOFF_SECS
    }
}

/// The pause to wait after one of `secs` seconds failed to connect.
pub fn next_backoff(secs: u64) -> (r: u64)
    requires
        secs <= u64::MAX / 2,
    ensures
        r == backoff_after(secs),
{
    let doubled = secs * 2;
    if doubled < MAX_BACKOFF_SECS {
        doubled
    } else {
        MAX_BACKOFF_SECS
    }
}

/// The pause after `n` failed attempts in a row, starting from one second.
pub open spec fn backoff_sequence(n: nat) -> u64
    decreases n,
{
    if n == 0 {
        1
    } else {
        backoff_after(backoff_sequence((n - 1) as nat))
    }
}

/// The pause between attempts never leaves `1..=MAX_BACKOFF_SECS`, never
/// shrinks while the attempts keep failing, and reaches the maximum after
/// six failures.
pub proof fn law_backoff_bounded(n: nat)
    ensures
        1 <= backoff_sequence(n) <= MAX_BACKOFF_SECS,
        backoff_sequence(n) <= backoff_sequence(n + 1),
        n >= 6 ==> backoff_sequence(n) == MAX_BACKOFF_SECS,
    decreases n,
{
    if n > 0 {
        law_backoff_bounded((n - 1) as nat);
    }
    if n == 6 {
        reveal_with_fuel(backoff_sequence, 7);
    }
}

/// What a worker keeps: its id, the tasks fetched and not yet started
/// (oldest first), and a handle for each task it runs.
pub struct WorkerState<H> {
    pub id: String,
    pub task_list: VecDeque<Task>,
    pub running_tasks: IdMap<H>,
}

/// The abstract state of a worker.
pub struct WorkerModel<H> {
    pub queue: Seq<Task>,
    pub running: Map<TaskId, H>,
}

impl<H> View for WorkerState<H> {
    type V = WorkerModel<H>;

    open spec fn view(&self) -> WorkerModel<H> {
        WorkerModel { queue: self.task_list@, running: self.running_tasks@ }
    }
}

impl<H> WorkerState<H> {
    pub open spec fn wf(&self) -> bool {
        self.running_tasks.wf()
    }

    /// A worker named `id` with nothing fetched and nothing running.
    pub fn new(id: &str) -> (r: WorkerState<H>)
        ensures
            r.wf(),
            r.id@ == id@,
            r@.queue == Seq::<Task>::empty(),
            r@.running == Map::<TaskId, H>::empty(),
    {
        WorkerState { id: id.to_owned(), task_list: VecDeque::new(), running_tasks: IdMap::new() }
    }

    /// Forgets what was fetched and what runs (after a new registration).
    pub fn reset(&mut self)
        ensures
            final(self).wf(),
            final(self).id == old(self).id,
            final(self)@.queue == Seq::<Task>::empty(),
            final(self)@.running == Map::<TaskId, H>::empty(),
    {
        self.task_list.clear();
        self.running_tasks = IdMap::new();
    }

    /// Whether to ask the broker for another task: fewer than
    /// `max_concurrent_tasks` tasks wait in the queue.
    pub fn should_fetch(&self, max_concurrent_tasks: usize) -> (r: bool)
        ensures
            r == (self@.queue.len() < max_concurrent_tasks),
    {
        self.task_list.len() < max_concurrent_tasks
    }

    /// Queues a task the broker handed out.
    pub fn queue_task(&mut self, task: Task)
        ensures
            final(self).id == old(self).id,
            final(self).running_tasks == old(self).running_tasks,
            final(self)@.queue == old(self)@.queue.push(task),
    {
        self.task_list.push_back(task);
    }

    /// Takes the oldest queued task, to start it.
    pub fn next_task(&mut self) -> (r: Option<Task>)
        ensures
            final(self).id == old(self).id,
            final(self).running_tasks == old(self).running_tasks,
            old(self)@.queue.len() == 0 ==> r is None && final(self)@.queue == old(self)@.queue,
            old(self)@.queue.len() > 0 ==> r == Some(old(self)@.queue[0]) && final(self)@.queue
                == old(self)@.queue.drop_first(),
    {
        self.task_list.pop_front()
    }

    /// Records that task `id` runs, with the handle that stops it.
    pub fn start_running(&mut self, id: TaskId, handle: H)
        requires
            old(self).wf(),
        ensures
            final(self).wf(),
            final(self).id == old(self).id,
            final(self)@.queue == old(self)@.queue,
            final(self)@.running == old(self)@.running.insert(id, handle),
    {
        let _ = self.running_tasks.insert(id, handle);
    }

    /// Forgets task `id` as running; returns its handle, if it ran.
    pub fn finish(&mut self, id: TaskId) -> (r: Option<H>)
        requires
            old(self).wf(),
        ensures
            final(self).wf(),
            final(self).id == old(self).id,
            final(self)@.queue == old(self)@.queue,
            final(self)@.running == old(self)@.running.remove(id),
            match r {
                Some(h) => old(self)@.running.contains_key(id) && h == old(self)@.running[id],
                None => !old(self)@.running.contains_key(id),
            },
    {
        self.running_tasks.remove(id)
    }
}

/// A message from the broker, as the worker reads it.
pub enum ServerMessage {
    /// A response: whether it carries an error, and the task it hands out,
    /// when it carries one that could be read.
    Response { error: bool, task: Option<Task> },
    /// A `stop_execution` notification for a task.
    StopExecution(TaskId),
    /// Any other notification.
    OtherNotification,
}

/// What handling a broker message does: a response without error that
/// carries a task queues it; a stop request forgets the task as running and
/// yields its handle, to stop it; anything else changes nothing.
pub open spec fn server_message_handled<H>(
    before: WorkerModel<H>,
    after: WorkerModel<H>,
    msg: ServerMessage,
    r: Option<H>,
) -> bool {
    match msg {
        ServerMessage::Response { error, task } => r is None && if !error && task is Some {
            after == (WorkerModel { queue: before.queue.push(task->Some_0), ..before })
        } else {
            after == before
        },
        ServerMessage::StopExecution(id) => {
            &&& after == (WorkerModel { running: before.running.remove(id), ..before })
            &&& match r {
                Some(h) => before.running.contains_key(id) && h == before.running[id],
                None => !before.running.contains_key(id),
            }
        },
        ServerMessage::OtherNotification => r is None && after == before,
    }
}

/// Handles one message from the broker; returns the handle of a task to
/// stop.
pub fn handle_server_message<H>(state: &mut WorkerState<H>, msg: ServerMessage) -> (r: Option<H>)
    requires
        old(state).wf(),
    ensures
        final(state).wf(),
        final(state).id == old(state).id,
        server_message_handled(old(state)@, final(state)@, msg, r),
{
    match msg {
        ServerMessage::Response { error, task } => {
            if !error {
                match task {
                    Some(t) => state.queue_task(t),
                    None => {},
                }
            }
            None
        },
        ServerMessage::StopExecution(id) => state.finish(id),
        ServerMessage::OtherNotification => None,
    }
}

/// The record a worker reports for `task` with status `status` and result
/// `result`.
pub open spec fn report_of(task: Task, status: TaskStatus, result: Option<serde_json::Value>) -> TaskResult {
    TaskResult {
        id: task.id,
        owner_id: task.owner_id,
        name: task.name,
        code_b64: task.code_b64,
        result,
        status,
        capabilities: task.capabilities,
    }
}

/// The record to report for `task` with status `status` and result
/// `result`.
pub fn task_report(task: &Task, status: TaskStatus, result: Option<serde_json::Value>) -> (r: TaskResult)
    ensures
        r.id == task.id,
        r.owner_id == task.owner_id,
        r.name@ == task.name@,
        r.code_b64@ == task.code_b64@,
        r.result == result,
        r.status == status,
        r.capabilities == task.capabilities,
{
    TaskResult {
        id: task.id,
        owner_id: task.owner_id,
        name: task.name.clone(),
        code_b64: task.code_b64.clone(),
        result,
        status,
        capabilities: task.capabilities,
    }
}

/// The source code of a task: its base64 field decoded, then read as UTF-8
/// with invalid sequences replaced; `None` when the field is not valid
/// base64.
pub fn decode_task_code(code_b64: &str) -> (r: Option<String>)
    ensures
        r is None == base64_decoding(code_b64.spec_bytes()) is None,
        r matches Some(c) ==> c@ == utf8_lossy(base64_decoding(code_b64.spec_bytes())->Some_0),
        r matches Some(c) ==> (valid_utf8(base64_decoding(code_b64.spec_bytes())->Some_0) ==> c@ == decode_utf8(
            base64_decoding(code_b64.spec_bytes())->Some_0,
        )),
{
    match decode_base64(code_b64) {
        Ok(bytes) => Some(lossy_string(bytes.as_slice())),
        Err(_) => None,
    }
}

/// A task file travels unchanged from the client to the worker: when the
/// task's base64 field decodes to the UTF-8 bytes of `contents` (what
/// `encode_task_file` promises of the field it makes), those bytes are
/// valid UTF-8 and the code the worker reads from the field is `contents`.
pub proof fn law_task_code_roundtrip(contents: Seq<char>, field: Seq<char>)
    requires
        base64_decoding(encode_utf8(field)) == Some(encode_utf8(contents)),
    ensures
        valid_utf8(base64_decoding(encode_utf8(field))->Some_0),
        decode_utf8(base64_decoding(encode_utf8(field))->Some_0) == contents,
{
    vstd::utf8::encode_utf8_valid_utf8(contents);
    vstd::utf8::encode_utf8_decode_utf8(contents);
}

/// What a Python run printed and how it ended.
pub struct PythonExecution {
    pub exit_code: i32,
    pub stdout: String,
    pub stderr: String,
}

/// How one attempt to run a task's code ended.
pub enum RunOutcome {
    /// The interpreter ran and exited: its exit code (none when a signal
    /// ended it) and what it wrote.
    Exited { code: Option<i32>, stdout: Vec<u8>, stderr: Vec<u8> },
    /// A stop request arrived first and the process was killed.
    Cancelled,
    /// The interpreter could not be started or fed the code.
    SpawnFailed,
}

/// What to report after an attempt: the status and, after a run, what it
/// printed and how it exited.
pub struct Report {
    pub status: TaskStatus,
    pub execution: Option<PythonExecution>,
}

/// What to do after an attempt.
#[derive(PartialEq, Eq, Structural)]
pub enum AfterRun {
    /// The task is over; it no longer runs.
    Finished,
    /// Try again after a pause of a second, unless a stop request comes in
    /// meanwhile.
    RetryAfterPause,
    /// Try again at once.
    RetryNow,
}

/// What an attempt leads to: an exit with code 0 is reported completed and
/// ends the task; another exit is reported failed and retried after a
/// pause; a cancellation is reported cancelled and ends the task; a failed
/// start is retried at once, with no report. The exit code reported is the
/// process's, or -1 when it has none.
pub open spec fn step_of(outcome: RunOutcome, report: Option<Report>, next: AfterRun) -> bool {
    match outcome {
        RunOutcome::Exited { code, stdout, stderr } => {
            &&& report matches Some(rep) && rep.execution matches Some(ex) && ex.exit_code == (match code {
                Some(c) => c,
                None => -1i32,
            }) && ex.stdout@ == utf8_lossy(stdout@) && ex.stderr@ == utf8_lossy(stderr@) && rep.status == (
            if code == Some(0i32) {
                TaskStatus::Completed
            } else {
                TaskStatus::Failed
            })
            &&& next == (if code == Some(0i32) {
                AfterRun::Finished
            } else {
                AfterRun::RetryAfterPause
            })
        },
        RunOutcome::Cancelled => report matches Some(rep) && rep.status == TaskStatus::Cancelled
            && rep.execution is None && next == AfterRun::Finished,
        RunOutcome::SpawnFailed => report is None && next == AfterRun::RetryNow,
    }
}

/// Decides what follows an attempt to run task `id`; a task that is over is
/// forgotten as running.
pub fn execution_step<H>(state: &mut WorkerState<H>, id: TaskId, outcome: RunOutcome) -> (r: (
    Option<Report>,
    AfterRun,
))
    requires
        old(state).wf(),
    ensures
        final(state).wf(),
        final(state).id == old(state).id,
        final(state)@.queue == old(state)@.queue,
        step_of(outcome, r.0, r.1),
        r.1 == AfterRun::Finished ==> final(state)@.running == old(state)@.running.remove(id),
        r.1 != AfterRun::Finished ==> final(state)@.running == old(state)@.running,
{
    match outcome {
        RunOutcome::Exited { code, stdout, stderr } => {
            let exit_code = match code {
                Some(c) => c,
                None => -1i32,
            };
            let execution = PythonExecution {
                exit_code,
                stdout: lossy_string(stdout.as_slice()),
                stderr: lossy_string(stderr.as_slice()),
            };
            let success = match code {
                Some(c) => c == 0,
                None => false,
            };
            if success {
                let _ = state.finish(id);
                (Some(Report { status: TaskStatus::Completed, execution: Some(execution) }), AfterRun::Finished)
            } else {
                (Some(Report { status: TaskStatus::Failed, execution: Some(execution) }), AfterRun::RetryAfterPause)
            }
        },
        RunOutcome::Cancelled => {
            let _ = state.finish(id);
            (Some(Report { status: TaskStatus::Cancelled, execution: None }), AfterRun::Finished)
        },
        RunOutcome::SpawnFailed => (None, AfterRun::RetryNow),
    }
}

/// A task whose code could not be decoded is reported failed and forgotten
/// as running.
pub fn undecodable_task<H>(state: &mut WorkerState<H>, id: TaskId) -> (r: Report)
    requires
        old(state).wf(),
    ensures
        final(state).wf(),
        final(state).id == old(state).id,
        final(state)@.queue == old(state)@.queue,
        final(state)@.running == old(state)@.running.remove(id),
        r.status == TaskStatus::Failed,
        r.execution is None,
{
    let _ = state.finish(id);
    Report { status: TaskStatus::Failed, execution: None }
}

} // verus!
