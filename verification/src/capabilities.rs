//! Hardware capabilities of workers and hardware requirements of tasks.

use vstd::prelude::*;

verus! {

/// CPU architectures a worker can offer or a task can ask for.
#[derive(Clone, Copy, Debug, PartialEq, Eq, Structural)]
#[non_exhaustive]
pub enum CPUArchitecture {
    X86_64,
    Aarch64,
    Any,
}

/// What a worker offers.
#[derive(Clone, Copy, Debug, PartialEq, Eq, Structural)]
pub struct WorkerCapabilities {
    pub gpu: bool,
    pub arch: CPUArchitecture,
}

/// What a task needs.
#[derive(Clone, Copy, Debug, PartialEq, Eq, Structural)]
pub struct TaskCapabilities {
    pub gpu: bool,
    pub arch: CPUArchitecture,
}

/// A worker of architecture `worker` can run a task asking for `task`.
pub open spec fn arch_compatible(worker: CPUArchitecture, task: CPUArchitecture) -> bool {
    match worker {
        CPUArchitecture::X86_64 => task == CPUArchitecture::X86_64 || task == CPUArchitecture::Any,
        CPUArchitecture::Aarch64 => task == CPUArchitecture::Aarch64 || task
            == CPUArchitecture::Any,
        CPUArchitecture::Any => true,
    }
}

/// A worker with capabilities `w` may run a task with requirements `t`:
/// a task without requirements runs anywhere; otherwise a GPU task needs a
/// GPU worker and the architectures must agree.
pub open spec fn spec_supports(w: WorkerCapabilities, t: Option<TaskCapabilities>) -> bool {
    match t {
        None => true,
        Some(t) => (w.gpu || !t.gpu) && arch_compatible(w.arch, t.arch),
    }
}

impl WorkerCapabilities {
    /// Whether this worker can run a task with the given requirements.
    pub fn supports(&self, task_caps: Option<TaskCapabilities>) -> (r: bool)
        ensures
            r == spec_supports(*self, task_caps),
    {
        match task_caps {
            Some(task_caps) => {
                if !self.gpu && task_caps.gpu {
                    return false;
                }
                match self.arch {
                    CPUArchitecture::X86_64 => {
                        task_caps.arch == CPUArchitecture::X86_64 || task_caps.arch
                            == CPUArchitecture::Any
                    },
                    CPUArchitecture::Aarch64 => {
                        task_caps.arch == CPUArchitecture::Aarch64 || task_caps.arch
                            == CPUArchitecture::Any
                    },
                    CPUArchitecture::Any => true,
                }
            },
            None => true,
        }
    }
}

/// A task without requirements is supported by every worker.
pub proof fn law_unconstrained_task_runs_anywhere(w: WorkerCapabilities)
    ensures
        spec_supports(w, None),
{
}

/// A GPU worker of architecture `Any` supports every task.
pub proof fn law_universal_worker_supports_all(t: Option<TaskCapabilities>)
    ensures
        spec_supports(WorkerCapabilities { gpu: true, arch: CPUArchitecture::Any }, t),
{
}

/// A task that asks for a GPU is never given to a worker without one.
pub proof fn law_gpu_task_needs_gpu_worker(w: WorkerCapabilities, t: TaskCapabilities)
    requires
        t.gpu,
        !w.gpu,
    ensures
        !spec_supports(w, Some(t)),
{
}

/// A worker supports every task that a more restrictive worker supports:
/// adding a GPU or widening the architecture to `Any` never loses a task.
pub proof fn law_supports_monotone(
    w: WorkerCapabilities,
    stronger: WorkerCapabilities,
    t: Option<TaskCapabilities>,
)
    requires
        w.gpu ==> stronger.gpu,
        stronger.arch == w.arch || stronger.arch == CPUArchitecture::Any,
        spec_supports(w, t),
    ensures
        spec_supports(stronger, t),
{
}

} // verus!
