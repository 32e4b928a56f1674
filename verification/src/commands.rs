//! The command line of the `aether` program: its commands and their
//! arguments, and how the architecture and priority choices map onto the
//! library's types.

use crate::capabilities::CPUArchitecture;
use crate::task::TaskPriority;
use vstd::prelude::*;

verus! {

/// The parsed command line.
pub struct Cli {
    pub command: Commands,
}

/// The top-level commands.
pub enum Commands {
    /// Spawning and handling a broker.
    Broker { command: BrokerCommands },
    /// Spawning and handling a worker.
    Worker { command: WorkerCommands },
    /// Handling tasks.
    Task { command: TaskCommands },
    /// Handling broker authentication.
    Auth { command: AuthCommands },
    /// The interactive terminal interface.
    Tui { broker_ip: String, broker_port: usize },
}

/// Broker commands.
pub enum BrokerCommands {
    /// Starts a broker on the given ports, backed by Redis when both its
    /// address and port are given.
    Start { api_port: usize, jrpc_port: usize, redis_ip: Option<String>, redis_port: Option<usize> },
}

/// Worker commands.
pub enum WorkerCommands {
    /// Starts a worker that connects to a broker.
    Start { worker_id: String, broker_ip: String, broker_port: usize, gpu: bool, arch: SupportedArchs },
}

/// Task commands.
pub enum TaskCommands {
    Submit {
        broker_ip: String,
        broker_api_port: usize,
        task_file: String,
        name: String,
        priority: SupportedPriorities,
        gpu: bool,
        arch: SupportedArchs,
    },
    Stop { broker_ip: String, broker_api_port: usize, task_id: String },
    Check { broker_ip: String, broker_api_port: usize, task_id: String },
    List { broker_ip: String, broker_api_port: usize },
}

/// The architectures the command line accepts.
#[derive(Clone, Copy, Debug, PartialEq, Eq, Structural)]
pub enum SupportedArchs {
    X86_64,
    Aarch64,
    Any,
}

/// The architecture a command-line choice stands for.
pub open spec fn arch_of(a: SupportedArchs) -> CPUArchitecture {
    match a {
        SupportedArchs::X86_64 => CPUArchitecture::X86_64,
        SupportedArchs::Aarch64 => CPUArchitecture::Aarch64,
        SupportedArchs::Any => CPUArchitecture::Any,
    }
}

impl From<SupportedArchs> for CPUArchitecture {
    fn from(value: SupportedArchs) -> (r: CPUArchitecture) {
        match value {
            SupportedArchs::X86_64 => CPUArchitecture::X86_64,
            SupportedArchs::Aarch64 => CPUArchitecture::Aarch64,
            SupportedArchs::Any => CPUArchitecture::Any,
        }
    }
}

impl vstd::std_specs::convert::FromSpecImpl<SupportedArchs> for CPUArchitecture {
    open spec fn obeys_from_spec() -> bool {
        true
    }

    open spec fn from_spec(v: SupportedArchs) -> CPUArchitecture {
        arch_of(v)
    }
}

/// The priorities the command line accepts.
#[derive(Clone, Copy, Debug, PartialEq, Eq, Structural)]
pub enum SupportedPriorities {
    High,
    Medium,
    Low,
}

/// The priority a command-line choice stands for.
pub open spec fn priority_of(p: SupportedPriorities) -> TaskPriority {
    match p {
        SupportedPriorities::High => TaskPriority::High,
        SupportedPriorities::Medium => TaskPriority::Medium,
        SupportedPriorities::Low => TaskPriority::Low,
    }
}

impl From<SupportedPriorities> for TaskPriority {
    fn from(value: SupportedPriorities) -> (r: TaskPriority) {
        match value {
            SupportedPriorities::High => TaskPriority::High,
            SupportedPriorities::Medium => TaskPriority::Medium,
            SupportedPriorities::Low => TaskPriority::Low,
        }
    }
}

impl vstd::std_specs::convert::FromSpecImpl<SupportedPriorities> for TaskPriority {
    open spec fn obeys_from_spec() -> bool {
        true
    }

    open spec fn from_spec(v: SupportedPriorities) -> TaskPriority {
        priority_of(v)
    }
}

/// Authentication commands.
pub enum AuthCommands {
    /// Logs in and saves the token.
    Login { broker_ip: String, broker_api_port: usize, username: String, password: String },
}

/// Every architecture is the image of exactly one command-line choice, and
/// every priority of exactly one: no choice is lost or merged.
pub proof fn law_choices_are_bijective(a: SupportedArchs, b: SupportedArchs, p: SupportedPriorities, q: SupportedPriorities, c: CPUArchitecture, t: TaskPriority)
    ensures
        arch_of(a) == arch_of(b) ==> a == b,
        priority_of(p) == priority_of(q) ==> p == q,
        exists|x: SupportedArchs| arch_of(x) == c,
        exists|x: SupportedPriorities| priority_of(x) == t,
{
    match c {
        CPUArchitecture::X86_64 => assert(arch_of(SupportedArchs::X86_64) == c),
        CPUArchitecture::Aarch64 => assert(arch_of(SupportedArchs::Aarch64) == c),
        CPUArchitecture::Any => assert(arch_of(SupportedArchs::Any) == c),
    }
    match t {
        TaskPriority::High => assert(priority_of(SupportedPriorities::High) == t),
        TaskPriority::Medium => assert(priority_of(SupportedPriorities::Medium) == t),
        TaskPriority::Low => assert(priority_of(SupportedPriorities::Low) == t),
    }
}

} // verus!
