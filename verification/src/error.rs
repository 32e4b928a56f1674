//! What can go wrong in the `aether` program.

use vstd::prelude::*;

verus! {

/// The errors of the `aether` program.
#[derive(Debug)]
pub enum CliError {
    RedisStorageCreation,
    SuperUserAlreadyExists,
    SuperUserCreation,
    RedisBrokerCouldNotRun,
    InMemoryBrokerCouldNotRun,
    BrokerProfileResolve,
    /// A task file could not be used; the text says why.
    ParseTask(String),
    /// The broker answered with another status than the one expected.
    UnexpectedStatusCode(u16),
    SendRequest,
    SendRequestError,
    DeserializeRequest,
    DeserializeRequestError,
    DeserializeTaskList,
    DeserializeTask,
    InvalidHomeDir,
    /// The configuration file could not be read; the text says why.
    GetConfigError(String),
    /// The configuration file could not be written; the text says why.
    SaveConfigError(String),
    SerializeSerdeError,
    DeserializeSerdeError,
    /// No broker profile could be found; the text says why.
    BrokerProfileResolveError(String),
    TuiError,
}

} // verus!
