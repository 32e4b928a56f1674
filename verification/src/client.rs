//! The client side of the HTTP API: checking and encoding a task file,
//! building a submission, the endpoints' addresses, and the status each
//! call expects.

use crate::capabilities::TaskCapabilities;
use crate::commands::{arch_of, priority_of, SupportedArchs, SupportedPriorities};
use crate::error::CliError;
use crate::external::{base64_decoding, base64_encoding, encode_base64};
use crate::http::CreateTaskRequest;
use crate::text::{decimal, decimal_chars};
use vstd::prelude::*;
use vstd::string::StringSliceAdditionalSpecFns;
use vstd::utf8::encode_utf8;

verus! {

/// What the file system said about a task file's path.
pub enum PathStatus {
    /// The path could not be made canonical (it does not exist, or a
    /// component is not a directory).
    Unresolvable,
    /// Whether the canonical path exists could not be found out.
    Unknown,
    /// The canonical path does not exist.
    Missing,
    /// The canonical path exists; its extension, if it has one.
    Present { extension: Option<String> },
}

/// `r` is the task-file error with the text `msg`.
pub open spec fn is_parse_error(r: Result<(), CliError>, msg: Seq<char>) -> bool {
    r matches Err(CliError::ParseTask(m)) && m@ == msg
}

/// Whether a task file may be read: it must exist, and an extension, if it
/// has one, must be `py` (a file without extension is accepted).
pub fn check_task_path(status: PathStatus) -> (r: Result<(), CliError>)
    ensures
        match status {
            PathStatus::Unresolvable => is_parse_error(r, "Could not canonicalize provided path."@),
            PathStatus::Unknown => is_parse_error(r, "Path does not exist."@),
            PathStatus::Missing => is_parse_error(r, "The provided file path must exist!"@),
            PathStatus::Present { extension } => match extension {
                Some(e) => if e@ == "py"@ {
                    r is Ok
                } else {
                    is_parse_error(r, "Task file must be a python file!"@)
                },
                None => r is Ok,
            },
        },
{
    match status {
        PathStatus::Unresolvable => Err(CliError::ParseTask("Could not canonicalize provided path.".to_owned())),
        PathStatus::Unknown => Err(CliError::ParseTask("Path does not exist.".to_owned())),
        PathStatus::Missing => Err(CliError::ParseTask("The provided file path must exist!".to_owned())),
        PathStatus::Present { extension } => match extension {
            Some(e) => {
                if crate::text::str_eq(e.as_str(), "py") {
                    Ok(())
                } else {
                    Err(CliError::ParseTask("Task file must be a python file!".to_owned()))
                }
            },
            None => Ok(()),
        },
    }
}

/// The base64 text of a task file's contents (`None` when they could not be
/// read). Decoding the text gives the contents' bytes back.
pub fn encode_task_file(contents: Option<String>) -> (r: Result<String, CliError>)
    ensures
        contents is None ==> (r matches Err(CliError::ParseTask(m)) && m@ == "Could not read file contents."@),
        contents matches Some(c) ==> (r matches Ok(t) && t@ == base64_encoding(encode_utf8(c@))
            && base64_decoding(encode_utf8(t@)) == Some(encode_utf8(c@))),
{
    match contents {
        None => Err(CliError::ParseTask("Could not read file contents.".to_owned())),
        Some(c) => {
            let cs = c.as_str();
            let bytes = cs.as_bytes();
            Ok(encode_base64(bytes))
        },
    }
}

/// The submission the `task submit` command sends.
pub fn submission_request(
    name: &str,
    code_b64: &str,
    priority: SupportedPriorities,
    gpu: bool,
    arch: SupportedArchs,
) -> (r: CreateTaskRequest)
    ensures
        r.name@ == name@,
        r.code_b64@ == code_b64@,
        r.priority == priority_of(priority),
        r.capabilities == Some(TaskCapabilities { gpu, arch: arch_of(arch) }),
{
    CreateTaskRequest {
        name: name.to_owned(),
        code_b64: code_b64.to_owned(),
        priority: priority.into(),
        capabilities: Some(TaskCapabilities { gpu, arch: arch.into() }),
    }
}

/// `http://{ip}:{port}` followed by `path`.
pub open spec fn endpoint(ip: Seq<char>, port: usize, path: Seq<char>) -> Seq<char> {
    "http://"@ + ip + ":"@ + decimal_chars(port as nat) + path
}

fn base_url(ip: &str, port: usize) -> (r: String)
    ensures
        r@ == endpoint(ip@, port, Seq::empty()),
{
    let mut s = "http://".to_owned();
    s.append(ip);
    s.append(":");
    let p = decimal(port);
    s.append(p.as_str());
    assert(s@ =~= endpoint(ip@, port, Seq::empty()));
    s
}

/// The address of the task collection: `/api/v1/tasks`.
pub fn tasks_url(ip: &str, port: usize) -> (r: String)
    ensures
        r@ == endpoint(ip@, port, "/api/v1/tasks"@),
{
    let mut s = base_url(ip, port);
    s.append("/api/v1/tasks");
    assert(s@ =~= endpoint(ip@, port, "/api/v1/tasks"@));
    s
}

/// The address of one task: `/api/v1/tasks/{task_id}`.
pub fn task_url(ip: &str, port: usize, task_id: &str) -> (r: String)
    ensures
        r@ == endpoint(ip@, port, "/api/v1/tasks/"@ + task_id@),
{
    let mut s = base_url(ip, port);
    s.append("/api/v1/tasks/");
    s.append(task_id);
    assert(s@ =~= endpoint(ip@, port, "/api/v1/tasks/"@ + task_id@));
    s
}

/// The address that cancels a task: `/api/v1/tasks/{task_id}/cancel`.
pub fn cancel_url(ip: &str, port: usize, task_id: &str) -> (r: String)
    ensures
        r@ == endpoint(ip@, port, "/api/v1/tasks/"@ + task_id@ + "/cancel"@),
{
    let mut s = task_url(ip, port, task_id);
    s.append("/cancel");
    assert(s@ =~= endpoint(ip@, port, "/api/v1/tasks/"@ + task_id@ + "/cancel"@));
    s
}

/// The login address: `/api/v1/auth/login`.
pub fn login_url(ip: &str, port: usize) -> (r: String)
    ensures
        r@ == endpoint(ip@, port, "/api/v1/auth/login"@),
{
    let mut s = base_url(ip, port);
    s.append("/api/v1/auth/login");
    assert(s@ =~= endpoint(ip@, port, "/api/v1/auth/login"@));
    s
}

/// The `Authorization` header value for `token`.
pub fn bearer(token: &str) -> (r: String)
    ensures
        r@ == "Bearer "@ + token@,
{
    let mut s = "Bearer ".to_owned();
    s.append(token);
    s
}

/// Accepts the status the call expects; any other is an error that
/// carries it.
pub fn expect_status(status: u16, expected: u16) -> (r: Result<(), CliError>)
    ensures
        status == expected ==> r is Ok,
        status != expected ==> (r matches Err(CliError::UnexpectedStatusCode(s)) && s == status),
{
    if status != expected {
        Err(CliError::UnexpectedStatusCode(status))
    } else {
        Ok(())
    }
}

} // verus!
