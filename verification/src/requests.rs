//! Which daemon operation an IPC request asks for, and the errors for
//! requests that ask for none.

use vstd::prelude::*;
use crate::protocol::{agent_error, response_error, AgentError, AgentErrorView, IpcResponse};
use crate::text::{chars_of, is_lit, push_chars, push_str, string_of};

verus! {

/// A daemon operation, with the job it is about where it needs one.
#[derive(Clone, Copy, Debug, PartialEq, Eq, Structural)]
pub enum IpcRoute {
    DaemonStatus,
    DaemonStop,
    PermissionStatus,
    PermissionRequest,
    TargetsList,
    RecordStart,
    JobsList,
    JobShow(u64),
    JobLogs(u64),
    JobCancel(u64),
    JobPause(u64),
    JobResume(u64),
    JobStop(u64),
}

/// The error for a method the daemon does not know.
pub open spec fn unknown_method_spec(method: Seq<char>) -> AgentErrorView {
    AgentErrorView {
        code: "unknown_method"@,
        message: "Unknown IPC method `"@ + method + "`"@,
        recoverable: false,
        next: "Use a supported wrec CLI command instead of calling this method directly."@,
    }
}

/// The error for a job method without a numeric `job_id`.
pub open spec fn missing_job_id_spec(method: Seq<char>) -> AgentErrorView {
    AgentErrorView {
        code: "missing_job_id"@,
        message: method + " requires job_id"@,
        recoverable: false,
        next: "Pass a numeric job id, for example `wrec job show 42`."@,
    }
}

/// The job operation a job method names, for job `id`.
pub open spec fn job_route(method: Seq<char>, id: u64) -> Option<IpcRoute> {
    if method == "job.show"@ {
        Some(IpcRoute::JobShow(id))
    } else if method == "job.logs"@ {
        Some(IpcRoute::JobLogs(id))
    } else if method == "job.cancel"@ {
        Some(IpcRoute::JobCancel(id))
    } else if method == "job.pause"@ {
        Some(IpcRoute::JobPause(id))
    } else if method == "job.resume"@ {
        Some(IpcRoute::JobResume(id))
    } else if method == "job.stop"@ {
        Some(IpcRoute::JobStop(id))
    } else {
        None
    }
}

/// The operation that method `method` asks for, where `job_id` is the
/// request's numeric `job_id` parameter, if it has one.
pub open spec fn route_spec(method: Seq<char>, job_id: Option<u64>) -> Result<IpcRoute, AgentErrorView> {
    if method == "daemon.status"@ {
        Ok(IpcRoute::DaemonStatus)
    } else if method == "daemon.stop"@ {
        Ok(IpcRoute::DaemonStop)
    } else if method == "permission.status"@ {
        Ok(IpcRoute::PermissionStatus)
    } else if method == "permission.request"@ {
        Ok(IpcRoute::PermissionRequest)
    } else if method == "targets.list"@ {
        Ok(IpcRoute::TargetsList)
    } else if method == "record.start"@ {
        Ok(IpcRoute::RecordStart)
    } else if method == "jobs.list"@ {
        Ok(IpcRoute::JobsList)
    } else if job_route(method, 0) is Some {
        match job_id {
            Some(id) => Ok(job_route(method, id)->0),
            None => Err(missing_job_id_spec(method)),
        }
    } else {
        Err(unknown_method_spec(method))
    }
}

fn job_route_x(m: &Vec<char>, id: u64) -> (r: Option<IpcRoute>)
    ensures
        r == job_route(m@, id),
{
    if is_lit(m, "job.show") {
        Some(IpcRoute::JobShow(id))
    } else if is_lit(m, "job.logs") {
        Some(IpcRoute::JobLogs(id))
    } else if is_lit(m, "job.cancel") {
        Some(IpcRoute::JobCancel(id))
    } else if is_lit(m, "job.pause") {
        Some(IpcRoute::JobPause(id))
    } else if is_lit(m, "job.resume") {
        Some(IpcRoute::JobResume(id))
    } else if is_lit(m, "job.stop") {
        Some(IpcRoute::JobStop(id))
    } else {
        None
    }
}

/// Picks the operation that an IPC request asks for: by its method, with
/// its numeric `job_id` parameter for the job methods.
pub fn route_request(method: &String, job_id: Option<u64>) -> (r: Result<IpcRoute, AgentError>)
    ensures
        match (r, route_spec(method@, job_id)) {
            (Ok(a), Ok(b)) => a == b,
            (Err(e), Err(v)) => e@ == v,
            _ => false,
        },
{
    let m = chars_of(method.as_str());
    if is_lit(&m, "daemon.status") {
        return Ok(IpcRoute::DaemonStatus);
    }
    if is_lit(&m, "daemon.stop") {
        return Ok(IpcRoute::DaemonStop);
    }
    if is_lit(&m, "permission.status") {
        return Ok(IpcRoute::PermissionStatus);
    }
    if is_lit(&m, "permission.request") {
        return Ok(IpcRoute::PermissionRequest);
    }
    if is_lit(&m, "targets.list") {
        return Ok(IpcRoute::TargetsList);
    }
    if is_lit(&m, "record.start") {
        return Ok(IpcRoute::RecordStart);
    }
    if is_lit(&m, "jobs.list") {
        return Ok(IpcRoute::JobsList);
    }
    match job_route_x(&m, 0) {
        Some(_) => match job_id {
            Some(id) => {
                let route = job_route_x(&m, id);
                match route {
                    Some(x) => Ok(x),
                    None => Err(unknown_method(&m)),
                }
            },
            None => {
                let mut msg: Vec<char> = Vec::new();
                push_chars(&mut msg, &m);
                push_str(&mut msg, " requires job_id");
                Err(agent_error(
                    "missing_job_id",
                    string_of(&msg),
                    false,
                    "Pass a numeric job id, for example `wrec job show 42`.",
                ))
            },
        },
        None => Err(unknown_method(&m)),
    }
}

/// The answer to request `id` once its method has run: the request's id
/// is echoed, and the answer is `ok` with the result exactly when the
/// method succeeded, else it carries the error.
pub fn respond<T>(id: u64, outcome: Result<T, AgentError>) -> (r: IpcResponse<T>)
    ensures
        r.id == id,
        r.ok == outcome is Ok,
        match outcome {
            Ok(v) => r.result == Some(v) && r.error is None,
            Err(e) => r.result is None && r.error == Some(e),
        },
{
    match outcome {
        Ok(value) => IpcResponse { id, ok: true, result: Some(value), error: None },
        Err(error) => response_error(id, error),
    }
}

fn unknown_method(m: &Vec<char>) -> (r: AgentError)
    ensures
        r@ == unknown_method_spec(m@),
{
    let mut msg: Vec<char> = Vec::new();
    push_str(&mut msg, "Unknown IPC method `");
    push_chars(&mut msg, m);
    push_str(&mut msg, "`");
    assert(Seq::<char>::empty() + "Unknown IPC method `"@ == "Unknown IPC method `"@);
    agent_error(
        "unknown_method",
        string_of(&msg),
        false,
        "Use a supported wrec CLI command instead of calling this method directly.",
    )
}

/// The error for `record.start` parameters that could not be read;
/// `detail` is the decoder's message.
pub fn invalid_record_request(detail: String) -> (r: AgentError)
    ensures
        r@ == (AgentErrorView {
            code: "invalid_record_request"@,
            message: "Could not parse record.start params: "@ + detail@,
            recoverable: false,
            next: "Check the IPC request shape or use `wrec record start --help`."@,
        }),
{
    let mut msg: Vec<char> = Vec::new();
    push_str(&mut msg, "Could not parse record.start params: ");
    push_chars(&mut msg, &chars_of(detail.as_str()));
    assert(Seq::<char>::empty() + "Could not parse record.start params: "@ == "Could not parse record.start params: "@);
    agent_error(
        "invalid_record_request",
        string_of(&msg),
        false,
        "Check the IPC request shape or use `wrec record start --help`.",
    )
}

/// What reading a request line gave: the number of bytes read, or the
/// reader's error message.
pub enum RequestRead {
    Read(usize),
    Failed(String),
}

/// The error for a request line that could not be read, or `None` when a
/// line was read and is to be decoded.
pub open spec fn read_error_spec(read: RequestRead) -> Option<AgentErrorView> {
    match read {
        RequestRead::Read(n) => if n == 0 {
            Some(AgentErrorView {
                code: "empty_request"@,
                message: "IPC request was empty"@,
                recoverable: true,
                next: "Retry the command."@,
            })
        } else {
            None
        },
        RequestRead::Failed(m) => Some(AgentErrorView {
            code: "request_read_failed"@,
            message: "Could not read IPC request: "@ + m@,
            recoverable: true,
            next: "Retry the command."@,
        }),
    }
}

/// Says how a request line that could not be read is answered: an empty
/// stream and a read failure are errors the client may retry.
pub fn request_read_error(read: RequestRead) -> (r: Option<AgentError>)
    ensures
        match (r, read_error_spec(read)) {
            (Some(a), Some(b)) => a@ == b,
            (None, None) => true,
            _ => false,
        },
{
    match read {
        RequestRead::Read(n) => {
            if n == 0 {
                Some(agent_error("empty_request", "IPC request was empty".to_string(), true, "Retry the command."))
            } else {
                None
            }
        },
        RequestRead::Failed(m) => {
            let mut msg: Vec<char> = Vec::new();
            push_str(&mut msg, "Could not read IPC request: ");
            push_chars(&mut msg, &chars_of(m.as_str()));
            assert(Seq::<char>::empty() + "Could not read IPC request: "@ == "Could not read IPC request: "@);
            Some(agent_error("request_read_failed", string_of(&msg), true, "Retry the command."))
        },
    }
}

/// The error for a request line that is not a valid request; `detail` is
/// the decoder's message.
pub fn request_decode_failed(detail: String) -> (r: AgentError)
    ensures
        r@ == (AgentErrorView {
            code: "request_decode_failed"@,
            message: "Could not decode IPC request: "@ + detail@,
            recoverable: false,
            next: "Report this as a wrec IPC protocol bug."@,
        }),
{
    let mut msg: Vec<char> = Vec::new();
    push_str(&mut msg, "Could not decode IPC request: ");
    push_chars(&mut msg, &chars_of(detail.as_str()));
    assert(Seq::<char>::empty() + "Could not decode IPC request: "@ == "Could not decode IPC request: "@);
    agent_error("request_decode_failed", string_of(&msg), false, "Report this as a wrec IPC protocol bug.")
}

} // verus!
