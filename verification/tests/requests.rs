use wrec::protocol::{response_error, IpcResponse};
use wrec::requests::{invalid_record_request, request_decode_failed, request_read_error, respond, route_request, IpcRoute, RequestRead};

fn route(method: &str, job_id: Option<u64>) -> Result<IpcRoute, wrec::protocol::AgentError> {
    route_request(&method.to_string(), job_id)
}

#[test]
fn known_methods_route_to_their_operation() {
    assert_eq!(route("daemon.status", None).unwrap(), IpcRoute::DaemonStatus);
    assert_eq!(route("daemon.stop", None).unwrap(), IpcRoute::DaemonStop);
    assert_eq!(route("permission.status", None).unwrap(), IpcRoute::PermissionStatus);
    assert_eq!(route("permission.request", None).unwrap(), IpcRoute::PermissionRequest);
    assert_eq!(route("targets.list", None).unwrap(), IpcRoute::TargetsList);
    assert_eq!(route("record.start", Some(3)).unwrap(), IpcRoute::RecordStart);
    assert_eq!(route("jobs.list", None).unwrap(), IpcRoute::JobsList);
    assert_eq!(route("job.show", Some(42)).unwrap(), IpcRoute::JobShow(42));
    assert_eq!(route("job.logs", Some(1)).unwrap(), IpcRoute::JobLogs(1));
    assert_eq!(route("job.cancel", Some(2)).unwrap(), IpcRoute::JobCancel(2));
    assert_eq!(route("job.pause", Some(3)).unwrap(), IpcRoute::JobPause(3));
    assert_eq!(route("job.resume", Some(4)).unwrap(), IpcRoute::JobResume(4));
    assert_eq!(route("job.stop", Some(5)).unwrap(), IpcRoute::JobStop(5));
}

#[test]
fn unknown_method_is_refused_by_name() {
    let error = route("no.such.method", None).unwrap_err();
    assert_eq!(error.code, "unknown_method");
    assert_eq!(error.message, "Unknown IPC method `no.such.method`");
    assert!(!error.recoverable);
}

#[test]
fn job_methods_without_a_numeric_id_are_refused() {
    let error = route("job.show", None).unwrap_err();
    assert_eq!(error.code, "missing_job_id");
    assert_eq!(error.message, "job.show requires job_id");
}

#[test]
fn unreadable_requests_are_answered_with_their_error() {
    assert_eq!(request_read_error(RequestRead::Read(0)).unwrap().code, "empty_request");
    assert!(request_read_error(RequestRead::Read(12)).is_none());
    let failed = request_read_error(RequestRead::Failed("reset".to_string())).unwrap();
    assert_eq!(failed.code, "request_read_failed");
    assert_eq!(failed.message, "Could not read IPC request: reset");
    assert_eq!(request_decode_failed("eof".to_string()).code, "request_decode_failed");
    let bad = invalid_record_request("invalid type".to_string());
    assert_eq!(bad.code, "invalid_record_request");
    assert_eq!(bad.message, "Could not parse record.start params: invalid type");
}

#[test]
fn answers_echo_the_request_id_and_carry_the_result_or_the_error() {
    assert_eq!(respond(7, Ok::<&str, _>("pong")), IpcResponse { id: 7, ok: true, result: Some("pong"), error: None });
    let err = route("no.such.method", None).unwrap_err();
    let answer = respond::<&str>(42, Err(err.clone()));
    assert_eq!(answer, IpcResponse { id: 42, ok: false, result: None, error: Some(err.clone()) });
    assert_eq!(answer.error.as_ref().map(|e| e.code.as_str()), Some("unknown_method"));
    assert_eq!(response_error::<&str>(42, err.clone()), answer);
}
