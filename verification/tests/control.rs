use wrec::control::{cargo_profile_dir, daemon_candidates, incompatible_daemon_error, protocol_mismatch, validate_daemon_status};

const INSTALLED: &str = "/usr/local/lib/wrec/daemon";

fn candidates(current: &str) -> Vec<String> {
    daemon_candidates(&current.to_string(), false, INSTALLED.to_string())
}

#[test]
fn daemon_candidates_prefer_sibling_daemon() {
    let candidates = candidates("/tmp/wrec/bin/wrec");

    assert_eq!(candidates[0], "/tmp/wrec/bin/daemon");
}

#[test]
fn daemon_candidates_include_profile_dir_for_deps_binary() {
    let candidates = candidates("/tmp/wrec/target/debug/deps/wrec-abc");

    assert_eq!(candidates[0], "/tmp/wrec/target/debug/deps/daemon");
    assert_eq!(candidates[1], "/tmp/wrec/target/debug/daemon");
}

#[test]
fn daemon_candidates_end_with_the_installed_daemon() {
    assert_eq!(candidates("/tmp/wrec/bin/wrec"), vec!["/tmp/wrec/bin/daemon".to_string(), INSTALLED.to_string()]);
    assert_eq!(candidates("/"), vec![INSTALLED.to_string()]);
    assert_eq!(
        daemon_candidates(&"/opt/wrec/wrec".to_string(), true, "/opt/Wrec/daemon.exe".to_string())[0],
        "/opt/wrec/daemon.exe"
    );
}

#[test]
fn cargo_profile_dir_recognises_build_outputs() {
    assert_eq!(cargo_profile_dir(&"/w/target/debug/deps/daemon-1f".to_string()), Some("/w/target/debug".to_string()));
    assert_eq!(cargo_profile_dir(&"/w/target/release/daemon".to_string()), Some("/w/target/release".to_string()));
    assert_eq!(cargo_profile_dir(&"/usr/local/lib/wrec/daemon".to_string()), None);
}

#[test]
fn daemon_status_must_report_this_protocol() {
    assert!(validate_daemon_status(Some(1)).is_ok());
    let missing = validate_daemon_status(None).unwrap_err();
    assert_eq!(missing.code, "daemon_incompatible");
    assert_eq!(missing.message, "Running daemon is incompatible: missing protocol_version");
    let other = validate_daemon_status(Some(7)).unwrap_err();
    assert_eq!(other.message, "Running daemon is incompatible: protocol_version 7, expected 1");
    assert!(other.recoverable);
    assert_eq!(incompatible_daemon_error("x".to_string()).message, "Running daemon is incompatible: x");
}

#[test]
fn undecodable_answers_are_protocol_bugs() {
    let e = protocol_mismatch("invalid_job", "expected u64".to_string());
    assert_eq!(e.code, "invalid_job");
    assert_eq!(e.message, "Could not decode daemon response: expected u64");
    assert!(!e.recoverable);
}
