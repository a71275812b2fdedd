//! How a client finds the daemon it talks to, and how it checks the
//! daemon's answers: where the daemon executable may be, which Cargo build
//! profile an executable belongs to, and whether a running daemon speaks
//! the client's protocol.

use vstd::prelude::*;
use crate::digits::{decimal, decimal_chars};
use crate::paths::{file_name_of, join_path, parent_of, path_file_name, path_join, path_parent, plain_name};
use crate::protocol::{agent_error, AgentError, AgentErrorView};
use crate::store::opt_chars;
use crate::text::{chars_of, is_lit, push_chars, push_str, string_of};

verus! {

/// The version of the protocol between clients and the daemon.
pub const PROTOCOL_VERSION: u64 = 1;

/// The daemon's executable name on a platform.
pub open spec fn daemon_bin(windows: bool) -> Seq<char> {
    if windows { "daemon.exe"@ } else { "daemon"@ }
}

/// Where a client running from `current` looks for the daemon, in order:
/// beside itself; in the Cargo profile directory when it runs from a
/// `deps` directory; then at the installed location `installed`.
pub open spec fn daemon_candidates_spec(current: Seq<char>, windows: bool, installed: Seq<char>) -> Seq<Seq<char>> {
    match path_parent(current) {
        None => seq![installed],
        Some(dir) => {
            let bin = daemon_bin(windows);
            let profile: Seq<Seq<char>> = if path_file_name(dir) == Some("deps"@) {
                match path_parent(dir) {
                    Some(p) => seq![path_join(p, bin)],
                    None => Seq::empty(),
                }
            } else {
                Seq::empty()
            };
            seq![path_join(dir, bin)] + profile + seq![installed]
        },
    }
}

fn daemon_bin_name(windows: bool) -> (r: String)
    ensures
        r@ == daemon_bin(windows),
        plain_name(r@),
{
    proof {
        reveal_strlit("daemon.exe");
        reveal_strlit("daemon");
        crate::paths::lemma_not_dots(daemon_bin(windows));
    }
    if windows { "daemon.exe".to_string() } else { "daemon".to_string() }
}

fn is_named(name: &Option<String>, lit: &str) -> (r: bool)
    ensures
        r == (opt_chars(*name) == Some(lit@)),
{
    match name {
        Some(n) => is_lit(&chars_of(n.as_str()), lit),
        None => false,
    }
}

/// The paths a client running from `current` tries for the daemon, in
/// order. `windows` tells which platform the client runs on, and
/// `installed` is the platform's installed daemon.
pub fn daemon_candidates(current: &String, windows: bool, installed: String) -> (r: Vec<String>)
    ensures
        r@.map_values(|p: String| p@) == daemon_candidates_spec(current@, windows, installed@),
{
    let ghost want = daemon_candidates_spec(current@, windows, installed@);
    let mut out: Vec<String> = Vec::new();
    match parent_of(current) {
        None => {
            out.push(installed);
            assert(out@.map_values(|p: String| p@) =~= want);
            out
        },
        Some(dir) => {
            let bin = daemon_bin_name(windows);
            out.push(join_path(&dir, &bin));
            let ghost first = out@.map_values(|p: String| p@);
            assert(first =~= seq![path_join(dir@, daemon_bin(windows))]);
            let deps = is_named(&file_name_of(&dir), "deps");
            if deps {
                match parent_of(&dir) {
                    Some(profile) => {
                        out.push(join_path(&profile, &bin));
                    },
                    None => {},
                }
            }
            out.push(installed);
            assert(out@.map_values(|p: String| p@) =~= want);
            out
        },
    }
}

/// The Cargo profile directory an executable was built into: the parent
/// of a `deps` directory that holds it, or the `debug` or `release`
/// directory that holds it.
pub open spec fn cargo_profile_dir_spec(executable: Seq<char>) -> Option<Seq<char>> {
    match path_parent(executable) {
        None => None,
        Some(dir) => {
            if path_file_name(dir) == Some("deps"@) {
                path_parent(dir)
            } else if path_file_name(dir) == Some("debug"@) || path_file_name(dir) == Some("release"@) {
                Some(dir)
            } else {
                None
            }
        },
    }
}

/// The Cargo profile directory of `executable`, if it was built by Cargo.
pub fn cargo_profile_dir(executable: &String) -> (r: Option<String>)
    ensures
        opt_chars(r) == cargo_profile_dir_spec(executable@),
{
    match parent_of(executable) {
        None => None,
        Some(dir) => {
            let name = file_name_of(&dir);
            if is_named(&name, "deps") {
                parent_of(&dir)
            } else if is_named(&name, "debug") || is_named(&name, "release") {
                Some(dir)
            } else {
                None
            }
        },
    }
}

/// The error for a running daemon that does not speak this protocol.
pub open spec fn incompatible_daemon_spec(reason: Seq<char>) -> AgentErrorView {
    AgentErrorView {
        code: "daemon_incompatible"@,
        message: "Running daemon is incompatible: "@ + reason,
        recoverable: true,
        next: "Stop the daemon with `wrec daemon stop`, then retry with matching app/CLI/runtime versions."@,
    }
}

/// The error for a running daemon that does not speak this protocol,
/// with the reason.
pub fn incompatible_daemon_error(reason: String) -> (r: AgentError)
    ensures
        r@ == incompatible_daemon_spec(reason@),
{
    let mut m: Vec<char> = Vec::new();
    push_str(&mut m, "Running daemon is incompatible: ");
    push_chars(&mut m, &chars_of(reason.as_str()));
    assert(Seq::<char>::empty() + "Running daemon is incompatible: "@ == "Running daemon is incompatible: "@);
    agent_error(
        "daemon_incompatible",
        string_of(&m),
        true,
        "Stop the daemon with `wrec daemon stop`, then retry with matching app/CLI/runtime versions.",
    )
}

/// What a daemon status with `protocol_version` (if it has a numeric one)
/// is answered with: accepted when it is this protocol's version,
/// otherwise refused with the reason.
pub open spec fn daemon_status_check(protocol_version: Option<u64>) -> Result<(), AgentErrorView> {
    match protocol_version {
        None => Err(incompatible_daemon_spec("missing protocol_version"@)),
        Some(v) => if v == PROTOCOL_VERSION {
            Ok(())
        } else {
            Err(incompatible_daemon_spec(
                "protocol_version "@ + decimal(v as nat) + ", expected "@ + decimal(PROTOCOL_VERSION as nat),
            ))
        },
    }
}

/// Checks the protocol version that a daemon's status reports, if it
/// reports a numeric one.
pub fn validate_daemon_status(protocol_version: Option<u64>) -> (r: Result<(), AgentError>)
    ensures
        match (r, daemon_status_check(protocol_version)) {
            (Ok(()), Ok(())) => true,
            (Err(e), Err(v)) => e@ == v,
            _ => false,
        },
{
    match protocol_version {
        None => Err(incompatible_daemon_error("missing protocol_version".to_string())),
        Some(v) => {
            if v == PROTOCOL_VERSION {
                Ok(())
            } else {
                let mut m: Vec<char> = Vec::new();
                push_str(&mut m, "protocol_version ");
                push_chars(&mut m, &decimal_chars(v));
                push_str(&mut m, ", expected ");
                push_chars(&mut m, &decimal_chars(PROTOCOL_VERSION));
                assert(Seq::<char>::empty() + "protocol_version "@ == "protocol_version "@);
                Err(incompatible_daemon_error(string_of(&m)))
            }
        },
    }
}

/// The error for a daemon answer that could not be decoded: `code` names
/// the answer, `detail` is the decoder's message.
pub fn protocol_mismatch(code: &str, detail: String) -> (r: AgentError)
    ensures
        r@ == (AgentErrorView {
            code: code@,
            message: "Could not decode daemon response: "@ + detail@,
            recoverable: false,
            next: "Inspect ~/.wrec/daemon.log and report this as a wrec IPC protocol bug."@,
        }),
{
    let mut m: Vec<char> = Vec::new();
    push_str(&mut m, "Could not decode daemon response: ");
    push_chars(&mut m, &chars_of(detail.as_str()));
    assert(Seq::<char>::empty() + "Could not decode daemon response: "@ == "Could not decode daemon response: "@);
    agent_error(
        code,
        string_of(&m),
        false,
        "Inspect ~/.wrec/daemon.log and report this as a wrec IPC protocol bug.",
    )
}

/// wrec's home folder for the daemon: `WREC_HOME` when it is set
/// (`home_env`), else the platform's default (`default_home`), else `.wrec`
/// in the current folder.
pub fn wrec_home(home_env: Option<String>, default_home: Option<String>) -> (r: String)
    ensures
        r@ == (match home_env {
            Some(h) => h@,
            None => match default_home {
                Some(d) => d@,
                None => ".wrec"@,
            },
        }),
{
    match home_env {
        Some(h) => h,
        None => match default_home {
            Some(d) => d,
            None => ".wrec".to_string(),
        },
    }
}

/// The platform's default home folder for the daemon: `Wrec` under the
/// local app data folder or `.wrec` under the user profile on Windows,
/// `.wrec` under the home folder elsewhere.
pub open spec fn default_wrec_home_spec(
    windows: bool,
    local_app_data: Option<Seq<char>>,
    user_profile: Option<Seq<char>>,
    home: Option<Seq<char>>,
) -> Option<Seq<char>> {
    if windows {
        match local_app_data {
            Some(d) => Some(path_join(d, "Wrec"@)),
            None => match user_profile {
                Some(p) => Some(path_join(p, ".wrec"@)),
                None => None,
            },
        }
    } else {
        match home {
            Some(h) => Some(path_join(h, ".wrec"@)),
            None => None,
        }
    }
}

/// The platform's default home folder for the daemon, from the folders
/// the environment names.
pub fn default_wrec_home(
    windows: bool,
    local_app_data: &Option<String>,
    user_profile: &Option<String>,
    home: &Option<String>,
) -> (r: Option<String>)
    ensures
        opt_chars(r) == default_wrec_home_spec(windows, opt_chars(*local_app_data), opt_chars(*user_profile), opt_chars(*home)),
{
    if windows {
        match local_app_data {
            Some(d) => Some(join_path(d, &"Wrec".to_string())),
            None => match user_profile {
                Some(p) => Some(join_path(p, &".wrec".to_string())),
                None => None,
            },
        }
    } else {
        match home {
            Some(h) => Some(join_path(h, &".wrec".to_string())),
            None => None,
        }
    }
}

/// The daemon's socket file in its home folder `home`.
pub fn socket_path(home: &String) -> (r: String)
    ensures
        r@ == path_join(home@, "wrec.sock"@),
{
    join_path(home, &"wrec.sock".to_string())
}

/// The daemon's log file in its home folder `home`.
pub fn daemon_log_path(home: &String) -> (r: String)
    ensures
        r@ == path_join(home@, "daemon.log"@),
{
    join_path(home, &"daemon.log".to_string())
}

/// The file of job events in the daemon's home folder `home`.
pub fn job_events_path(home: &String) -> (r: String)
    ensures
        r@ == path_join(home@, "job-events.jsonl"@),
{
    join_path(home, &"job-events.jsonl".to_string())
}

} // verus!
