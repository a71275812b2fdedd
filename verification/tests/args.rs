use wrec::args::{
    duration_parts, parse, parse_duration, split_inline_values, AmountReading, Command, DaemonCommand, DurationUnit,
    JobCommand, JobsArgs, ListArgs, RecordArgs, RecordDuration, TargetQuery,
};
use wrec::settings::{CaptureSourceKind, Codec, FrameRate, Quality, Resolution};

/// How the number of a token reads as a float times its unit, the way the
/// command line computes it.
fn float_reading(token: &Vec<char>) -> AmountReading {
    let Some((number, unit)) = duration_parts(token) else {
        return AmountReading::Unreadable;
    };
    let scale = match unit {
        DurationUnit::Millis => 0.001,
        DurationUnit::Seconds => 1.0,
        DurationUnit::Minutes => 60.0,
        DurationUnit::Hours => 60.0 * 60.0,
    };
    let Ok(amount) = number.iter().collect::<String>().parse::<f64>() else {
        return AmountReading::Unreadable;
    };
    if !amount.is_finite() || amount <= 0.0 {
        return AmountReading::NotPositive;
    }
    match std::time::Duration::try_from_secs_f64(amount * scale) {
        Ok(d) => AmountReading::Read(RecordDuration { secs: d.as_secs(), nanos: d.subsec_nanos() }),
        Err(_) => AmountReading::TooLarge,
    }
}

fn parse_vec(args: &[&str]) -> Result<Command, String> {
    let strings: Vec<String> = args.iter().map(|s| s.to_string()).collect();
    let raw: Vec<Vec<char>> = strings.iter().map(|s| s.chars().collect()).collect();
    let readings: Vec<AmountReading> = split_inline_values(&raw).iter().map(float_reading).collect();
    parse(strings, &readings)
}

#[test]
fn no_args_shows_help() {
    assert_eq!(parse_vec(&[]).unwrap(), Command::Help);
}

#[test]
fn help_and_version_flags() {
    assert_eq!(parse_vec(&["help"]).unwrap(), Command::Help);
    assert_eq!(parse_vec(&["-h"]).unwrap(), Command::Help);
    assert_eq!(parse_vec(&["--help"]).unwrap(), Command::Help);
    assert_eq!(parse_vec(&["-V"]).unwrap(), Command::Version);
    assert_eq!(parse_vec(&["--version"]).unwrap(), Command::Version);
}

#[test]
fn list_defaults_and_json() {
    assert_eq!(parse_vec(&["list"]).unwrap(), Command::List(ListArgs { json: false }));
    assert_eq!(parse_vec(&["targets"]).unwrap(), Command::List(ListArgs { json: false }));
    assert_eq!(
        parse_vec(&["targets", "list", "--json"]).unwrap(),
        Command::List(ListArgs { json: true })
    );
    assert_eq!(parse_vec(&["list", "--json"]).unwrap(), Command::List(ListArgs { json: true }));
}

#[test]
fn parses_daemon_and_job_commands() {
    assert_eq!(
        parse_vec(&["daemon", "start", "--json"]).unwrap(),
        Command::Daemon(DaemonCommand::Start { json: true })
    );
    assert_eq!(
        parse_vec(&["daemon", "stop", "--json"]).unwrap(),
        Command::Daemon(DaemonCommand::Stop { json: true })
    );
    assert_eq!(parse_vec(&["jobs", "--json"]).unwrap(), Command::Jobs(JobsArgs { json: true }));
    assert_eq!(
        parse_vec(&["job", "show", "42", "--json"]).unwrap(),
        Command::Job(JobCommand::Show { id: 42, json: true })
    );
    assert_eq!(
        parse_vec(&["job", "stop", "42"]).unwrap(),
        Command::Job(JobCommand::Stop { id: 42, json: false })
    );
    assert_eq!(
        parse_vec(&["job", "pause", "42"]).unwrap(),
        Command::Job(JobCommand::Pause { id: 42, json: false })
    );
    assert_eq!(
        parse_vec(&["job", "resume", "42", "--json"]).unwrap(),
        Command::Job(JobCommand::Resume { id: 42, json: true })
    );
}

#[test]
fn record_uses_defaults() {
    assert_eq!(parse_vec(&["record"]).unwrap(), Command::Record(RecordArgs::default()));
    assert_eq!(parse_vec(&["record", "start"]).unwrap(), Command::Record(RecordArgs::default()));
}

#[test]
fn record_parses_all_options() {
    let parsed = parse_vec(&[
        "record",
        "start",
        "--window",
        "42",
        "--fps",
        "60",
        "--codec",
        "h264",
        "--quality",
        "high",
        "--resolution",
        "4k",
        "--out",
        "/tmp/out",
        "--duration",
        "5m",
        "--no-cursor",
        "--no-system-audio",
        "--json",
    ])
    .unwrap();

    assert_eq!(
        parsed,
        Command::Record(RecordArgs {
            source_kind: Some(CaptureSourceKind::Window),
            target_id: Some(42),
            target_query: None,
            fps: Some(FrameRate::Fps60),
            codec: Some(Codec::H264),
            quality: Some(Quality::High),
            resolution: Some(Resolution::R4k),
            output_dir: Some("/tmp/out".to_string()),
            include_cursor: Some(false),
            include_system_audio: Some(false),
            hide_wrec: None,
            duration: Some(RecordDuration::from_secs(5 * 60)),
            json: true,
            detach: false,
            queue: true,
        })
    );
}

#[test]
fn record_accepts_inline_values() {
    let parsed = parse_vec(&["record", "start", "--fps=60", "--target=display:1"]).unwrap();
    assert_eq!(
        parsed,
        Command::Record(RecordArgs {
            source_kind: Some(CaptureSourceKind::Display),
            target_id: Some(1),
            fps: Some(FrameRate::Fps60),
            ..RecordArgs::default()
        })
    );
}

#[test]
fn record_parses_queue_controls() {
    assert_eq!(
        parse_vec(&["record", "start", "--detach", "--no-queue"]).unwrap(),
        Command::Record(RecordArgs { detach: true, queue: false, ..RecordArgs::default() })
    );
}

#[test]
fn record_parses_name_targets_and_duration() {
    assert_eq!(
        parse_vec(&["record", "start", "--app", "Safari", "--duration", "30s"]).unwrap(),
        Command::Record(RecordArgs {
            source_kind: Some(CaptureSourceKind::Window),
            target_query: Some(TargetQuery::App("Safari".to_string())),
            duration: Some(RecordDuration::from_secs(30)),
            ..RecordArgs::default()
        })
    );
    assert_eq!(
        parse_vec(&["record", "start", "--window-name", "README"]).unwrap(),
        Command::Record(RecordArgs {
            source_kind: Some(CaptureSourceKind::Window),
            target_query: Some(TargetQuery::Name {
                kind: Some(CaptureSourceKind::Window),
                query: "README".to_string(),
            }),
            ..RecordArgs::default()
        })
    );
}

#[test]
fn record_parses_positive_boolean_overrides() {
    let parsed = parse_vec(&["record", "--cursor", "--system-audio", "--hide-wrec"]).unwrap();
    assert_eq!(
        parsed,
        Command::Record(RecordArgs {
            include_cursor: Some(true),
            include_system_audio: Some(true),
            hide_wrec: Some(true),
            ..RecordArgs::default()
        })
    );
}

#[test]
fn record_rejects_two_sources() {
    let err = parse_vec(&["record", "--display", "1", "--window", "2"]).unwrap_err();
    assert!(err.contains("only one capture target"), "{err}");
}

#[test]
fn record_rejects_bad_values() {
    assert!(parse_vec(&["record", "--fps", "24"]).is_err());
    assert!(parse_vec(&["record", "--codec", "av1"]).is_err());
    assert!(parse_vec(&["record", "--quality", "ultra"]).is_err());
    assert!(parse_vec(&["record", "--resolution", "8k"]).is_err());
    assert!(parse_vec(&["record", "--display", "abc"]).is_err());
    assert!(parse_vec(&["record", "--target", "space:1"]).is_err());
    assert!(parse_vec(&["record", "--duration", "0s"]).is_err());
    assert!(parse_vec(&["record", "--duration", "1e308h"]).is_err());
    assert!(parse_vec(&["record", "--duration", "99999999999999999999"]).is_err());
}

#[test]
fn record_rejects_missing_value() {
    assert!(parse_vec(&["record", "--fps"]).is_err());
}

#[test]
fn unknown_command_errors() {
    assert!(parse_vec(&["frobnicate"]).is_err());
}

#[test]
fn duration_units_convert_to_exact_durations() {
    let parsed = parse_vec(&["record", "--duration", "1.5m"]).unwrap();
    assert_eq!(
        parsed,
        Command::Record(RecordArgs { duration: Some(RecordDuration::from_secs(90)), ..RecordArgs::default() })
    );
    let parsed = parse_vec(&["record", "--duration", "2h"]).unwrap();
    assert_eq!(
        parsed,
        Command::Record(RecordArgs { duration: Some(RecordDuration::from_secs(7200)), ..RecordArgs::default() })
    );
}

#[test]
fn job_commands_need_a_numeric_id() {
    assert!(parse_vec(&["job", "show"]).is_err());
    assert!(parse_vec(&["job", "show", "forty-two"]).is_err());
    assert_eq!(
        parse_vec(&["job", "logs", "7"]).unwrap(),
        Command::Job(JobCommand::Logs { id: 7, json: false })
    );
}

#[test]
fn inline_values_parse_like_separate_tokens() {
    assert_eq!(
        parse_vec(&["record", "--window=7", "--out=/tmp/x", "--json"]),
        parse_vec(&["record", "--window", "7", "--out", "/tmp/x", "--json"])
    );
    assert_eq!(parse_vec(&["job", "show", "--json=1"]), parse_vec(&["job", "show", "--json", "1"]));
}

fn chars(text: &str) -> Vec<char> {
    text.chars().collect()
}

#[test]
fn duration_values_split_into_number_and_unit() {
    assert_eq!(duration_parts(&chars("1500ms")), Some((chars("1500"), DurationUnit::Millis)));
    assert_eq!(duration_parts(&chars("1.5s")), Some((chars("1.5"), DurationUnit::Seconds)));
    assert_eq!(duration_parts(&chars("5m")), Some((chars("5"), DurationUnit::Minutes)));
    assert_eq!(duration_parts(&chars("2h")), Some((chars("2"), DurationUnit::Hours)));
    assert_eq!(duration_parts(&chars("90")), Some((chars("90"), DurationUnit::Seconds)));
    assert_eq!(duration_parts(&chars("1e3")), None);
    assert_eq!(duration_parts(&chars("")), Some((chars(""), DurationUnit::Seconds)));
}

#[test]
fn each_duration_reading_has_its_answer() {
    let v = chars("30s");
    let d = RecordDuration::from_secs(30);
    assert_eq!(parse_duration(&v, AmountReading::Read(d)), Ok(d));
    assert_eq!(parse_duration(&v, AmountReading::Unreadable), Err("invalid --duration `30s`".to_string()));
    assert_eq!(
        parse_duration(&v, AmountReading::NotPositive),
        Err("invalid --duration `30s` (must be greater than zero)".to_string())
    );
    assert_eq!(
        parse_duration(&v, AmountReading::TooLarge),
        Err("invalid --duration `30s` (duration is too large)".to_string())
    );
    assert_eq!(
        parse_duration(&chars("1e3"), AmountReading::Read(d)),
        Err("invalid --duration `1e3` (expected a positive duration like 30s, 5m, or 1h)".to_string())
    );
}

#[test]
fn durations_are_read_as_floats() {
    let seconds = |n: u64| Ok(Command::Record(RecordArgs { duration: Some(RecordDuration::from_secs(n)), ..RecordArgs::default() }));
    assert_eq!(parse_vec(&["record", "--duration", "1e3s"]), seconds(1000));
    assert_eq!(parse_vec(&["record", "--duration", "9007199254740993s"]), seconds(9007199254740992));
    assert_eq!(
        parse_vec(&["record", "--duration", "18446744073709551615s"]),
        Err("invalid --duration `18446744073709551615s` (duration is too large)".to_string())
    );
    assert_eq!(
        parse_vec(&["record", "--duration", "1e400s"]),
        Err("invalid --duration `1e400s` (must be greater than zero)".to_string())
    );
    assert_eq!(parse_vec(&["record", "--duration", "1es"]), Err("invalid --duration `1es`".to_string()));
}

#[test]
fn the_duration_reading_belongs_to_the_token_after_the_flag() {
    let args: Vec<String> = ["record", "--duration=2s"].iter().map(|s| s.to_string()).collect();
    let d = RecordDuration::from_secs(2);
    let readings = vec![AmountReading::Unreadable, AmountReading::Unreadable, AmountReading::Read(d)];
    assert_eq!(parse(args.clone(), &readings), Ok(Command::Record(RecordArgs { duration: Some(d), ..RecordArgs::default() })));
    assert_eq!(parse(args, &vec![]), Err("invalid --duration `2s`".to_string()));
}

#[test]
fn a_second_target_flag_after_a_first_is_refused() {
    assert_eq!(
        parse_vec(&["record", "--app", "Safari", "--fps", "60", "--display", "2"]),
        Err("specify only one capture target (--app and --display both given)".to_string())
    );
    assert_eq!(
        parse_vec(&["record", "--target", "display:1", "--window", "3"]),
        Err("specify only one capture target (--target and --window both given)".to_string())
    );
}

#[test]
fn a_target_flag_given_as_a_value_is_no_target() {
    let parsed = parse_vec(&["record", "--out", "--app", "--app", "Notes"]).unwrap();
    match parsed {
        Command::Record(args) => {
            assert_eq!(args.output_dir, Some("--app".to_string()));
            assert_eq!(args.target_query, Some(TargetQuery::App("Notes".to_string())));
        },
        other => panic!("unexpected {other:?}"),
    }
}

#[test]
fn the_help_text_lists_each_accepted_record_option() {
    let help = wrec::args::usage();
    let options: [&[&str]; 23] = [
        &["--target", "display:1"], &["--display", "1"], &["--window", "42"], &["--app", "Safari"],
        &["--target-name", "Main"], &["--window-name", "Notes"], &["--display-name", "Main"],
        &["--fps", "60"], &["--codec", "hevc"], &["--quality", "balanced"], &["--resolution", "1080p"],
        &["--out", "/tmp"], &["--duration", "30s"], &["--cursor"], &["--no-cursor"], &["--system-audio"],
        &["--no-system-audio"], &["--hide-wrec"], &["--no-hide-wrec"], &["--detach"], &["--queue"],
        &["--no-queue"], &["--json"],
    ];
    for option in options {
        assert!(help.contains(&format!("\n  {} ", option[0])), "{} is not in the help text", option[0]);
        let mut args = vec!["record"];
        args.extend_from_slice(option);
        assert!(matches!(parse_vec(&args), Ok(Command::Record(_))), "{:?} is refused", args);
    }
}

#[test]
fn unknown_commands_get_the_help_text() {
    assert_eq!(parse_vec(&["frobnicate"]), Err(format!("unknown command `frobnicate`\n\n{}", wrec::args::usage())));
}
