use wrec::engine::{
    convert_integer_pcm, display_not_found_message, engine_codec, engine_quality, engine_target_kind, finished_line,
    frame_interval_micros, metrics_due, metrics_line, next_frame_deadline, parse_capture_command, parse_engine_args,
    CaptureCommand, CaptureCounters, CommandPoll, EngineBackend,
};
use wrec::settings::{CaptureSourceKind, Codec, Quality};

fn args(items: &[&str]) -> Vec<String> {
    items.iter().map(|s| s.to_string()).collect()
}

#[test]
fn engine_arguments_are_read_in_order() {
    let parsed = parse_engine_args(
        &args(&["capture-engine", "C:\\out.mp4", "500", "true", "Display", "1", "HEVC", "High", "1080P"]),
        None,
    )
    .unwrap();
    assert_eq!(parsed.output_path, "C:\\out.mp4");
    assert_eq!(parsed.fps, 120);
    assert!(parsed.include_cursor);
    assert_eq!(parsed.target_kind, "display");
    assert_eq!(parsed.target_id, 1);
    assert_eq!(parsed.codec, "hevc");
    assert_eq!(parsed.quality, "high");
    assert_eq!(parsed.resolution, "1080p");
    assert!(!parsed.include_system_audio);
    assert!(parsed.hide_wrec);
    assert_eq!(parsed.backend, EngineBackend::WindowsCapture);
}

#[test]
fn engine_arguments_choose_the_backend() {
    let base = ["e", "o.mp4", "x", "false", "window", "7", "h264", "balanced", "native", "true", "false"];
    let parsed = parse_engine_args(&args(&base), Some("raw".to_string())).unwrap();
    assert_eq!(parsed.fps, 30);
    assert!(parsed.include_system_audio);
    assert!(!parsed.hide_wrec);
    assert_eq!(parsed.backend, EngineBackend::Raw);
    let mut with_arg = base.to_vec();
    with_arg.push("windows-capture");
    assert_eq!(parse_engine_args(&args(&with_arg), Some("raw".to_string())).unwrap().backend, EngineBackend::WindowsCapture);
}

#[test]
fn engine_arguments_report_errors() {
    assert!(parse_engine_args(&args(&["e", "o"]), None).unwrap_err().starts_with("usage: capture-engine"));
    assert_eq!(
        parse_engine_args(&args(&["e", "o", "30", "true", "display", "one", "hevc", "high", "native"]), None).unwrap_err(),
        "invalid target id `one`"
    );
}

#[test]
fn control_commands_are_read_from_stdin_lines() {
    assert_eq!(parse_capture_command(&"  PAUSE \n".to_string()), Some(CaptureCommand::Pause));
    assert_eq!(parse_capture_command(&"resume".to_string()), Some(CaptureCommand::Resume));
    assert_eq!(parse_capture_command(&"Stop".to_string()), Some(CaptureCommand::Stop));
    assert_eq!(parse_capture_command(&"quit".to_string()), None);
}

#[test]
fn missing_display_messages_list_the_indices() {
    assert_eq!(display_not_found_message(3, 0), "no displays available");
    assert_eq!(display_not_found_message(3, 1), "display 3 not found (only 1 display available, index 0)");
    assert_eq!(display_not_found_message(5, 3), "display 5 not found (only 3 displays available, indices 0-2)");
}

#[test]
fn frame_pacing_and_metrics_period() {
    assert_eq!(frame_interval_micros(30), 33_333);
    assert_eq!(frame_interval_micros(60), 16_666);
    assert!(metrics_due(5, 150, 30));
    assert!(!metrics_due(0, 0, 30));
    assert!(!metrics_due(5, 151, 30));
}

#[test]
fn integer_pcm_is_narrowed_to_sixteen_bits() {
    assert_eq!(convert_integer_pcm(&[1, 2, 3, 4], 16, 1, 2, false), vec![1, 2, 3, 4]);
    assert_eq!(convert_integer_pcm(&[1, 2, 3, 4, 5, 6], 24, 1, 2, false), vec![2, 3, 5, 6]);
    assert_eq!(convert_integer_pcm(&[1, 2, 3, 4, 5, 6, 7, 8], 32, 1, 2, false), vec![3, 4, 7, 8]);
    assert_eq!(convert_integer_pcm(&[9, 9], 16, 2, 1, true), vec![0, 0, 0, 0]);
}

#[test]
fn engine_names_map_to_settings() {
    assert_eq!(engine_codec(&"h264".to_string()), Codec::H264);
    assert_eq!(engine_codec(&"hevc".to_string()), Codec::Hevc);
    assert_eq!(engine_codec(&"av1".to_string()), Codec::Hevc);
    assert_eq!(engine_quality(&"efficient".to_string()), Quality::Efficient);
    assert_eq!(engine_quality(&"high".to_string()), Quality::High);
    assert_eq!(engine_quality(&"ultra".to_string()), Quality::Balanced);
    assert_eq!(engine_target_kind(&"window".to_string()), CaptureSourceKind::Window);
    assert_eq!(engine_target_kind(&"space".to_string()), CaptureSourceKind::Display);
}

#[test]
fn capture_loop_follows_its_commands_and_frames() {
    let mut c = CaptureCounters::new();
    let step = c.on_command(CommandPoll::Command(CaptureCommand::Pause));
    assert!(!step.stop);
    assert_eq!(step.log, Some("capture-engine: recording paused"));
    assert!(c.paused);
    assert!(!c.on_frame(true));
    assert_eq!(c.dropped_frame_count, 1);
    let step = c.on_command(CommandPoll::Command(CaptureCommand::Resume));
    assert_eq!(step.log, Some("capture-engine: recording resumed"));
    assert!(c.on_frame(true));
    assert!(!c.on_frame(false));
    assert_eq!((c.frame_count, c.dropped_frame_count), (1, 2));
    assert!(!c.on_command(CommandPoll::Empty).stop);
    assert!(c.on_command(CommandPoll::Disconnected).stop);
    assert!(c.on_command(CommandPoll::Command(CaptureCommand::Stop)).stop);
}

#[test]
fn late_frames_drop_schedule_slots() {
    assert_eq!(next_frame_deadline(0, 33_333, 10), 33_333);
    assert_eq!(next_frame_deadline(0, 33_333, 100_000), 133_333);
    assert_eq!(metrics_line(5, 150, 2), "capture-engine: metrics elapsed=5 frames=150 dropped=2");
    assert_eq!(finished_line(9, Some(1)), "capture-engine: recording finished frames=9 dropped=1");
    assert_eq!(finished_line(9, None), "capture-engine: recording finished frames=9");
}
