use wrec::args::{parse, AmountReading, Command, RecordArgs, RecordDuration};
use wrec::jobs::JobRecord;
use wrec::protocol::{default_queue, is_terminal, record_params, recording_params, status_label, EventLevel, JobStatus, TargetSelector};
use wrec::settings::{CaptureSourceKind, CaptureTarget, FrameRate, RecorderSettings};

fn job() -> JobRecord {
    JobRecord::new(
        7,
        None,
        CaptureTarget { id: 1, name: "Main".to_string(), kind: CaptureSourceKind::Display },
        RecorderSettings::with_output_dir("/tmp".to_string()),
        None,
        Vec::new(),
        100,
    )
}

#[test]
fn job_lifecycle_logs_each_step() {
    let mut j = job();
    assert_eq!(j.status, JobStatus::Queued);
    j.mark_starting(110);
    assert_eq!(j.status, JobStatus::Starting);
    assert_eq!(j.started_at_ms, Some(110));
    j.mark_recording(120).unwrap();
    j.mark_finishing(130).unwrap();
    j.mark_completed("helper exited: 0".to_string(), 140).unwrap();
    assert_eq!(j.status, JobStatus::Completed);
    assert_eq!(j.finished_at_ms, Some(140));
    assert_eq!(j.updated_at_ms, 140);
    let messages: Vec<&str> = j.events.iter().map(|e| e.message.as_str()).collect();
    assert_eq!(messages, vec!["job starting", "recording active", "stop requested", "helper exited: 0"]);
}

#[test]
fn finished_jobs_stay_as_they_are() {
    let mut j = job();
    j.mark_failed("engine crashed".to_string(), 150).unwrap();
    assert_eq!(j.events[0].level, EventLevel::Error);
    assert!(j.is_terminal());
    assert!(j.mark_recording(160).is_none());
    assert!(j.mark_completed("late".to_string(), 170).is_none());
    assert!(j.mark_cancelled(180).is_none());
    assert_eq!(j.status, JobStatus::Failed);
    assert_eq!(j.finished_at_ms, Some(150));
    assert_eq!(j.events.len(), 1);
}

#[test]
fn cancelled_job_logs_a_warning() {
    let mut j = job();
    j.mark_cancelled(200).unwrap();
    assert_eq!(j.status, JobStatus::Cancelled);
    assert_eq!(j.events[0].level, EventLevel::Warning);
    assert_eq!(j.events[0].message, "queued job cancelled");
    let snap = j.snapshot(Some(2));
    assert_eq!(snap.id, 7);
    assert_eq!(snap.queued_position, Some(2));
    assert_eq!(snap.events, j.events);
}

#[test]
fn status_words_and_terminal_states() {
    assert_eq!(status_label(JobStatus::Paused), "paused");
    assert_eq!(status_label(JobStatus::Finishing), "finishing");
    assert!(is_terminal(JobStatus::Cancelled));
    assert!(!is_terminal(JobStatus::Recording));
    assert!(default_queue());
}

#[test]
fn command_line_becomes_a_recording_request() {
    let strings: Vec<String> =
        ["record", "--window", "42", "--fps", "60", "--duration", "1500ms", "--no-queue"].iter().map(|s| s.to_string()).collect();
    let mut readings = vec![AmountReading::Unreadable; strings.len()];
    readings[6] = AmountReading::Read(RecordDuration { secs: 1, nanos: 500_000_000 });
    let args = match parse(strings, &readings).unwrap()
    {
        Command::Record(args) => args,
        other => panic!("unexpected {other:?}"),
    };
    let params = record_params(&args);
    assert_eq!(params.selector, Some(TargetSelector::Id { kind: CaptureSourceKind::Window, id: 42 }));
    assert_eq!(params.options.fps, Some(FrameRate::Fps60));
    assert_eq!(params.duration_ms, Some(1500));
    assert!(!params.queue);

    let plain = record_params(&RecordArgs { duration: Some(RecordDuration::from_secs(2)), ..RecordArgs::default() });
    assert_eq!(plain.selector, None);
    assert_eq!(plain.duration_ms, Some(2000));
    assert!(plain.queue);
}

#[test]
fn app_requests_name_the_exact_target() {
    let target = CaptureTarget { id: 3, name: "Notes".to_string(), kind: CaptureSourceKind::Window };
    let settings = RecorderSettings::with_output_dir("/tmp/out".to_string());
    let params = recording_params(&target, &settings);
    assert_eq!(params.selector, Some(TargetSelector::Id { kind: CaptureSourceKind::Window, id: 3 }));
    assert_eq!(params.options.output_dir, Some("/tmp/out".to_string()));
    assert_eq!(params.duration_ms, None);
    assert!(!params.queue);
}

#[test]
fn app_recordings_do_not_queue_without_queue_ui() {
    let target = CaptureTarget { id: 7, name: "Main Display".into(), kind: CaptureSourceKind::Display };
    let params = recording_params(&target, &RecorderSettings::with_output_dir("/tmp/Movies/Wrec".to_string()));

    assert!(!params.queue);
}

#[test]
fn record_start_params_queue_by_default() {
    assert!(default_queue());
}
