use wrec::store::{bool_to_i64, millis_since_epoch, millis_to_i64, u64_to_i64, EventLevel, EventSource, RecordingStatus};

#[test]
fn u64_values_above_i64_max_are_clamped() {
    assert_eq!(u64_to_i64(u64::MAX), i64::MAX);
    assert_eq!(u64_to_i64(42), 42);
}

#[test]
fn the_largest_signed_value_passes_unchanged() {
    assert_eq!(u64_to_i64(i64::MAX as u64), i64::MAX);
    assert_eq!(u64_to_i64(i64::MAX as u64 + 1), i64::MAX);
    assert_eq!(u64_to_i64(0), 0);
}

#[test]
fn flags_are_stored_as_zero_or_one() {
    assert_eq!(bool_to_i64(false), 0);
    assert_eq!(bool_to_i64(true), 1);
}

#[test]
fn millisecond_counts_are_held_at_i64_max() {
    assert_eq!(millis_to_i64(1_700_000_000_000), 1_700_000_000_000);
    assert_eq!(millis_to_i64(u128::MAX), i64::MAX);
}

#[test]
fn stored_names_of_statuses_levels_and_sources() {
    assert_eq!(RecordingStatus::Starting.as_str(), "starting");
    assert_eq!(RecordingStatus::Recording.as_str(), "recording");
    assert_eq!(RecordingStatus::Failed.as_str(), "failed");
    assert_eq!(EventLevel::Info.as_str(), "info");
    assert_eq!(EventLevel::Warn.as_str(), "warn");
    assert_eq!(EventLevel::Error.as_str(), "error");
    assert_eq!(EventSource::App.as_str(), "app");
    assert_eq!(EventSource::Backend.as_str(), "backend");
    assert_eq!(EventSource::Helper.as_str(), "helper");
    assert_eq!(EventSource::CaptureEngine.as_str(), "capture_engine");
}

#[test]
fn clock_readings_become_timestamps() {
    assert_eq!(millis_since_epoch(Some(1_700_000_000_123)), 1_700_000_000_123);
    assert_eq!(millis_since_epoch(Some(u128::MAX)), i64::MAX);
    assert_eq!(millis_since_epoch(None), 0);
}
