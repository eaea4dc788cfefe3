use meeting_summarizer::errors::{AppError, ErrorKind};
use meeting_summarizer::models::Recording;
use meeting_summarizer::services::recording::{PendingStop, RecordingService};

fn service() -> RecordingService {
    RecordingService::new("recordings".to_string()).unwrap()
}

/// Starts a session at `now` and lets the capture thread run.
fn start(service: &mut RecordingService, now: i64, id: &str) -> String {
    let pending = service.start_recording_at(now, id.to_string()).unwrap();
    service.confirm_start(pending, Ok(())).unwrap()
}

/// Stops the session at `now`, with a file of `size` bytes, and stores it.
fn stop(service: &mut RecordingService, now: i64, size: u64) -> Recording {
    let pending = service.stop_recording_at(now, Ok(())).unwrap();
    let recording = RecordingService::build_recording(&pending, size).unwrap();
    service.finish_stop(recording, Ok(())).unwrap()
}

#[test]
fn test_recording_service_creation() {
    let recording_service = service();
    assert!(!recording_service.is_recording());
    assert_eq!(recording_service.current_session_id(), None);
}

#[test]
fn test_start_stop_recording() {
    let mut recording_service = service();
    let pending = recording_service.start_recording().unwrap();
    let session_id = recording_service.confirm_start(pending, Ok(())).unwrap();
    assert!(!session_id.is_empty());
    assert!(recording_service.is_recording());

    let pending = recording_service.stop_recording(Ok(())).unwrap();
    let recording = RecordingService::build_recording(&pending, 9644).unwrap();
    let recording = recording_service.finish_stop(recording, Ok(())).unwrap();
    assert!(!recording_service.is_recording());
    assert!(!recording.id.is_empty());
    assert!(!recording.filename.is_empty());
}

#[test]
fn test_double_start_recording_error() {
    let mut recording_service = service();
    let id = start(&mut recording_service, 1_000, "first");
    let result = recording_service.start_recording();
    assert!(result.is_err());
    assert_eq!(result.unwrap_err().kind(), ErrorKind::StateConflict);
    // The first session is untouched and can still be stopped.
    assert!(recording_service.is_recording());
    assert_eq!(recording_service.current_session_id(), Some(id));
    let recording = stop(&mut recording_service, 2_000, 100);
    assert_eq!(recording.duration, Some(1));
    assert!(!recording_service.is_recording());
}

#[test]
fn test_stop_recording_without_start_error() {
    let mut recording_service = service();
    let result = recording_service.stop_recording(Ok(()));
    assert!(result.is_err());
    assert_eq!(
        result,
        Err(AppError::StateConflict { message: "No active recording session".to_string() })
    );
    assert!(!recording_service.is_recording());
}

#[test]
fn start_names_the_temporary_file_after_the_second() {
    let mut s = service();
    let pending = s.start_recording_at(1_755_000_123_456, "abc".to_string()).unwrap();
    assert_eq!(pending.temp_filename, "recording_temp_1755000123.wav");
    assert!(pending.session.temp_file_path.ends_with("recording_temp_1755000123.wav"));
    assert!(pending.session.temp_file_path.starts_with("recordings"));
    assert_ne!(pending.session.temp_file_path, pending.temp_filename);
    assert_eq!(pending.session.id, "abc");
    assert_eq!(pending.session.start_time, 1_755_000_123_456);
    assert!(pending.session.is_active);
    // The session is not held before the capture thread runs.
    assert_eq!(s.current_session_id(), None);
    assert!(!s.is_recording());
    assert_eq!(s.confirm_start(pending, Ok(())), Ok("abc".to_string()));
    assert_eq!(s.current_session_id(), Some("abc".to_string()));
    assert!(s.is_recording());
}

#[test]
fn start_before_the_epoch_rounds_the_second_toward_zero() {
    let mut s = service();
    let pending = s.start_recording_at(-1_500, "abc".to_string()).unwrap();
    assert_eq!(pending.temp_filename, "recording_temp_-1.wav");
}

#[test]
fn start_outside_the_calendar_is_a_configuration_error() {
    let mut s = service();
    let r = s.start_recording_at(i64::MAX, "abc".to_string());
    assert_eq!(r.unwrap_err().kind(), ErrorKind::ConfigurationError);
    assert!(!s.is_recording());
    // Nothing is left behind: a start at a sound instant is accepted.
    assert_eq!(start(&mut s, 0, "ok"), "ok");
}

#[test]
fn failed_start_leaves_no_session() {
    let mut s = service();
    let pending = s.start_recording_at(1_000, "abc".to_string()).unwrap();
    let error = AppError::Io { message: "Cannot open output file for write".to_string() };
    assert_eq!(s.confirm_start(pending, Err(error.clone())), Err(error));
    assert_eq!(s.current_session_id(), None);
    assert!(!s.is_recording());
    assert_eq!(start(&mut s, 2_000, "again"), "again");
}

#[test]
fn confirm_without_a_pending_start_is_a_state_conflict() {
    let mut s = service();
    let mut other = service();
    let pending = other.start_recording_at(1_000, "abc".to_string()).unwrap();
    let r = s.confirm_start(pending, Ok(()));
    assert_eq!(r.unwrap_err().kind(), ErrorKind::StateConflict);
    assert_eq!(s.current_session_id(), None);
}

#[test]
fn stop_names_the_final_file_after_start_and_session() {
    let mut s = service();
    // 2025-08-12 12:02:03 UTC
    start(&mut s, 1_755_000_123_456, "0f8fad5b-d9cb-469f-a165-70867728950e");
    let pending = s.stop_recording_at(1_755_000_133_455, Ok(())).unwrap();
    assert_eq!(
        pending.final_filename,
        "recording_20250812_120203_0f8fad5b-d9cb-469f-a165-70867728950e.wav"
    );
    assert!(pending.final_path.ends_with(&pending.final_filename));
    assert!(pending.final_path.starts_with("recordings"));
    assert!(pending.temp_file_path.ends_with("recording_temp_1755000123.wav"));
    assert_eq!(pending.session_id, "0f8fad5b-d9cb-469f-a165-70867728950e");
    assert_eq!(pending.duration, 9);
}

#[test]
fn stop_at_the_epoch_uses_the_calendar() {
    let mut s = service();
    start(&mut s, 0, "id");
    let pending = s.stop_recording_at(0, Ok(())).unwrap();
    assert_eq!(pending.final_filename, "recording_19700101_000000_id.wav");
    assert_eq!(pending.duration, 0);
}

#[test]
fn duration_is_in_whole_seconds_rounded_toward_zero() {
    let cases = [(0, 0), (999, 0), (1_000, 1), (1_999, 1), (300, 0), (61_500, 61), (-1, 0), (-1_000, -1), (-1_999, -1)];
    for (elapsed, seconds) in cases {
        let mut s = service();
        start(&mut s, 10_000, "id");
        let pending = s.stop_recording_at(10_000 + elapsed, Ok(())).unwrap();
        assert_eq!(pending.duration, seconds, "elapsed {}", elapsed);
    }
}

#[test]
fn record_carries_names_duration_and_size() {
    let pending = PendingStop {
        session_id: "id".to_string(),
        temp_file_path: "recordings/tmp.wav".to_string(),
        final_filename: "recording_x_id.wav".to_string(),
        final_path: "recordings/recording_x_id.wav".to_string(),
        duration: 7,
    };
    let r = RecordingService::build_recording(&pending, 224_044).unwrap();
    assert_eq!(r.filename, "recording_x_id.wav");
    assert_eq!(r.file_path, "recordings/recording_x_id.wav");
    assert_eq!(r.duration, Some(7));
    assert_eq!(r.file_size, Some(224_044));
    assert_eq!(r.id.len(), 36);
    assert_ne!(r.id, "id");
    let huge = RecordingService::build_recording(&pending, u64::MAX).unwrap();
    assert_eq!(huge.file_size, Some(i64::MAX));
}

#[test]
fn failed_stop_keeps_the_session_for_another_try() {
    let mut s = service();
    start(&mut s, 1_000, "id");
    let pending = s.stop_recording_at(4_000, Ok(())).unwrap();
    let recording = RecordingService::build_recording(&pending, 10).unwrap();
    let error = AppError::Storage { message: "database is locked".to_string() };
    assert_eq!(s.finish_stop(recording.clone(), Err(error.clone())), Err(error));
    // The session is still held, the engine is idle.
    assert_eq!(s.current_session_id(), Some("id".to_string()));
    assert!(!s.is_recording());
    // A new start is refused while the session is held.
    assert_eq!(s.start_recording_at(5_000, "x".to_string()).unwrap_err().kind(), ErrorKind::StateConflict);
    // The stop can be asked for again and gives the same names.
    let again = s.stop_recording_at(4_000, Ok(())).unwrap();
    assert_eq!(again, pending);
    assert_eq!(s.finish_stop(recording.clone(), Ok(())), Ok(recording));
    assert_eq!(s.current_session_id(), None);
}

#[test]
fn finish_without_a_pending_stop_is_a_state_conflict() {
    let mut s = service();
    let recording = Recording::new("a.wav".to_string(), "a.wav".to_string());
    assert_eq!(s.finish_stop(recording.clone(), Ok(())).unwrap_err().kind(), ErrorKind::StateConflict);
    start(&mut s, 0, "id");
    // The engine still captures: no stop was asked for.
    assert_eq!(s.finish_stop(recording, Ok(())).unwrap_err().kind(), ErrorKind::StateConflict);
    assert!(s.is_recording());
}

#[test]
fn is_recording_follows_starts_and_stops() {
    let mut s = service();
    let mut open = 0;
    assert_eq!(s.is_recording(), open == 1);
    for round in 0..5 {
        start(&mut s, round * 10_000, "id");
        open += 1;
        assert_eq!(s.is_recording(), open == 1);
        assert!(s.start_recording_at(round * 10_000 + 1, "other".to_string()).is_err());
        assert_eq!(s.is_recording(), open == 1);
        stop(&mut s, round * 10_000 + 300, 100);
        open -= 1;
        assert_eq!(s.is_recording(), open == 1);
        assert!(s.stop_recording_at(round * 10_000 + 400, Ok(())).is_err());
        assert_eq!(s.is_recording(), open == 1);
    }
}

#[test]
fn of_two_starts_one_succeeds_and_one_conflicts() {
    let mut s = service();
    let first = s.start_recording_at(1_000, "a".to_string());
    let second = s.start_recording_at(1_000, "b".to_string());
    assert!(first.is_ok());
    assert_eq!(second.unwrap_err().kind(), ErrorKind::StateConflict);
    assert_eq!(s.confirm_start(first.unwrap(), Ok(())), Ok("a".to_string()));
    assert_eq!(s.current_session_id(), Some("a".to_string()));
}

#[test]
fn short_recording_scenario() {
    let mut s = service();
    let pending = s.start_recording_at(1_755_000_000_000, "session".to_string()).unwrap();
    s.confirm_start(pending, Ok(())).unwrap();
    // 300 ms later.
    let pending = s.stop_recording_at(1_755_000_000_300, Ok(())).unwrap();
    let recording = RecordingService::build_recording(&pending, 44 + 2 * 4800).unwrap();
    let recording = s.finish_stop(recording, Ok(())).unwrap();
    assert!(recording.duration == Some(0) || recording.duration == Some(1));
    assert!(recording.file_size.unwrap() > 0);
    assert_eq!(recording.file_size, Some(9644));
    assert!(!s.is_recording());
}

#[test]
fn service_lists_the_devices_of_the_host_or_the_placeholder() {
    let s = service();
    assert_eq!(s.get_audio_devices(None), Ok(vec!["Default Microphone".to_string()]));
    assert_eq!(s.get_audio_devices(Some(Vec::new())), Ok(vec!["Default Microphone".to_string()]));
    assert_eq!(
        s.get_audio_devices(Some(vec![Some("USB Mic".to_string()), None, Some("Line In".to_string())])),
        Ok(vec!["USB Mic".to_string(), "Line In".to_string()])
    );
}

#[test]
fn capture_without_samples_fails_the_stop_and_keeps_the_session() {
    let mut s = service();
    let pending = s.start_recording_at(1_000, "held".to_string()).unwrap();
    s.confirm_start(pending, Ok(())).unwrap();
    let nothing = AppError::ResourceUnavailable { message: "No audio data was recorded".to_string() };
    assert_eq!(s.stop_recording_at(2_000, Err(nothing.clone())), Err(nothing.clone()));
    assert_eq!(s.current_session_id(), Some("held".to_string()));
    assert!(!s.is_recording());
    // A second start is still refused, and the stop can be asked again.
    assert_eq!(
        s.start_recording_at(3_000, "other".to_string()).unwrap_err().kind(),
        ErrorKind::StateConflict
    );
    assert_eq!(s.stop_recording_at(4_000, Err(nothing.clone())), Err(nothing));
    assert_eq!(s.current_session_id(), Some("held".to_string()));
    let again = s.stop_recording_at(5_000, Ok(())).unwrap();
    assert_eq!(again.session_id, "held");
    assert_eq!(again.duration, 4);
}

#[test]
fn empty_file_is_no_recording() {
    let mut s = service();
    let pending = s.start_recording_at(1_000, "empty".to_string()).unwrap();
    s.confirm_start(pending, Ok(())).unwrap();
    let pending = s.stop_recording_at(2_000, Ok(())).unwrap();
    assert_eq!(
        RecordingService::build_recording(&pending, 0).unwrap_err().kind(),
        ErrorKind::ResourceUnavailable
    );
    let record = RecordingService::build_recording(&pending, 1).unwrap();
    assert_eq!(record.file_size, Some(1));
    let mut empty = record.clone();
    empty.file_size = Some(0);
    assert_eq!(s.finish_stop(empty, Ok(())).unwrap_err().kind(), ErrorKind::ResourceUnavailable);
    assert_eq!(s.current_session_id(), Some("empty".to_string()));
    let mut unknown = record.clone();
    unknown.file_size = None;
    assert_eq!(s.finish_stop(unknown, Ok(())).unwrap_err().kind(), ErrorKind::ResourceUnavailable);
    assert_eq!(s.current_session_id(), Some("empty".to_string()));
    // The error of the disk or the store comes before the verdict on the size.
    let disk = AppError::Io { message: "rename failed".to_string() };
    let mut empty = record.clone();
    empty.file_size = Some(0);
    assert_eq!(s.finish_stop(empty, Err(disk.clone())), Err(disk));
    assert_eq!(s.finish_stop(record.clone(), Ok(())), Ok(record));
    assert_eq!(s.current_session_id(), None);
}

#[test]
fn started_session_can_be_stamped_and_stopped() {
    let mut s = service();
    let pending = s.start_recording().unwrap();
    assert!(pending.session.start_time >= 0);
    let start = pending.session.start_time;
    s.confirm_start(pending, Ok(())).unwrap();
    let stop = s.stop_recording(Ok(())).unwrap();
    assert!(stop.duration >= 0);
    assert!(stop.final_filename.starts_with("recording_"));
    assert!(stop.final_filename.ends_with(".wav"));
    assert_eq!(s.current_session_id().is_some(), true);
    assert!(start >= 0);
}

#[test]
fn paths_end_in_the_names_of_the_files() {
    for now in [0, 999, 1_000, 1_755_000_123_456, -1, -86_400_000] {
        let mut s = RecordingService::new("recordings".to_string()).unwrap();
        let pending = s.start_recording_at(now, "0f8fad5b-d9cb-469f-a165-70867728950e".to_string()).unwrap();
        assert!(pending.session.temp_file_path.ends_with(&pending.temp_filename), "{:?}", pending);
        assert!(pending.session.temp_file_path.len() > pending.temp_filename.len());
        s.confirm_start(pending, Ok(())).unwrap();
        let stop = s.stop_recording_at(now + 1_500, Ok(())).unwrap();
        assert!(stop.final_path.ends_with(&stop.final_filename), "{:?}", stop);
        assert_eq!(stop.duration, 1);
    }
}
