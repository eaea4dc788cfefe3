use meeting_summarizer::errors::ErrorKind;
use meeting_summarizer::models::{Recording, Transcription, TranscriptionStatus};
use meeting_summarizer::models::LLMProvider;
use meeting_summarizer::services::llm_manager::LLMModelManager;
use meeting_summarizer::services::recording::RecordingService;
use meeting_summarizer::services::whisper_local::{
    InitCommand, InitEvent, ProcessOutput, RunOutcome, WhisperService,
};

fn ready_whisper() -> WhisperService {
    let mut s = WhisperService::new("model.bin".to_string(), "recordings".to_string());
    let ok = || InitEvent::Ran(RunOutcome::Exited(ProcessOutput {
        success: true,
        stdout: String::new(),
        stderr: String::new(),
    }));
    s.initialize();
    s.advance_initialize(ok());
    s.advance_initialize(ok());
    assert_eq!(s.advance_initialize(InitEvent::FileExists(true)), InitCommand::Done);
    s
}

fn record(service: &mut RecordingService, start: i64, millis: i64) -> Recording {
    let pending = service.start_recording_at(start, format!("session-{}", start)).unwrap();
    service.confirm_start(pending, Ok(())).unwrap();
    let pending = service.stop_recording_at(start + millis, Ok(())).unwrap();
    let samples = (millis as u64) * 16;
    let recording = RecordingService::build_recording(&pending, 44 + 2 * samples).unwrap();
    service.finish_stop(recording, Ok(())).unwrap()
}

fn transcribe(whisper: &WhisperService, recording: &Recording, id: String) -> Transcription {
    let size = recording.file_size.unwrap() as u64;
    let language = Some("ja".to_string());
    let run = whisper.transcribe_audio_file(&recording.file_path, &language, true, size).unwrap();
    assert!(run.script.contains(&recording.file_path));
    let heard = RunOutcome::Exited(ProcessOutput {
        success: true,
        stdout: "こんにちは、会議を始めます。\n".to_string(),
        stderr: "Loading model: small".to_string(),
    });
    WhisperService::complete_transcription(id, language, &heard, size, 120).unwrap()
}

#[test]
fn test_complete_recording_transcription_workflow() {
    let mut recording_service = RecordingService::new("recordings".to_string()).unwrap();
    let whisper_service = ready_whisper();
    assert!(whisper_service.is_initialized());
    assert!(!recording_service.is_recording());

    let pending = recording_service.start_recording_at(1_755_000_000_000, "session".to_string()).unwrap();
    let session_id = recording_service.confirm_start(pending, Ok(())).unwrap();
    assert!(!session_id.is_empty());
    assert!(recording_service.is_recording());

    let pending = recording_service.stop_recording_at(1_755_000_000_200, Ok(())).unwrap();
    let recording = RecordingService::build_recording(&pending, 44 + 2 * 3200).unwrap();
    let recording = recording_service.finish_stop(recording, Ok(())).unwrap();
    assert!(!recording_service.is_recording());
    assert!(!recording.id.is_empty());
    assert!(!recording.filename.is_empty());
    assert!(recording.file_size.unwrap() >= 1024);
    assert!(recording.duration == Some(0) || recording.duration == Some(1));

    let transcription = transcribe(&whisper_service, &recording, recording.id.clone());
    assert_eq!(transcription.recording_id, recording.id);
    assert!(!transcription.text.is_empty());
    assert_eq!(transcription.language, "ja");
    assert_eq!(transcription.status, TranscriptionStatus::Completed);
    let confidence = transcription.confidence.unwrap();
    assert!(confidence <= 1000);
    assert!(transcription.processing_time_ms.is_some());
}

#[test]
fn test_multiple_recordings_workflow() {
    let mut recording_service = RecordingService::new("recordings".to_string()).unwrap();
    let whisper_service = ready_whisper();
    let mut recordings = Vec::new();
    for i in 0..3i64 {
        recordings.push(record(&mut recording_service, 1_755_000_000_000 + i * 400, 100 + i * 50));
    }
    assert_eq!(recordings.len(), 3);
    // Recordings that begin within the same second still get names of their own.
    for a in 0..3 {
        for b in a + 1..3 {
            assert_ne!(recordings[a].filename, recordings[b].filename);
            assert_ne!(recordings[a].file_path, recordings[b].file_path);
            assert_ne!(recordings[a].id, recordings[b].id);
        }
    }
    for recording in &recordings {
        let transcription = transcribe(&whisper_service, recording, recording.id.clone());
        assert_eq!(transcription.recording_id, recording.id);
        assert!(!transcription.text.is_empty());
    }
}

#[test]
fn test_error_handling_workflow() {
    let mut recording_service = RecordingService::new("recordings".to_string()).unwrap();
    let whisper_service = ready_whisper();

    let pending = recording_service.start_recording_at(1_000, "first".to_string()).unwrap();
    recording_service.confirm_start(pending, Ok(())).unwrap();
    let second_start = recording_service.start_recording_at(2_000, "second".to_string());
    assert!(second_start.is_err());

    let recording = {
        let pending = recording_service.stop_recording_at(3_000, Ok(())).unwrap();
        let recording = RecordingService::build_recording(&pending, 3_244).unwrap();
        recording_service.finish_stop(recording, Ok(())).unwrap()
    };
    let stop_without_start = recording_service.stop_recording_at(4_000, Ok(()));
    assert!(stop_without_start.is_err());

    let missing = whisper_service.transcribe_audio_file("/no/such/file.wav", &None, false, 0);
    assert!(missing.is_err());
    assert_eq!(missing.unwrap_err().kind(), ErrorKind::ValidationError);

    // After the errors the recording can still be transcribed.
    let transcription = transcribe(&whisper_service, &recording, recording.id.clone());
    assert_eq!(transcription.status, TranscriptionStatus::Completed);
}

#[test]
fn test_confidence_calculation_accuracy() {
    let mut recording_service = RecordingService::new("recordings".to_string()).unwrap();
    let whisper_service = ready_whisper();
    for i in 0..3i64 {
        let recording = record(&mut recording_service, 10_000 * (i + 1), 200 + i * 100);
        let transcription = transcribe(&whisper_service, &recording, format!("confidence_test_{}", i));
        assert!(transcription.confidence.is_some());
        let confidence = transcription.confidence.unwrap();
        assert!(confidence <= 1000);
        assert!(confidence >= 800);
    }
}

#[test]
fn test_memory_leak_prevention() {
    let mut recording_service = RecordingService::new("recordings".to_string()).unwrap();
    let whisper_service = ready_whisper();
    for i in 0..5i64 {
        let recording = record(&mut recording_service, 100_000 * (i + 1), 150);
        let transcription = transcribe(&whisper_service, &recording, format!("memory_test_{}", i));
        assert!(!transcription.text.is_empty());
        assert!(!recording_service.is_recording());
        assert_eq!(recording_service.current_session_id(), None);
    }
}

#[test]
fn test_model_discovery_workflow() {
    let mut manager = LLMModelManager::new();
    // No provider answers: nothing is found, and that is no error.
    let found = LLMModelManager::discover_models(LLMProvider::Ollama, "");
    let result = manager.discover_available_models(found);
    assert!(result.is_ok());
    assert!(result.unwrap().is_empty());

    let found = LLMModelManager::discover_models(
        LLMProvider::Ollama,
        r#"{"models": [{"name": "llama3.2:3b", "size": 2019393189}]}"#,
    );
    let models = manager.discover_available_models(found).unwrap();
    assert!(!models.is_empty());
    let first_model = &models[0];
    assert!(!first_model.id.is_empty());
    assert!(!first_model.name.is_empty());
    assert_eq!(manager.get_cached_models().len(), 1);
}
