use meeting_summarizer::errors::{AppError, ErrorKind};
use meeting_summarizer::models::TranscriptionStatus;
use meeting_summarizer::services::whisper::{
    Backend, FormField, HttpOutcome, WhisperService, MAX_FILE_SIZE,
};

fn ready(endpoint: Option<&str>, key: Option<&str>) -> WhisperService {
    let mut service = WhisperService::configured(
        "models/ggml-base.bin".to_string(),
        "recordings".to_string(),
        endpoint.map(|e| e.to_string()),
        key.map(|k| k.to_string()),
    );
    service.initialize().unwrap();
    service
}

fn answered(body: &str) -> HttpOutcome {
    HttpOutcome::Answered { success: true, body: body.to_string() }
}

#[test]
fn test_whisper_service_creation() {
    let whisper_service = WhisperService::new("model.bin".to_string(), "recordings".to_string());
    assert!(!whisper_service.is_initialized());
    assert_eq!(whisper_service.choose_backend(), Backend::Fallback);
}

#[test]
fn test_whisper_initialization() {
    let mut whisper_service = WhisperService::new("model.bin".to_string(), "recordings".to_string());
    assert_eq!(whisper_service.initialize(), Ok(None));
    assert!(whisper_service.is_initialized());
    // A second call changes nothing.
    assert_eq!(whisper_service.initialize(), Ok(None));
    assert!(whisper_service.is_initialized());
}

#[test]
fn initialization_names_the_health_address_of_a_server_once() {
    let mut s = WhisperService::configured(
        "m".to_string(),
        "r".to_string(),
        Some("http://localhost:8080/transcribe".to_string()),
        None,
    );
    assert_eq!(s.initialize(), Ok(Some("http://localhost:8080/health".to_string())));
    assert_eq!(s.initialize(), Ok(None));
    assert_eq!(s.health_check_url(), "http://localhost:8080/health");
}

#[test]
fn health_address_drops_every_trailing_transcribe() {
    let url = |endpoint: &str| ready(Some(endpoint), None).health_check_url();
    assert_eq!(url("http://h/transcribe/transcribe"), "http://h/health");
    assert_eq!(url("http://h/v1/audio"), "http://h/v1/audio/health");
    assert_eq!(url("http://h/transcribe/"), "http://h/transcribe//health");
    assert_eq!(url("/transcribe"), "/health");
    assert_eq!(url(""), "/health");
}

#[test]
fn backend_follows_endpoint_and_key() {
    assert_eq!(ready(None, None).choose_backend(), Backend::Fallback);
    assert_eq!(ready(None, Some("SECRET-REDACTED")).choose_backend(), Backend::OpenAi);
    assert_eq!(ready(Some("http://localhost:8080/transcribe"), None).choose_backend(), Backend::LocalServer);
    assert_eq!(
        ready(Some("http://localhost:8080/transcribe"), Some("SECRET-REDACTED")).choose_backend(),
        Backend::LocalServer
    );
    assert_eq!(ready(Some("https://eu.openai.com/x"), Some("k")).choose_backend(), Backend::OpenAi);
}

#[test]
fn test_transcription_invalid_file() {
    let whisper_service = ready(None, None);
    let result = whisper_service.transcribe_audio_file("/no/such/file.wav", false, 0);
    assert!(result.is_err());
    assert_eq!(result, Err(AppError::FileNotFound { path: "/no/such/file.wav".to_string() }));
}

#[test]
fn transcription_before_initialization_is_refused() {
    let s = WhisperService::new("m".to_string(), "r".to_string());
    let r = s.transcribe_audio_file("a.wav", true, 2048);
    assert!(matches!(r, Err(AppError::NotInitialized { .. })));
    assert_eq!(r.unwrap_err().kind(), ErrorKind::StateConflict);
    // The state is looked at before the file.
    assert!(matches!(s.transcribe_audio_file("a.wav", false, 0), Err(AppError::NotInitialized { .. })));
}

#[test]
fn empty_file_is_a_validation_error() {
    let s = ready(None, None);
    let r = s.transcribe_audio_file("a.wav", true, 0);
    assert!(matches!(r, Err(AppError::ValidationError { .. })));
    assert_eq!(r.unwrap_err().kind(), ErrorKind::ValidationError);
}

#[test]
fn file_of_exactly_the_maximum_is_taken_every_time() {
    let s = ready(None, None);
    assert_eq!(MAX_FILE_SIZE, 25 * 1024 * 1024);
    for _ in 0..3 {
        assert_eq!(s.transcribe_audio_file("a.wav", true, MAX_FILE_SIZE), Ok(Backend::Fallback));
        assert_eq!(
            s.transcribe_audio_file("a.wav", true, MAX_FILE_SIZE + 1),
            Err(AppError::ValidationError {
                message: "Audio file too large. Maximum size is 25MB.".to_string()
            })
        );
    }
    assert_eq!(s.transcribe_audio_file("a.wav", true, 1), Ok(Backend::Fallback));
}

#[test]
fn fallback_text_depends_on_size_and_language_alone() {
    let text = |size, lang| WhisperService::fallback_transcription(size, lang);
    assert_eq!(text(0, Some("ja")), "こんにちは、これはサンプルの書き起こしです。短い録音です。");
    assert_eq!(text(319_999, Some("en")), "Hello, this is a sample transcription。短い録音です。");
    assert_eq!(
        text(320_000, Some("en")),
        "Hello, this is a sample transcription。会議の内容について話し合いました。"
    );
    assert_eq!(text(1_919_999, Some("zh")), "你好，这是一个示例转录。会議の内容について話し合いました。");
    assert_eq!(
        text(1_920_000, Some("ko")),
        "안녕하세요, 이것은 샘플 전사입니다。長時間の録音で、詳細な議論が行われました。プロジェクトの進捗について説明がありました。"
    );
    assert_eq!(text(100, Some("fr")), text(100, Some("ja")));
    assert_eq!(text(100, None), text(100, Some("ja")));
    // The same request gives the same bytes.
    for size in [0u64, 9_644, 320_000, 5_000_000] {
        for lang in [None, Some("ja"), Some("en"), Some("de")] {
            assert_eq!(text(size, lang).as_bytes(), text(size, lang).as_bytes());
        }
    }
}

#[test]
fn openai_answer_holds_the_text() {
    let r = WhisperService::transcribe_with_openai_api(&answered(r#"{"text": "会議を始めます"}"#));
    assert_eq!(r, Ok("会議を始めます".to_string()));
    let r = WhisperService::transcribe_with_openai_api(&answered(r#"{"text": "a \"quoted\" word\n"}"#));
    assert_eq!(r, Ok("a \"quoted\" word\n".to_string()));
}

#[test]
fn openai_answer_without_text_is_an_execution_failure() {
    for body in [r#"{"error": "x"}"#, r#"{"text": 5}"#, "not json", "", r#"["text"]"#, r#"{"text": "a"} trailing"#] {
        let r = WhisperService::transcribe_with_openai_api(&answered(body));
        assert_eq!(r.unwrap_err().kind(), ErrorKind::ExecutionFailure, "{:?}", body);
    }
}

#[test]
fn connectivity_is_told_apart_from_server_errors() {
    let unreachable = HttpOutcome::Unreachable("connection refused".to_string());
    let refused = HttpOutcome::Answered { success: false, body: "quota exceeded".to_string() };
    for read in [WhisperService::transcribe_with_openai_api, WhisperService::transcribe_with_local_server] {
        assert_eq!(read(&unreachable).unwrap_err().kind(), ErrorKind::ConnectivityError);
        assert_eq!(read(&HttpOutcome::TimedOut).unwrap_err().kind(), ErrorKind::ConnectivityError);
        assert_eq!(read(&refused).unwrap_err().kind(), ErrorKind::ExecutionFailure);
    }
    assert_eq!(
        WhisperService::transcribe_with_openai_api(&refused),
        Err(AppError::ExecutionFailure { message: "API error: quota exceeded".to_string() })
    );
    assert_eq!(
        WhisperService::transcribe_with_local_server(&unreachable),
        Err(AppError::ConnectivityError {
            message: "Local server request failed: connection refused".to_string()
        })
    );
}

#[test]
fn server_answer_is_the_transcript() {
    let r = WhisperService::transcribe_with_local_server(&answered("plain text answer"));
    assert_eq!(r, Ok("plain text answer".to_string()));
}

#[test]
fn health_check_needs_an_answer_of_success() {
    assert_eq!(WhisperService::test_local_server(&answered("ok")), Ok(()));
    let down = HttpOutcome::Answered { success: false, body: String::new() };
    assert_eq!(WhisperService::test_local_server(&down).unwrap_err().kind(), ErrorKind::ExecutionFailure);
    assert_eq!(
        WhisperService::test_local_server(&HttpOutcome::TimedOut).unwrap_err().kind(),
        ErrorKind::ConnectivityError
    );
}

#[test]
fn request_fields_name_model_and_language() {
    let field = |n: &str, v: &str| FormField { name: n.to_string(), value: v.to_string() };
    assert_eq!(
        WhisperService::form_fields(Backend::OpenAi, Some("ja")),
        vec![field("model", "whisper-1"), field("language", "ja")]
    );
    assert_eq!(WhisperService::form_fields(Backend::OpenAi, None), vec![field("model", "whisper-1")]);
    assert_eq!(WhisperService::form_fields(Backend::LocalServer, Some("en")), vec![field("language", "en")]);
    assert_eq!(WhisperService::form_fields(Backend::LocalServer, None), Vec::new());
}

#[test]
fn authorization_header_carries_the_key() {
    assert_eq!(
        ready(None, Some("SECRET-REDACTED")).authorization_header(),
        Ok("Bearer SECRET-REDACTED".to_string())
    );
    assert_eq!(ready(None, None).authorization_header().unwrap_err().kind(), ErrorKind::ConfigurationError);
}

#[test]
fn test_transcription_workflow() {
    let whisper_service = ready(None, None);
    let backend = whisper_service.transcribe_audio_file("recordings/a.wav", true, 9_644).unwrap();
    assert_eq!(backend, Backend::Fallback);
    let transcription = WhisperService::complete_transcription(
        "rec-1".to_string(),
        Some("ja".to_string()),
        None,
        9_644,
        12,
    );
    assert_eq!(transcription.recording_id, "rec-1");
    assert_eq!(transcription.language, "ja");
    assert!(!transcription.text.is_empty());
    assert_eq!(transcription.text, "こんにちは、これはサンプルの書き起こしです。短い録音です。");
    assert_eq!(transcription.status, TranscriptionStatus::Completed);
    let confidence = transcription.confidence.unwrap();
    assert!(confidence <= 1000);
    assert_eq!(confidence, 900);
    assert_eq!(transcription.processing_time_ms, Some(12));
}

#[test]
fn test_transcription_different_languages() {
    let ja = WhisperService::complete_transcription("r".to_string(), Some("ja".to_string()), None, 100, 1);
    let en = WhisperService::complete_transcription("r".to_string(), Some("en".to_string()), None, 100, 1);
    let none = WhisperService::complete_transcription("r".to_string(), None, None, 100, 1);
    assert_eq!(ja.language, "ja");
    assert_eq!(en.language, "en");
    assert_eq!(none.language, "ja");
    assert!(en.text.starts_with("Hello"));
    assert_eq!(ja.text, none.text);
}

#[test]
fn test_transcription_status_lifecycle() {
    let t = WhisperService::complete_transcription("r".to_string(), None, None, 100, 1);
    assert_eq!(t.status, TranscriptionStatus::Completed);
    assert!(t.status.is_terminal());
    assert_eq!(t.clone().set_processing(), t);
}

#[test]
fn backend_transcript_is_trimmed_and_cleaned() {
    let t = WhisperService::complete_transcription(
        "r".to_string(),
        Some("ja".to_string()),
        Some(Ok("  今日はAPIの話です。ご視聴ありがとうございました \n".to_string())),
        100,
        1,
    );
    assert_eq!(t.text, "今日は API の話です。");
    let t = WhisperService::complete_transcription(
        "r".to_string(),
        Some("en".to_string()),
        Some(Ok("  Hello  there \n".to_string())),
        100,
        1,
    );
    assert_eq!(t.text, "Hello  there");
}

#[test]
fn failed_backend_falls_back_to_the_placeholder() {
    let failed = Some(Err(AppError::ConnectivityError { message: "no route".to_string() }));
    let t = WhisperService::complete_transcription("r".to_string(), Some("en".to_string()), failed, 400_000, 5);
    assert_eq!(t.text, "Hello, this is a sample transcription。会議の内容について話し合いました。");
    assert_eq!(t.status, TranscriptionStatus::Completed);
}

#[test]
fn service_status_follows_state_and_backend() {
    let fresh = WhisperService::new("m".to_string(), "r".to_string());
    assert_eq!(fresh.get_service_status(true), Ok("Not initialized".to_string()));
    assert_eq!(ready(None, Some("k")).get_service_status(false), Ok("OpenAI API ready".to_string()));
    assert_eq!(ready(None, None).get_service_status(true), Ok("OpenAI API key missing".to_string()));
    let server = ready(Some("http://localhost:1/transcribe"), None);
    assert_eq!(server.get_service_status(true), Ok("Local server ready".to_string()));
    assert_eq!(
        server.get_service_status(false),
        Ok("Local server unavailable - fallback mode".to_string())
    );
}

#[test]
fn remote_languages() {
    let s = ready(None, None);
    assert_eq!(
        s.get_available_languages().unwrap(),
        vec!["ja", "en", "zh", "ko", "es", "fr", "de", "it", "pt", "ru"]
    );
}
