use meeting_summarizer::models::{
    LLMConfig, LLMProvider, Recording, RecordingQuery, RecordingSession, SortBy, SortOrder,
    Summary, SummaryStatus, Transcription, TranscriptionStatus,
};

#[test]
fn new_recording_has_identity_and_nothing_else() {
    let r = Recording::new("a.wav".to_string(), "/rec/a.wav".to_string());
    assert_eq!(r.id.len(), 36);
    assert_eq!(r.filename, "a.wav");
    assert_eq!(r.file_path, "/rec/a.wav");
    assert_eq!(r.title, None);
    assert_eq!(r.description, None);
    assert_eq!(r.category, None);
    assert!(r.tags.is_empty());
    assert_eq!(r.duration, None);
    assert_eq!(r.file_size, None);
    assert_eq!(r.sample_rate, None);
    assert_eq!(r.channels, None);
    assert_eq!(r.created_at, r.updated_at);
    // The clock reads milliseconds since 1970; any run of this test is after 2020.
    assert!(r.created_at > 1_577_836_800_000);
}

#[test]
fn fresh_identifiers_differ() {
    let a = Recording::new("a.wav".to_string(), "/rec/a.wav".to_string());
    let b = Recording::new("a.wav".to_string(), "/rec/a.wav".to_string());
    assert_ne!(a.id, b.id);
    assert_eq!(a.id.matches('-').count(), 4);
    assert!(a.id.chars().all(|c| c == '-' || c.is_ascii_hexdigit()));
}

#[test]
fn recording_builders_set_one_field_each() {
    let base = Recording::with_identity("id".to_string(), "a.wav".to_string(), "/a.wav".to_string(), 5);
    let r = base.clone().with_title("T".to_string());
    assert_eq!(r.title, Some("T".to_string()));
    assert_eq!(Recording { title: None, updated_at: 5, ..r }, base);

    let r = base.clone().with_description("D".to_string());
    assert_eq!(r.description, Some("D".to_string()));
    assert_eq!(Recording { description: None, updated_at: 5, ..r }, base);

    let r = base.clone().with_category("C".to_string());
    assert_eq!(r.category, Some("C".to_string()));

    let r = base.clone().with_tags(vec!["x".to_string(), "y".to_string()]);
    assert_eq!(r.tags, vec!["x", "y"]);

    let r = base.clone().with_duration(12);
    assert_eq!(r.duration, Some(12));
    assert_eq!(Recording { duration: None, updated_at: 5, ..r }, base);

    let r = base.clone().with_file_size(34);
    assert_eq!(r.file_size, Some(34));

    let r = base.clone().with_audio_info(16000, 1);
    assert_eq!(r.sample_rate, Some(16000));
    assert_eq!(r.channels, Some(1));
    assert_eq!(Recording { sample_rate: None, channels: None, updated_at: 5, ..r }, base);
}

#[test]
fn add_tag_adds_a_tag_once() {
    let base = Recording::with_identity("id".to_string(), "a.wav".to_string(), "/a.wav".to_string(), 5);
    let r = base.add_tag("x".to_string());
    assert_eq!(r.tags, vec!["x"]);
    let stamp = r.updated_at;
    let r = r.add_tag("y".to_string());
    assert_eq!(r.tags, vec!["x", "y"]);
    let before = r.clone();
    let r = r.add_tag("x".to_string());
    assert_eq!(r, before);
    assert!(stamp >= 5);
}

#[test]
fn default_query_finds_the_fifty_newest() {
    let q = RecordingQuery::default();
    assert_eq!(q.search_text, None);
    assert_eq!(q.category, None);
    assert!(q.tags.is_empty());
    assert_eq!(q.date_from, None);
    assert_eq!(q.date_to, None);
    assert_eq!(q.min_duration, None);
    assert_eq!(q.max_duration, None);
    assert_eq!(q.limit, Some(50));
    assert_eq!(q.offset, Some(0));
    assert_eq!(q.sort_by, SortBy::CreatedAt);
    assert_eq!(q.sort_order, SortOrder::Desc);
}

#[test]
fn session_starts_active_and_stops() {
    let s = RecordingSession::new("/rec/tmp.wav".to_string());
    assert_eq!(s.id.len(), 36);
    assert_eq!(s.temp_file_path, "/rec/tmp.wav");
    assert!(s.is_active);
    assert!(s.start_time > 1_577_836_800_000);
    let stopped = s.clone().stop();
    assert!(!stopped.is_active);
    assert_eq!(RecordingSession { is_active: true, ..stopped }, s);
}

#[test]
fn transcription_starts_pending() {
    let t = Transcription::new("rec".to_string(), "text".to_string(), "ja".to_string());
    assert_eq!(t.id.len(), 36);
    assert_eq!(t.recording_id, "rec");
    assert_eq!(t.text, "text");
    assert_eq!(t.language, "ja");
    assert_eq!(t.confidence, None);
    assert_eq!(t.processing_time_ms, None);
    assert_eq!(t.status, TranscriptionStatus::Pending);
    let e = Transcription::new_empty("rec".to_string(), "en".to_string());
    assert_eq!(e.text, "");
    assert_eq!(e.language, "en");
    assert_eq!(e.status, TranscriptionStatus::Pending);
}

#[test]
fn transcription_moves_from_pending_through_processing_to_completed() {
    let t = Transcription::new_empty("rec".to_string(), "ja".to_string());
    let t = t.set_processing();
    assert_eq!(t.status, TranscriptionStatus::Processing);
    let t = t.with_text("こんにちは".to_string(), Some(850));
    assert_eq!(t.status, TranscriptionStatus::Completed);
    assert_eq!(t.text, "こんにちは");
    assert_eq!(t.confidence, Some(850));
    let t = t.set_processing_time(1200);
    assert_eq!(t.processing_time_ms, Some(1200));
    assert_eq!(t.status, TranscriptionStatus::Completed);
}

#[test]
fn terminal_states_are_never_left() {
    let done = Transcription::new("rec".to_string(), "a".to_string(), "ja".to_string())
        .with_status(TranscriptionStatus::Completed);
    assert_eq!(done.clone().set_processing(), done);
    assert_eq!(done.clone().with_error("late".to_string()), done);
    assert_eq!(done.clone().with_status(TranscriptionStatus::Pending), done);
    assert_eq!(done.clone().with_text("other".to_string(), Some(1)), done);
    assert!(done.status.is_terminal());

    let failed = Transcription::new("rec".to_string(), "a".to_string(), "ja".to_string())
        .with_error("engine crashed".to_string());
    assert_eq!(failed.status, TranscriptionStatus::Failed("engine crashed".to_string()));
    assert_eq!(failed.clone().with_status(TranscriptionStatus::Completed), failed);
    assert_eq!(failed.clone().with_text("x".to_string(), None), failed);
    assert_eq!(failed.clone().with_error("again".to_string()), failed);
    assert!(failed.status.is_terminal());
    assert!(!TranscriptionStatus::Pending.is_terminal());
    assert!(!TranscriptionStatus::Processing.is_terminal());
}

#[test]
fn confidence_is_cut_down_to_one() {
    let t = Transcription::new("rec".to_string(), "a".to_string(), "ja".to_string());
    assert_eq!(t.clone().with_confidence(Some(1000)).confidence, Some(1000));
    assert_eq!(t.clone().with_confidence(Some(1001)).confidence, Some(1000));
    assert_eq!(t.clone().with_confidence(Some(u16::MAX)).confidence, Some(1000));
    assert_eq!(t.clone().with_confidence(Some(0)).confidence, Some(0));
    assert_eq!(t.clone().with_confidence(None).confidence, None);
    assert_eq!(t.clone().with_text("x".to_string(), Some(5000)).confidence, Some(1000));
    assert_eq!(t.with_processing_time(None).processing_time_ms, None);
}

#[test]
fn summary_lifecycle() {
    let s = Summary::new("tr".to_string(), "llama3.2:3b".to_string());
    assert_eq!(s.id.len(), 36);
    assert_eq!(s.transcription_id, "tr");
    assert_eq!(s.model_used, "llama3.2:3b");
    assert_eq!(s.status, SummaryStatus::Pending);
    assert_eq!(s.summary_text, "");
    let s = s.set_processing();
    assert_eq!(s.status, SummaryStatus::Processing);
    let done = s.clone().with_content("sum".to_string(), vec!["k".to_string()], vec!["a".to_string()]);
    assert_eq!(done.status, SummaryStatus::Completed);
    assert_eq!(done.summary_text, "sum");
    assert_eq!(done.key_points, vec!["k"]);
    assert_eq!(done.action_items, vec!["a"]);
    assert_eq!(done.with_processing_time(9).processing_time_ms, Some(9));
    assert_eq!(s.with_error("timeout".to_string()).status, SummaryStatus::Failed("timeout".to_string()));
}

#[test]
fn default_llm_config_is_local_ollama() {
    let c = LLMConfig::default();
    assert_eq!(c.provider, LLMProvider::Ollama);
    assert_eq!(c.base_url, "http://localhost:11434");
    assert_eq!(c.model_name, "llama3.2:3b");
    assert_eq!(c.temperature, 700);
    assert_eq!(c.max_tokens, 2048);
    assert_eq!(c.timeout_seconds, 120);
}
