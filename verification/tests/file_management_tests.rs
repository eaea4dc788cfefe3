use meeting_summarizer::commands::file_management::{
    cleanup_orphaned_files, export_recording_data, search_recordings, update_recording_metadata,
};
use meeting_summarizer::commands::{
    audio_path_of, delete_recording, initialization_failed, transcribe_recording,
    transcription_failed, TranscriptionRequest,
};
use meeting_summarizer::errors::{
    check_path_text, contains_parent_step, is_inside, validate_audio_format, validate_file_path,
    AppError, ErrorKind,
    PathResolution,
};
use meeting_summarizer::models::{
    Recording, RecordingQuery, SortBy, SortOrder, Transcription, TranscriptionStatus,
};

fn recording(path: &str) -> Recording {
    Recording::with_identity("id".to_string(), "a.wav".to_string(), path.to_string(), 1_755_000_123_456)
}

fn s(text: &str) -> Option<String> {
    Some(text.to_string())
}

#[test]
fn request_without_anything_is_the_default_search() {
    let q = search_recordings(None, None, None, None, None, None, None, None, None, None, None).unwrap();
    assert_eq!(q, RecordingQuery::default());
}

#[test]
fn request_is_read_field_by_field() {
    let q = search_recordings(
        s("budget"),
        s("meeting"),
        Some(vec!["q3".to_string()]),
        s("2025-08-12T12:02:03.456+00:00"),
        s("2025-08-12T21:02:04+09:00"),
        Some(1),
        Some(2),
        s("file_size"),
        s("asc"),
        Some(7),
        Some(3),
    )
    .unwrap();
    assert_eq!(
        q,
        RecordingQuery {
            search_text: s("budget"),
            category: s("meeting"),
            tags: vec!["q3".to_string()],
            date_from: Some(1_755_000_123_456),
            date_to: Some(1_755_000_124_000),
            min_duration: Some(1),
            max_duration: Some(2),
            limit: Some(7),
            offset: Some(3),
            sort_by: SortBy::FileSize,
            sort_order: SortOrder::Asc,
        }
    );
}

#[test]
fn unknown_sort_words_fall_back() {
    let sorted = |by: &str, order: &str| {
        let q = search_recordings(None, None, None, None, None, None, None, s(by), s(order), None, None).unwrap();
        (q.sort_by, q.sort_order)
    };
    assert_eq!(sorted("created_at", "desc"), (SortBy::CreatedAt, SortOrder::Desc));
    assert_eq!(sorted("updated_at", "asc"), (SortBy::UpdatedAt, SortOrder::Asc));
    assert_eq!(sorted("filename", "ASC"), (SortBy::Filename, SortOrder::Desc));
    assert_eq!(sorted("duration", "up"), (SortBy::Duration, SortOrder::Desc));
    assert_eq!(sorted("size", "asc"), (SortBy::CreatedAt, SortOrder::Asc));
}

#[test]
fn bad_dates_name_their_field() {
    let r = search_recordings(None, None, None, s("yesterday"), s("also bad"), None, None, None, None, None, None);
    assert_eq!(r, Err("Invalid date_from format".to_string()));
    let r = search_recordings(None, None, None, None, s("2025-13-01T00:00:00Z"), None, None, None, None, None, None);
    assert_eq!(r, Err("Invalid date_to format".to_string()));
}

#[test]
fn metadata_is_written_over_field_by_field() {
    let base = recording("/rec/a.wav").with_title("old".to_string()).with_tags(vec!["x".to_string()]);
    let r = update_recording_metadata(base.clone(), None, None, None, None);
    assert_eq!(r, base);
    let r = update_recording_metadata(base.clone(), s("new"), s("d"), s("c"), Some(Vec::new()));
    assert_eq!(r.title, s("new"));
    assert_eq!(r.description, s("d"));
    assert_eq!(r.category, s("c"));
    assert!(r.tags.is_empty());
    assert_eq!(Recording { title: base.title.clone(), description: None, category: None, tags: base.tags.clone(), ..r }, base);
    let r = update_recording_metadata(base.clone(), None, s("d"), None, None);
    assert_eq!(r.title, s("old"));
    assert_eq!(r.tags, vec!["x"]);
}

#[test]
fn files_without_a_recording_are_orphans() {
    let recordings = vec![recording("/rec/a.wav"), recording("/rec/b.wav")];
    let files = vec![
        "/rec/c.wav".to_string(),
        "/rec/a.wav".to_string(),
        "/rec/A.wav".to_string(),
        "/rec/b.wav".to_string(),
        "/rec/c.wav".to_string(),
    ];
    assert_eq!(cleanup_orphaned_files(&files, &recordings), vec!["/rec/c.wav", "/rec/A.wav", "/rec/c.wav"]);
    assert_eq!(cleanup_orphaned_files(&files, &Vec::new()), files);
    assert!(cleanup_orphaned_files(&Vec::new(), &recordings).is_empty());
}

#[test]
fn report_lists_what_the_recording_has() {
    let bare = recording("/rec/a.wav");
    assert_eq!(
        export_recording_data(&bare, &Vec::new(), "text"),
        Ok("=== Recording: a.wav ===\nCreated: 2025-08-12 12:02:03\n\n=== Transcriptions ===\n".to_string())
    );
    let full = recording("/rec/a.wav")
        .with_title("週次会議".to_string())
        .with_description("予算".to_string())
        .with_category("meeting".to_string())
        .with_tags(vec!["q3".to_string(), "finance".to_string(), "x".to_string()])
        .with_duration(125);
    let first = Transcription::with_identity("t1".to_string(), "id".to_string(), "こんにちは".to_string(), "ja".to_string(), 0)
        .with_confidence(Some(950))
        .with_status(TranscriptionStatus::Completed);
    let second = Transcription::with_identity("t2".to_string(), "id".to_string(), "hello".to_string(), "en".to_string(), 0);
    assert_eq!(
        export_recording_data(&full, &vec![first, second], "text"),
        Ok(concat_lines(&[
            "=== Recording: a.wav ===",
            "Created: 2025-08-12 12:02:03",
            "Title: 週次会議",
            "Description: 予算",
            "Category: meeting",
            "Tags: q3, finance, x",
            "Duration: 125s",
            "",
            "=== Transcriptions ===",
            "",
            "--- ja (Confidence: 0.95) ---",
            "こんにちは",
            "",
            "--- en (Confidence: 0.00) ---",
            "hello",
        ]))
    );
}

fn concat_lines(lines: &[&str]) -> String {
    let mut out = String::new();
    for line in lines {
        out.push_str(line);
        out.push('\n');
    }
    out
}

#[test]
fn confidence_is_written_with_two_places() {
    let shown = |c: u16| {
        let t = Transcription::with_identity("t".to_string(), "id".to_string(), String::new(), "ja".to_string(), 0)
            .with_confidence(Some(c));
        let text = export_recording_data(&recording("/a"), &vec![t], "text").unwrap();
        let from = text.find("Confidence: ").unwrap() + 12;
        text[from..from + 4].to_string()
    };
    assert_eq!(shown(0), "0.00");
    assert_eq!(shown(5), "0.00");
    assert_eq!(shown(850), "0.85");
    assert_eq!(shown(900), "0.90");
    assert_eq!(shown(999), "0.99");
    assert_eq!(shown(1000), "1.00");
}

#[test]
fn report_in_another_format_is_refused() {
    assert_eq!(
        export_recording_data(&recording("/a"), &Vec::new(), "xml"),
        Err("Unsupported export format: xml".to_string())
    );
    let lost = Recording::with_identity("id".to_string(), "a.wav".to_string(), "/a".to_string(), i64::MAX);
    assert_eq!(
        export_recording_data(&lost, &Vec::new(), "text"),
        Err("Recording has no valid creation time".to_string())
    );
}

#[test]
fn requests_are_cleaned_before_anything_else() {
    assert_eq!(
        transcribe_recording("rec\u{0}-1", s("ja\u{7}")),
        Ok(TranscriptionRequest { recording_id: "rec-1".to_string(), language: s("ja") })
    );
    assert_eq!(
        transcribe_recording("rec-1", None),
        Ok(TranscriptionRequest { recording_id: "rec-1".to_string(), language: None })
    );
    assert_eq!(transcribe_recording("", None), Err("Validation error: Input cannot be empty".to_string()));
    assert_eq!(
        transcribe_recording(&"x".repeat(51), None),
        Err("Validation error: Input too long (max: 50 characters)".to_string())
    );
    assert_eq!(
        transcribe_recording("rec-1", s("japanese-jp")),
        Err("Validation error: Input too long (max: 10 characters)".to_string())
    );
    assert_eq!(transcribe_recording("rec-1", s("")), Err("Validation error: Input cannot be empty".to_string()));
    assert_eq!(delete_recording("rec\u{1}-9"), Ok("rec-9".to_string()));
    assert!(delete_recording("").is_err());
}

#[test]
fn transcription_needs_the_recording_and_its_file() {
    let r = recording("/rec/a.wav");
    assert_eq!(audio_path_of(Some(&r), true), Ok("/rec/a.wav".to_string()));
    assert_eq!(audio_path_of(Some(&r), false), Err("Audio file not found".to_string()));
    assert_eq!(audio_path_of(None, true), Err("Recording not found".to_string()));
    let e = AppError::ExecutionFailure { message: "exit 1".to_string() };
    assert_eq!(transcription_failed(&e), "Transcription failed: Execution failed: exit 1");
    assert_eq!(initialization_failed(&e), "Failed to initialize Whisper: Execution failed: exit 1");
}

#[test]
fn path_text_is_checked_first() {
    assert_eq!(check_path_text("recordings/a.wav"), Ok(()));
    assert_eq!(
        check_path_text(""),
        Err(AppError::InvalidPath { message: "File path cannot be empty".to_string() })
    );
    assert_eq!(
        check_path_text(&"a".repeat(1001)),
        Err(AppError::InvalidPath { message: "File path too long".to_string() })
    );
    assert_eq!(check_path_text(&"a".repeat(1000)), Ok(()));
    assert_eq!(
        check_path_text("../etc/passwd"),
        Err(AppError::InvalidPath { message: "Path traversal detected".to_string() })
    );
}

#[test]
fn steps_to_the_parent_are_found_in_the_text() {
    for path in ["..", "../etc/passwd", "a/..", "a/../b", "/x/../y", "a\\..\\b", "..\\x", "a/..\\b", "/.."] {
        assert!(contains_parent_step(path), "{:?}", path);
    }
    for path in ["", ".", "a", "a..b", "..a", "a..", "a/..b/c", "a/b../c", ".../x", "a/.../b", "./a", "a.wav", "...", "x/. ./y"] {
        assert!(!contains_parent_step(path), "{:?}", path);
    }
}

#[test]
fn resolved_paths_are_compared_step_by_step() {
    assert!(is_inside("/data/rec", "/data/rec"));
    assert!(is_inside("/data/rec/a.wav", "/data/rec"));
    assert!(is_inside("/data/rec/x/a.wav", "/data/rec"));
    assert!(is_inside("/etc/passwd", "/"));
    assert!(is_inside("/data/rec/a.wav", "/data/rec/"));
    assert!(!is_inside("/data/recordings/a.wav", "/data/rec"));
    assert!(!is_inside("/data/rec.wav", "/data/rec"));
    assert!(!is_inside("/data", "/data/rec"));
    assert!(!is_inside("/etc/passwd", "/data/rec"));
    assert!(!is_inside("/data/rec", ""));
    // Where the directory begins with a slash, a backslash belongs to a name.
    assert!(!is_inside("/data/rec\\a.wav", "/data/rec"));
    assert!(is_inside("C:\\rec\\a.wav", "C:\\rec"));
    assert!(is_inside("\\\\?\\C:\\rec\\a.wav", "\\\\?\\C:\\rec"));
    assert!(!is_inside("C:\\recordings\\a.wav", "C:\\rec"));
}

#[test]
fn paths_outside_the_allowed_directory_are_denied() {
    let resolved = |canonical: &str| PathResolution::Resolved {
        allowed: "/data/rec".to_string(),
        canonical: canonical.to_string(),
    };
    assert_eq!(validate_file_path("a.wav", resolved("/data/rec/a.wav")), Ok("/data/rec/a.wav".to_string()));
    assert_eq!(
        validate_file_path("/etc/passwd", resolved("/etc/passwd")),
        Err(AppError::PermissionDenied { message: "Path outside allowed directory".to_string() })
    );
    assert_eq!(
        validate_file_path("/data/recordings/a.wav", resolved("/data/recordings/a.wav")),
        Err(AppError::PermissionDenied { message: "Path outside allowed directory".to_string() })
    );
    // The text is judged before the file system, whatever that made of the path.
    assert_eq!(
        validate_file_path("../etc/passwd", resolved("/data/rec/passwd")),
        Err(AppError::InvalidPath { message: "Path traversal detected".to_string() })
    );
    assert!(matches!(validate_file_path("", resolved("/data/rec")), Err(AppError::InvalidPath { .. })));
    let cases = [
        (PathResolution::AllowedDirectoryInvalid, "Invalid allowed directory"),
        (PathResolution::NoParent, "Invalid path structure"),
        (PathResolution::ParentMissing, "Parent directory does not exist"),
        (PathResolution::ParentInvalid, "Invalid parent directory"),
        (PathResolution::NoFileName, "Invalid filename"),
    ];
    for (resolution, message) in cases {
        assert_eq!(
            validate_file_path("/x/a.wav", resolution),
            Err(AppError::InvalidPath { message: message.to_string() })
        );
    }
}

#[test]
fn audio_format_is_read_off_the_path() {
    assert_eq!(validate_audio_format("/rec/a.wav"), Ok(()));
    assert_eq!(validate_audio_format("/rec/a.tar.MP3"), Ok(()));
    assert_eq!(validate_audio_format("/rec/a.txt").unwrap_err().kind(), ErrorKind::ValidationError);
    assert_eq!(
        validate_audio_format("/rec/wav"),
        Err(AppError::ValidationError { message: "File has no extension".to_string() })
    );
    assert_eq!(
        validate_audio_format("/rec/.wav"),
        Err(AppError::ValidationError { message: "File has no extension".to_string() })
    );
}

#[test]
fn refused_audio_format_names_what_stands_after_the_last_dot() {
    assert_eq!(
        validate_audio_format("/rec/notes.v2.txt"),
        Err(AppError::ValidationError { message: "Unsupported audio format: txt".to_string() })
    );
    assert_eq!(
        validate_audio_format("/rec.d/take"),
        Err(AppError::ValidationError { message: "File has no extension".to_string() })
    );
    for path in ["", "take", "/rec/take", "wav", "C:/rec/flac"] {
        assert_eq!(
            validate_audio_format(path),
            Err(AppError::ValidationError { message: "File has no extension".to_string() }),
            "{:?}",
            path
        );
    }
    for path in ["a.wav", "a.Mp3", "b.M4A", "/x/y.z/c.flac", "d.e.ogg"] {
        assert_eq!(validate_audio_format(path), Ok(()), "{:?}", path);
    }
}
