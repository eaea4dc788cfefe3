use meeting_summarizer::database::{
    all_tags, decode_status, encode_status, search_recordings, tags_from_json, tags_to_json,
    timestamp_from_text, timestamp_to_text, SqlParam,
};
use meeting_summarizer::errors::ErrorKind;
use meeting_summarizer::models::{RecordingQuery, SortBy, SortOrder, TranscriptionStatus};

const BASE: &str = "SELECT id, filename, file_path, title, description, category, tags, duration, file_size, sample_rate, channels, created_at, updated_at 
             FROM recordings WHERE 1=1";

fn text(s: &str) -> SqlParam {
    SqlParam::Text(s.to_string())
}

#[test]
fn statuses_are_written_as_words() {
    assert_eq!(encode_status(&TranscriptionStatus::Pending), "pending");
    assert_eq!(encode_status(&TranscriptionStatus::Processing), "processing");
    assert_eq!(encode_status(&TranscriptionStatus::Completed), "completed");
    assert_eq!(encode_status(&TranscriptionStatus::Failed("timeout".to_string())), "failed:timeout");
}

#[test]
fn statuses_are_read_back_as_written() {
    let reasons = ["", "timeout", "failed:again", "a:b:c", "pending", "完了できません", "\n"];
    let mut statuses = vec![
        TranscriptionStatus::Pending,
        TranscriptionStatus::Processing,
        TranscriptionStatus::Completed,
    ];
    statuses.extend(reasons.iter().map(|r| TranscriptionStatus::Failed(r.to_string())));
    for status in statuses {
        assert_eq!(decode_status(&encode_status(&status)), status);
    }
}

#[test]
fn unknown_status_is_a_failure() {
    assert_eq!(decode_status("done"), TranscriptionStatus::Failed("Unknown status".to_string()));
    assert_eq!(decode_status(""), TranscriptionStatus::Failed("Unknown status".to_string()));
    assert_eq!(decode_status("failed"), TranscriptionStatus::Failed("Unknown status".to_string()));
    assert_eq!(decode_status("Pending"), TranscriptionStatus::Failed("Unknown status".to_string()));
    assert_eq!(decode_status("failed:"), TranscriptionStatus::Failed(String::new()));
}

#[test]
fn instants_are_kept_in_the_form_of_rfc_3339() {
    assert_eq!(timestamp_to_text(0), Some("1970-01-01T00:00:00+00:00".to_string()));
    assert_eq!(timestamp_to_text(1_755_000_123_456), Some("2025-08-12T12:02:03.456+00:00".to_string()));
    assert_eq!(timestamp_to_text(i64::MAX), None);
    assert_eq!(timestamp_from_text("2025-08-12T12:02:03.456+00:00"), Some(1_755_000_123_456));
    assert_eq!(timestamp_from_text("2025-08-12T21:02:03+09:00"), Some(1_755_000_123_000));
    assert_eq!(timestamp_from_text("1970-01-01T00:00:00Z"), Some(0));
    assert_eq!(timestamp_from_text("2025-08-12"), None);
    assert_eq!(timestamp_from_text(""), None);
    for millis in [0i64, 1, -1, 1_755_000_123_456, -86_400_000] {
        assert_eq!(timestamp_from_text(&timestamp_to_text(millis).unwrap()), Some(millis));
    }
}

#[test]
fn tags_are_kept_as_a_json_list() {
    let tags = vec!["会議".to_string(), "a \"quoted\" tag".to_string(), String::new()];
    let json = tags_to_json(&tags);
    assert_eq!(json, r#"["会議","a \"quoted\" tag",""]"#);
    assert_eq!(tags_from_json(&json), tags);
    assert_eq!(tags_to_json(&Vec::new()), "[]");
    assert_eq!(tags_from_json("[]"), Vec::<String>::new());
}

#[test]
fn text_that_is_no_list_of_strings_has_no_tags() {
    for text in ["", "not json", "{}", "\"a\"", "[1, 2]", "[\"a\", 2]", "[\"a\", null]", "[[\"a\"]]"] {
        assert_eq!(tags_from_json(text), Vec::<String>::new(), "{:?}", text);
    }
    assert_eq!(tags_from_json(" [ \"a\" , \"b\" ] "), vec!["a", "b"]);
    let many: Vec<String> = (0..12).map(|i| format!("tag{}", i)).collect();
    assert_eq!(tags_from_json(&tags_to_json(&many)), many);
}

#[test]
fn default_search_orders_and_limits() {
    let s = search_recordings(&RecordingQuery::default()).unwrap();
    assert_eq!(s.sql, format!("{} ORDER BY created_at DESC LIMIT 50 OFFSET 0", BASE));
    assert!(s.params.is_empty());
}

#[test]
fn search_numbers_its_marks_in_order() {
    let query = RecordingQuery {
        search_text: Some("budget".to_string()),
        category: Some("meeting".to_string()),
        tags: vec!["q3".to_string(), "finance".to_string()],
        date_from: Some(0),
        date_to: Some(1_755_000_123_456),
        min_duration: Some(60),
        max_duration: Some(3600),
        limit: Some(10),
        offset: Some(20),
        sort_by: SortBy::Duration,
        sort_order: SortOrder::Asc,
    };
    let s = search_recordings(&query).unwrap();
    assert_eq!(
        s.sql,
        format!(
            "{} AND (filename LIKE ?1 OR title LIKE ?2 OR description LIKE ?3) AND category = ?4 AND tags LIKE ?5 AND tags LIKE ?6 AND created_at >= ?7 AND created_at <= ?8 AND duration >= ?9 AND duration <= ?10 ORDER BY duration ASC LIMIT 10 OFFSET 20",
            BASE
        )
    );
    assert_eq!(
        s.params,
        vec![
            text("%budget%"),
            text("%budget%"),
            text("%budget%"),
            text("meeting"),
            text("%\"q3\""),
            text("%\"finance\""),
            text("1970-01-01T00:00:00+00:00"),
            text("2025-08-12T12:02:03.456+00:00"),
            SqlParam::Integer(60),
            SqlParam::Integer(3600),
        ]
    );
}

#[test]
fn search_without_limit_has_no_offset() {
    let query = RecordingQuery {
        limit: None,
        offset: Some(5),
        max_duration: Some(-1),
        sort_by: SortBy::FileSize,
        ..RecordingQuery::default()
    };
    let s = search_recordings(&query).unwrap();
    assert_eq!(s.sql, format!("{} AND duration <= ?1 ORDER BY file_size DESC", BASE));
    assert_eq!(s.params, vec![SqlParam::Integer(-1)]);
    let query = RecordingQuery { limit: Some(-3), offset: None, sort_by: SortBy::Filename, ..RecordingQuery::default() };
    assert_eq!(search_recordings(&query).unwrap().sql, format!("{} ORDER BY filename DESC LIMIT -3", BASE));
    let query = RecordingQuery { sort_by: SortBy::UpdatedAt, sort_order: SortOrder::Asc, ..RecordingQuery::default() };
    assert!(search_recordings(&query).unwrap().sql.ends_with(" ORDER BY updated_at ASC LIMIT 50 OFFSET 0"));
}

#[test]
fn search_with_a_date_outside_the_calendar_is_refused() {
    let query = RecordingQuery { date_from: Some(i64::MAX), ..RecordingQuery::default() };
    assert_eq!(search_recordings(&query).unwrap_err().kind(), ErrorKind::ValidationError);
    let query = RecordingQuery { date_to: Some(i64::MIN), ..RecordingQuery::default() };
    assert_eq!(search_recordings(&query).unwrap_err().kind(), ErrorKind::ValidationError);
}

#[test]
fn all_tags_are_listed_once_and_in_order() {
    let rows = vec![
        r#"["work","会議","alpha"]"#.to_string(),
        r#"["alpha","Zeta"]"#.to_string(),
        "not json".to_string(),
        r#"["beta", 7]"#.to_string(),
        "[]".to_string(),
        r#"["work","a"]"#.to_string(),
    ];
    let tags = all_tags(&rows);
    assert_eq!(tags, vec!["Zeta", "a", "alpha", "work", "会議"]);
    let mut expected: Vec<String> = tags.clone();
    expected.sort();
    expected.dedup();
    assert_eq!(tags, expected);
    assert!(all_tags(&Vec::new()).is_empty());
}
