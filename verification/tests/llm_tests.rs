use meeting_summarizer::errors::{AppError, ErrorKind};
use meeting_summarizer::models::{LLMConfig, LLMProvider, SummaryStatus};
use meeting_summarizer::services::llm::LLMService;
use meeting_summarizer::services::whisper::HttpOutcome;

fn service(provider: LLMProvider) -> LLMService {
    LLMService::new(LLMConfig { provider, ..LLMConfig::default() })
}

fn answered(body: &str) -> HttpOutcome {
    HttpOutcome::Answered { success: true, body: body.to_string() }
}

fn strings(v: &[&str]) -> Vec<String> {
    v.iter().map(|s| s.to_string()).collect()
}

#[test]
fn prompt_holds_the_transcript_between_its_marks() {
    let prompt = LLMService::create_japanese_summary_prompt("今日の会議");
    assert!(prompt.starts_with("以下は会議や音声から書き起こしたテキストです。"));
    assert!(prompt.contains("---書き起こしテキスト---\n今日の会議\n---\n"));
    assert!(prompt.ends_with("上記のテキストを分析して、指定された形式で要約を作成してください。"));
    assert!(prompt.contains("## 要約\n"));
    assert!(prompt.contains("## 重要ポイント\n"));
    assert!(prompt.contains("## アクションアイテム\n"));
}

#[test]
fn structured_answer_is_read_by_section() {
    let answer = "## 要約\n会議では予算を確認した。\n次回は来週。\n\n## 重要ポイント\n- 予算は承認\n・人員は未定\n（補足）\nその他の点\n\n## アクションアイテム\n- - 田中: 見積もり\n---\n## メモ\n資料を送る\n";
    let (summary, key_points, action_items) = LLMService::parse_summary_response(answer);
    assert_eq!(summary, "会議では予算を確認した。 次回は来週。");
    assert_eq!(key_points, strings(&["予算は承認", "人員は未定", "その他の点"]));
    assert_eq!(action_items, strings(&["田中: 見積もり", "資料を送る"]));
}

#[test]
fn headings_are_found_anywhere_in_a_line() {
    let answer = "まず要約です\n本文\n次に重要ポイントを\n点A\nアクションアイテム:\n行動B";
    let (summary, key_points, action_items) = LLMService::parse_summary_response(answer);
    assert_eq!(summary, "本文");
    assert_eq!(key_points, strings(&["点A"]));
    assert_eq!(action_items, strings(&["行動B"]));
}

#[test]
fn text_before_any_heading_belongs_to_the_summary() {
    let (summary, key_points, action_items) = LLMService::parse_summary_response("  first line  \r\nsecond line");
    assert_eq!(summary, "first line second line");
    assert!(key_points.is_empty());
    assert!(action_items.is_empty());
}

#[test]
fn answer_without_content_is_the_summary_as_a_whole() {
    for answer in ["", "## 要約\n\n---\n", "\n\n", "## 重要ポイント\n（なし）"] {
        let (summary, key_points, action_items) = LLMService::parse_summary_response(answer);
        assert_eq!(summary, answer);
        assert!(key_points.is_empty());
        assert!(action_items.is_empty());
    }
}

#[test]
fn endpoints_follow_the_provider() {
    assert_eq!(service(LLMProvider::Ollama).generate_endpoint(), "http://localhost:11434/api/generate");
    assert_eq!(service(LLMProvider::Ollama).check_connection_endpoint(), "http://localhost:11434/api/tags");
    for provider in [LLMProvider::OpenAI, LLMProvider::GPT4All, LLMProvider::LMStudio, LLMProvider::Custom] {
        assert_eq!(service(provider).generate_endpoint(), "http://localhost:11434/v1/chat/completions");
        assert_eq!(service(provider).check_connection_endpoint(), "http://localhost:11434/v1/models");
    }
}

#[test]
fn answers_are_read_at_the_place_of_the_provider() {
    let ollama = service(LLMProvider::Ollama);
    assert_eq!(ollama.read_answer(&answered(r#"{"response": "要約です", "done": true}"#)), Ok("要約です".to_string()));
    assert_eq!(
        ollama.read_answer(&answered(r#"{"choices": []}"#)).unwrap_err().kind(),
        ErrorKind::ExecutionFailure
    );
    let openai = service(LLMProvider::OpenAI);
    let body = r#"{"choices": [{"message": {"role": "assistant", "content": "summary"}}]}"#;
    assert_eq!(openai.read_answer(&answered(body)), Ok("summary".to_string()));
    assert_eq!(
        openai.read_answer(&answered(r#"{"response": "x"}"#)).unwrap_err().kind(),
        ErrorKind::ExecutionFailure
    );
    assert_eq!(openai.read_answer(&HttpOutcome::TimedOut).unwrap_err().kind(), ErrorKind::ConnectivityError);
    assert_eq!(
        openai.read_answer(&HttpOutcome::Unreachable("refused".to_string())).unwrap_err().kind(),
        ErrorKind::ConnectivityError
    );
    let refused = HttpOutcome::Answered { success: false, body: "503".to_string() };
    assert_eq!(openai.read_answer(&refused).unwrap_err().kind(), ErrorKind::ExecutionFailure);
}

#[test]
fn connection_check_needs_an_answer_of_success() {
    assert_eq!(LLMService::check_connection(&answered("{}")), Ok(true));
    let down = HttpOutcome::Answered { success: false, body: String::new() };
    assert_eq!(LLMService::check_connection(&down), Ok(false));
    assert_eq!(LLMService::check_connection(&HttpOutcome::TimedOut), Ok(false));
    assert_eq!(LLMService::check_connection(&HttpOutcome::Unreachable("x".to_string())), Ok(false));
}

#[test]
fn summary_is_begun_and_completed() {
    let s = service(LLMProvider::Ollama);
    let (summary, prompt) = s.summarize_text("本文", "tr-1".to_string());
    assert_eq!(summary.transcription_id, "tr-1");
    assert_eq!(summary.model_used, "llama3.2:3b");
    assert_eq!(summary.status, SummaryStatus::Processing);
    assert_eq!(prompt, LLMService::create_japanese_summary_prompt("本文"));
    let done = LLMService::complete_summary(summary.clone(), Ok("## 要約\n短い\n## 重要ポイント\n- 点".to_string()), 77).unwrap();
    assert_eq!(done.id, summary.id);
    assert_eq!(done.status, SummaryStatus::Completed);
    assert_eq!(done.summary_text, "短い");
    assert_eq!(done.key_points, strings(&["点"]));
    assert!(done.action_items.is_empty());
    assert_eq!(done.processing_time_ms, Some(77));
}

#[test]
fn failed_summary_carries_the_reason() {
    let s = service(LLMProvider::Ollama);
    let (summary, _) = s.summarize_text("本文", "tr-1".to_string());
    let error = AppError::ConnectivityError { message: "no route".to_string() };
    let failed = LLMService::complete_summary(summary, Err(error), 5).unwrap();
    assert_eq!(failed.status, SummaryStatus::Failed("Connectivity error: no route".to_string()));
    assert_eq!(failed.processing_time_ms, None);
    assert_eq!(failed.summary_text, "");
}

#[test]
fn config_is_kept_and_replaced() {
    let mut s = service(LLMProvider::Ollama);
    assert_eq!(s.get_config().provider, LLMProvider::Ollama);
    let other = LLMConfig { provider: LLMProvider::Custom, timeout_seconds: 5, ..LLMConfig::default() };
    s.update_config(other.clone());
    assert_eq!(s.get_config(), &other);
}
