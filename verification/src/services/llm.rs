//! The summary of a transcript by a language model: the prompt, the places
//! to send it to, and the reading of what comes back.

use crate::errors::{AppError, AppResult};
use crate::models::{LLMConfig, LLMProvider, Summary, SummaryStatus};
use crate::platform::{json_string_at, read_json, JsonLeaf};
use crate::text::texts;
use crate::services::whisper::HttpOutcome;
use crate::text::{
    chars_of, contains_chars, contains_seq, extend_chars, join2, lines_of, matches_at,
    split_lines, starts_with_seq, string_of, strip_prefix_chars, trim_chars, trim_seq,
    without_prefix,
};
use vstd::prelude::*;

verus! {

/// The prompt up to the transcript.
pub const PROMPT_OPENING: &'static str = r#"以下は会議や音声から書き起こしたテキストです。このテキストを分析して、以下の形式で日本語で要約してください：

## 要約
（全体的な内容を3-5文で簡潔にまとめてください）

## 重要ポイント
- （重要な議論点や決定事項を箇条書きで）
- （最大5-8個程度）

## アクションアイテム
- （具体的な行動項目があれば箇条書きで）
- （担当者や期限が分かる場合は含める）

---書き起こしテキスト---
"#;

/// The prompt after the transcript.
pub const PROMPT_CLOSING: &'static str = r#"
---
上記のテキストを分析して、指定された形式で要約を作成してください。"#;

/// The word that opens the summary in an answer.
pub const SUMMARY_HEADING: &'static str = "要約";

/// The words that open the key points in an answer.
pub const KEY_POINTS_HEADING: &'static str = "重要ポイント";

/// The words that open the action items in an answer.
pub const ACTION_ITEMS_HEADING: &'static str = "アクションアイテム";

/// The part of an answer that a line belongs to.
#[derive(Debug, Clone, Copy, PartialEq, Eq, Structural)]
pub enum Section {
    Summary,
    KeyPoints,
    ActionItems,
}

/// What was read of an answer so far.
pub struct Reading {
    pub section: Section,
    pub summary: Seq<char>,
    pub key_points: Seq<Seq<char>>,
    pub action_items: Seq<Seq<char>>,
}

/// The prompt that asks for the summary of `text`.
pub open spec fn summary_prompt(text: Seq<char>) -> Seq<char> {
    PROMPT_OPENING@ + text + PROMPT_CLOSING@
}

/// The items after a line of a list was read: a line that begins with a
/// dash or a middle dot is an item without its marks; a line that begins
/// with a wide bracket is a hint and no item; any other line is an item.
pub open spec fn with_item(items: Seq<Seq<char>>, line: Seq<char>) -> Seq<Seq<char>> {
    if starts_with_seq(line, "- "@) || starts_with_seq(line, "・"@) {
        items.push(without_prefix(without_prefix(line, "- "@), "・"@))
    } else if !starts_with_seq(line, "（"@) {
        items.push(line)
    } else {
        items
    }
}

/// The reading after one more line. A line that holds a heading changes the
/// section. An empty line, a line that begins with `##` and one that begins
/// with `---` is passed over. Any other line, without the whitespace at its
/// ends, is added to the section: to the summary after a space, or to the
/// list as an item.
pub open spec fn read_line(r: Reading, raw: Seq<char>) -> Reading {
    let line = trim_seq(raw);
    if contains_seq(line, SUMMARY_HEADING@) {
        Reading { section: Section::Summary, ..r }
    } else if contains_seq(line, KEY_POINTS_HEADING@) {
        Reading { section: Section::KeyPoints, ..r }
    } else if contains_seq(line, ACTION_ITEMS_HEADING@) {
        Reading { section: Section::ActionItems, ..r }
    } else if line.len() == 0 || starts_with_seq(line, "##"@) || starts_with_seq(line, "---"@) {
        r
    } else {
        match r.section {
            Section::Summary => Reading {
                summary: if r.summary.len() == 0 {
                    line
                } else {
                    r.summary + seq![' '] + line
                },
                ..r
            },
            Section::KeyPoints => Reading { key_points: with_item(r.key_points, line), ..r },
            Section::ActionItems => Reading { action_items: with_item(r.action_items, line), ..r },
        }
    }
}

/// The reading after all of `lines`, begun in the summary.
pub open spec fn read_lines(lines: Seq<Seq<char>>) -> Reading
    decreases lines.len(),
{
    if lines.len() == 0 {
        Reading {
            section: Section::Summary,
            summary: Seq::empty(),
            key_points: Seq::empty(),
            action_items: Seq::empty(),
        }
    } else {
        read_line(read_lines(lines.drop_last()), lines.last())
    }
}

/// The summary, the key points and the action items that an answer holds.
/// An answer in which the reading finds nothing is the summary as a whole.
pub open spec fn summary_parts(response: Seq<char>) -> (Seq<char>, Seq<Seq<char>>, Seq<Seq<char>>) {
    let r = read_lines(lines_of(response));
    if r.summary.len() == 0 && r.key_points.len() == 0 && r.action_items.len() == 0 {
        (response, Seq::empty(), Seq::empty())
    } else {
        (r.summary, r.key_points, r.action_items)
    }
}

/// The address that a prompt is sent to.
pub open spec fn generate_url(config: LLMConfig) -> Seq<char> {
    match config.provider {
        LLMProvider::Ollama => config.base_url@ + "/api/generate"@,
        _ => config.base_url@ + "/v1/chat/completions"@,
    }
}

/// The address at which a provider says whether it is alive.
pub open spec fn connection_url(config: LLMConfig) -> Seq<char> {
    match config.provider {
        LLMProvider::Ollama => config.base_url@ + "/api/tags"@,
        _ => config.base_url@ + "/v1/models"@,
    }
}

/// Where the text stands in the answer of a provider.
pub open spec fn answer_pointer(provider: LLMProvider) -> Seq<char> {
    match provider {
        LLMProvider::Ollama => "/response"@,
        _ => "/choices/0/message/content"@,
    }
}

/// The text that the answer of a provider holds, or the class of the error
/// that the outcome stands for: a connectivity error where the provider was
/// not reached or did not answer in time; an execution failure where it
/// answered with an error, or with something that holds no text.
pub open spec fn answer_text(provider: LLMProvider, outcome: HttpOutcome) -> Result<
    Seq<char>,
    crate::errors::ErrorKind,
> {
    match outcome {
        HttpOutcome::Unreachable(_) => Err(crate::errors::ErrorKind::ConnectivityError),
        HttpOutcome::TimedOut => Err(crate::errors::ErrorKind::ConnectivityError),
        HttpOutcome::Answered { success, body } => if !success {
            Err(crate::errors::ErrorKind::ExecutionFailure)
        } else {
            match json_string_at(body@, answer_pointer(provider)) {
                Some(text) => Ok(text),
                None => Err(crate::errors::ErrorKind::ExecutionFailure),
            }
        },
    }
}

fn has(hay: &Vec<char>, needle: &str) -> (r: bool)
    ensures
        r == contains_seq(hay@, needle@),
{
    let n = chars_of(needle);
    contains_chars(hay, &n)
}

fn begins(hay: &Vec<char>, needle: &str) -> (r: bool)
    ensures
        r == starts_with_seq(hay@, needle@),
{
    let n = chars_of(needle);
    matches_at(hay, &n, 0)
}

fn add_item(items: &mut Vec<String>, line: &Vec<char>)
    ensures
        texts(final(items)@) == with_item(texts(old(items)@), line@),
{
    if begins(line, "- ") || begins(line, "・") {
        let dash = chars_of("- ");
        let dot = chars_of("・");
        let a = strip_prefix_chars(line, &dash);
        let b = strip_prefix_chars(&a, &dot);
        items.push(string_of(&b));
        assert(texts(items@) == texts(old(items)@).push(b@));
    } else if !begins(line, "（") {
        items.push(string_of(line));
        assert(texts(items@) == texts(old(items)@).push(line@));
    }
}

/// The service that asks a language model for summaries.
#[derive(Debug, Clone, PartialEq, Eq)]
pub struct LLMService {
    config: LLMConfig,
}

impl LLMService {
    /// The settings of the service.
    pub closed spec fn settings(&self) -> LLMConfig {
        self.config
    }

    /// A service with the given settings.
    pub fn new(config: LLMConfig) -> (s: Self)
        ensures
            s.settings() == config,
    {
        LLMService { config }
    }

    /// The settings of the service.
    pub fn get_config(&self) -> (c: &LLMConfig)
        ensures
            *c == self.settings(),
    {
        &self.config
    }

    /// Puts other settings in the place of those of the service.
    pub fn update_config(&mut self, new_config: LLMConfig)
        ensures
            final(self).settings() == new_config,
    {
        self.config = new_config;
    }

    /// The prompt that asks for the summary of `text`.
    pub fn create_japanese_summary_prompt(text: &str) -> (out: String)
        ensures
            out@ == summary_prompt(text@),
    {
        crate::text::join3(PROMPT_OPENING, text, PROMPT_CLOSING)
    }

    /// The address that a prompt is sent to.
    pub fn generate_endpoint(&self) -> (url: String)
        ensures
            url@ == generate_url(self.settings()),
    {
        match self.config.provider {
            LLMProvider::Ollama => join2(self.config.base_url.as_str(), "/api/generate"),
            _ => join2(self.config.base_url.as_str(), "/v1/chat/completions"),
        }
    }

    /// The address at which the provider says whether it is alive.
    pub fn check_connection_endpoint(&self) -> (url: String)
        ensures
            url@ == connection_url(self.settings()),
    {
        match self.config.provider {
            LLMProvider::Ollama => join2(self.config.base_url.as_str(), "/api/tags"),
            _ => join2(self.config.base_url.as_str(), "/v1/models"),
        }
    }

    /// Whether the provider is alive, by the outcome of the request to it:
    /// only an answer of success counts.
    pub fn check_connection(outcome: &HttpOutcome) -> (r: AppResult<bool>)
        ensures
            r matches Ok(alive) && alive == (*outcome matches HttpOutcome::Answered { success, .. }
                && success),
    {
        match outcome {
            HttpOutcome::Answered { success, .. } => Ok(*success),
            _ => Ok(false),
        }
    }

    /// Reads the outcome of a prompt, as `answer_text` says.
    pub fn read_answer(&self, outcome: &HttpOutcome) -> (r: AppResult<String>)
        ensures
            crate::services::whisper::agrees(r, answer_text(self.settings().provider, *outcome)),
    {
        match outcome {
            HttpOutcome::Unreachable(reason) => Err(
                AppError::ConnectivityError {
                    message: join2("Failed to connect to the language model: ", reason.as_str()),
                },
            ),
            HttpOutcome::TimedOut => Err(
                AppError::ConnectivityError {
                    message: "The request to the language model timed out".to_owned(),
                },
            ),
            HttpOutcome::Answered { success, body } => {
                if !*success {
                    return Err(
                        AppError::ExecutionFailure {
                            message: join2("The language model answered with an error: ", body.as_str()),
                        },
                    );
                }
                let pointer: &str = match self.config.provider {
                    LLMProvider::Ollama => "/response",
                    _ => "/choices/0/message/content",
                };
                match read_json(body.as_str(), pointer) {
                    JsonLeaf::Text(text) => Ok(text),
                    _ => Err(
                        AppError::ExecutionFailure {
                            message: "Invalid response format from the language model".to_owned(),
                        },
                    ),
                }
            },
        }
    }

    /// The summary, the key points and the action items that an answer
    /// holds, as `summary_parts` says.
    pub fn parse_summary_response(response: &str) -> (out: (String, Vec<String>, Vec<String>))
        ensures
            out.0@ == summary_parts(response@).0,
            texts(out.1@) == summary_parts(response@).1,
            texts(out.2@) == summary_parts(response@).2,
    {
        let all = chars_of(response);
        let lines = split_lines(&all);
        let mut section = Section::Summary;
        let mut summary: Vec<char> = Vec::new();
        let mut key_points: Vec<String> = Vec::new();
        let mut action_items: Vec<String> = Vec::new();
        let mut i: usize = 0;
        assert(lines_of(response@).take(0) == Seq::<Seq<char>>::empty());
        assert(texts(key_points@) == Seq::<Seq<char>>::empty());
        assert(texts(action_items@) == Seq::<Seq<char>>::empty());
        while i < lines.len()
            invariant
                i <= lines.len(),
                all@ == response@,
                lines@.len() == lines_of(response@).len(),
                forall|k: int|
                    0 <= k < lines@.len() ==> (#[trigger] lines@[k])@ == lines_of(response@)[k],
                read_lines(lines_of(response@).take(i as int)) == (Reading {
                    section,
                    summary: summary@,
                    key_points: texts(key_points@),
                    action_items: texts(action_items@),
                }),
            decreases lines.len() - i,
        {
            proof {
                let next = lines_of(response@).take(i + 1);
                assert(next.drop_last() == lines_of(response@).take(i as int));
                assert(next.last() == lines@[i as int]@);
            }
            let line = trim_chars(&lines[i]);
            if has(&line, SUMMARY_HEADING) {
                section = Section::Summary;
            } else if has(&line, KEY_POINTS_HEADING) {
                section = Section::KeyPoints;
            } else if has(&line, ACTION_ITEMS_HEADING) {
                section = Section::ActionItems;
            } else if line.len() == 0 || begins(&line, "##") || begins(&line, "---") {
            } else {
                match section {
                    Section::Summary => {
                        let ghost before = summary@;
                        if summary.len() > 0 {
                            summary.push(' ');
                        }
                        extend_chars(&mut summary, &line);
                        assert(summary@ == (if before.len() == 0 {
                            line@
                        } else {
                            before + seq![' '] + line@
                        }));
                    },
                    Section::KeyPoints => {
                        add_item(&mut key_points, &line);
                    },
                    Section::ActionItems => {
                        add_item(&mut action_items, &line);
                    },
                }
            }
            i = i + 1;
        }
        assert(lines_of(response@).take(lines.len() as int) == lines_of(response@));
        assert(texts(key_points@).len() == key_points@.len());
        assert(texts(action_items@).len() == action_items@.len());
        if summary.len() == 0 && key_points.len() == 0 && action_items.len() == 0 {
            (response.to_owned(), key_points, action_items)
        } else {
            (string_of(&summary), key_points, action_items)
        }
    }

    /// Begins the summary of a transcript: a summary that is being worked on,
    /// by the model of the settings, and the prompt to send.
    pub fn summarize_text(&self, transcription_text: &str, transcription_id: String) -> (out: (
        Summary,
        String,
    ))
        ensures
            out.0.transcription_id == transcription_id,
            out.0.model_used@ == self.settings().model_name@,
            out.0.status is Processing,
            out.0.summary_text@.len() == 0,
            out.0.key_points@.len() == 0,
            out.0.action_items@.len() == 0,
            out.0.processing_time_ms is None,
            out.0.id@.len() == 36,
            out.1@ == summary_prompt(transcription_text@),
    {
        let summary = Summary::new(transcription_id, self.config.model_name.clone()).set_processing();
        let prompt = LLMService::create_japanese_summary_prompt(transcription_text);
        (summary, prompt)
    }

    /// Ends the summary with what the model gave, after `processing_time_ms`.
    ///
    /// An answer completes the summary with the parts that it holds and the
    /// time taken. An error ends the summary in failure, with the
    /// description of the error as the reason. Either way a summary comes
    /// back, never an error.
    pub fn complete_summary(summary: Summary, answer: AppResult<String>, processing_time_ms: u64) -> (r:
        AppResult<Summary>)
        ensures
            r matches Ok(s) && s.id == summary.id && s.transcription_id
                == summary.transcription_id && s.model_used == summary.model_used && s.created_at
                == summary.created_at && (match answer {
                Ok(text) => {
                    &&& s.status is Completed
                    &&& s.summary_text@ == summary_parts(text@).0
                    &&& texts(s.key_points@) == summary_parts(text@).1
                    &&& texts(s.action_items@) == summary_parts(text@).2
                    &&& s.processing_time_ms == Some(processing_time_ms)
                },
                Err(e) => {
                    &&& s.status matches SummaryStatus::Failed(reason)
                    &&& reason@ == e.spec_description()
                    &&& s.summary_text == summary.summary_text
                    &&& s.key_points == summary.key_points
                    &&& s.action_items == summary.action_items
                    &&& s.processing_time_ms == summary.processing_time_ms
                },
            }),
    {
        match answer {
            Ok(text) => {
                let parts = LLMService::parse_summary_response(text.as_str());
                Ok(
                    summary.with_content(parts.0, parts.1, parts.2).with_processing_time(
                        processing_time_ms,
                    ),
                )
            },
            Err(e) => Ok(summary.with_error(e.to_string())),
        }
    }
}

} // verus!
