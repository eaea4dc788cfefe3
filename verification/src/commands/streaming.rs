//! The course of a summary that reports its progress: what to announce and
//! what to do after each step.

use crate::errors::AppResult;
use crate::models::{LLMConfig, Summary};
use crate::text::join2;
use vstd::prelude::*;

verus! {

/// One announcement of progress.
#[derive(Debug, Clone, PartialEq, Eq)]
pub struct SummarizationProgress {
    pub stage: String,
    pub message: String,
    /// In thousandths of the whole.
    pub progress: u16,
    pub summary_id: Option<String>,
    pub completed: bool,
    pub error: Option<String>,
}

/// What the caller does after a step.
#[derive(Debug, Clone, PartialEq, Eq)]
pub enum NextStep {
    /// Ask the provider whether it is alive.
    CheckConnection,
    /// Send the prompt and wait for the answer.
    Summarize,
    /// Store the summary.
    Save(Summary),
    /// Hand the summary to the user.
    Succeed(Summary),
    /// Hand the message to the user.
    Fail(String),
}

/// One step of the course: what to announce, in order, and what to do then.
#[derive(Debug, Clone, PartialEq, Eq)]
pub struct SummarizationStep {
    pub announcements: Vec<SummarizationProgress>,
    pub next: NextStep,
}

/// The text of an optional string.
pub open spec fn optional_text(s: Option<String>) -> Option<Seq<char>> {
    match s {
        Some(t) => Some(t@),
        None => None,
    }
}

/// The announcement `p` says that the course stands at `stage` with
/// `message`, at `progress` thousandths, for the summary `summary_id`, and is
/// not at its end.
pub open spec fn announces(
    p: SummarizationProgress,
    stage: Seq<char>,
    message: Seq<char>,
    progress: u16,
    summary_id: Option<Seq<char>>,
) -> bool {
    &&& p.stage@ == stage
    &&& p.message@ == message
    &&& p.progress == progress
    &&& optional_text(p.summary_id) == summary_id
    &&& !p.completed
    &&& p.error is None
}

/// The announcement `p` says that the course failed with `message`, at
/// `progress` thousandths, for the summary `summary_id`.
pub open spec fn announces_failure(
    p: SummarizationProgress,
    message: Seq<char>,
    progress: u16,
    summary_id: Option<Seq<char>>,
) -> bool {
    &&& p.stage@ == "error"@
    &&& p.message@ == message
    &&& p.progress == progress
    &&& optional_text(p.summary_id) == summary_id
    &&& !p.completed
    &&& optional_text(p.error) == Some(message)
}

fn announce(stage: &str, message: String, progress: u16, summary_id: Option<String>) -> (p:
    SummarizationProgress)
    ensures
        announces(p, stage@, message@, progress, optional_text(summary_id)),
{
    SummarizationProgress {
        stage: stage.to_owned(),
        message,
        progress,
        summary_id,
        completed: false,
        error: None,
    }
}

fn announce_failure(message: &str, progress: u16, summary_id: Option<String>) -> (p:
    SummarizationProgress)
    ensures
        announces_failure(p, message@, progress, optional_text(summary_id)),
{
    SummarizationProgress {
        stage: "error".to_owned(),
        message: message.to_owned(),
        progress,
        summary_id,
        completed: false,
        error: Some(message.to_owned()),
    }
}

fn one(p: SummarizationProgress) -> (v: Vec<SummarizationProgress>)
    ensures
        v@ == seq![p],
{
    let mut v: Vec<SummarizationProgress> = Vec::new();
    v.push(p);
    v
}

/// The first step: announce that the connection is being set up, at a tenth,
/// and check the connection.
pub fn generate_summary_with_progress() -> (step: SummarizationStep)
    ensures
        step.next == NextStep::CheckConnection,
        step.announcements@.len() == 1,
        announces(step.announcements@[0], "initializing"@, "LLM接続を初期化中..."@, 100, None),
{
    SummarizationStep {
        announcements: one(announce("initializing", "LLM接続を初期化中...".to_owned(), 100, None)),
        next: NextStep::CheckConnection,
    }
}

/// The step after the connection was checked.
///
/// A provider that is alive is announced as connected, at two tenths, then
/// the work is announced, at three tenths, and the prompt is sent. A
/// provider that is not alive, and a check that failed, is announced as a
/// failure at nothing, and the course ends with the same message.
pub fn after_connection_check(config: &LLMConfig, check: AppResult<bool>) -> (step:
    SummarizationStep)
    ensures
        match check {
            Ok(true) => {
                &&& step.next == NextStep::Summarize
                &&& step.announcements@.len() == 2
                &&& announces(
                    step.announcements@[0],
                    "connected"@,
                    config.model_name@ + "に接続済み"@,
                    200,
                    None,
                )
                &&& announces(
                    step.announcements@[1],
                    "processing"@,
                    config.model_name@ + "で要約を生成中..."@,
                    300,
                    None,
                )
            },
            Ok(false) => {
                &&& step.next matches NextStep::Fail(m)
                &&& m@ == "LLMサーバーに接続できません: "@ + config.base_url@
                &&& step.announcements@.len() == 1
                &&& announces_failure(step.announcements@[0], m@, 0, None)
            },
            Err(e) => {
                &&& step.next matches NextStep::Fail(m)
                &&& m@ == "接続チェック中にエラー: "@ + e.spec_description()
                &&& step.announcements@.len() == 1
                &&& announces_failure(step.announcements@[0], m@, 0, None)
            },
        },
{
    match check {
        Ok(true) => {
            let mut announcements: Vec<SummarizationProgress> = Vec::new();
            announcements.push(
                announce("connected", join2(config.model_name.as_str(), "に接続済み"), 200, None),
            );
            announcements.push(
                announce(
                    "processing",
                    join2(config.model_name.as_str(), "で要約を生成中..."),
                    300,
                    None,
                ),
            );
            SummarizationStep { announcements, next: NextStep::Summarize }
        },
        Ok(false) => {
            let message = join2("LLMサーバーに接続できません: ", config.base_url.as_str());
            SummarizationStep {
                announcements: one(announce_failure(message.as_str(), 0, None)),
                next: NextStep::Fail(message),
            }
        },
        Err(e) => {
            let message = join2("接続チェック中にエラー: ", e.to_string().as_str());
            SummarizationStep {
                announcements: one(announce_failure(message.as_str(), 0, None)),
                next: NextStep::Fail(message),
            }
        },
    }
}

/// The step after the model answered.
///
/// A summary is announced as being stored, at eight tenths, and stored. An
/// error is announced as a failure at three tenths, and the course ends with
/// the same message.
pub fn after_summary(result: AppResult<Summary>) -> (step: SummarizationStep)
    ensures
        step.announcements@.len() == 1,
        match result {
            Ok(summary) => {
                &&& step.next == NextStep::Save(summary)
                &&& announces(
                    step.announcements@[0],
                    "saving"@,
                    "要約をデータベースに保存中..."@,
                    800,
                    Some(summary.id@),
                )
            },
            Err(e) => {
                &&& step.next matches NextStep::Fail(m)
                &&& m@ == "要約生成エラー: "@ + e.spec_description()
                &&& announces_failure(step.announcements@[0], m@, 300, None)
            },
        },
{
    match result {
        Ok(summary) => {
            let id = summary.id.clone();
            SummarizationStep {
                announcements: one(
                    announce("saving", "要約をデータベースに保存中...".to_owned(), 800, Some(id)),
                ),
                next: NextStep::Save(summary),
            }
        },
        Err(e) => {
            let message = join2("要約生成エラー: ", e.to_string().as_str());
            SummarizationStep {
                announcements: one(announce_failure(message.as_str(), 300, None)),
                next: NextStep::Fail(message),
            }
        },
    }
}

/// The step after the summary was stored.
///
/// A stored summary is announced as done, at the whole, and handed to the
/// user. A failure of the store is announced as a failure at eight tenths,
/// and the course ends with the same message.
pub fn after_save(summary: Summary, outcome: AppResult<()>) -> (step: SummarizationStep)
    ensures
        step.announcements@.len() == 1,
        match outcome {
            Ok(_) => {
                let p = step.announcements@[0];
                &&& step.next == NextStep::Succeed(summary)
                &&& p.stage@ == "completed"@
                &&& p.message@ == "要約の生成が完了しました"@
                &&& p.progress == 1000
                &&& optional_text(p.summary_id) == Some(summary.id@)
                &&& p.completed
                &&& p.error is None
            },
            Err(e) => {
                &&& step.next matches NextStep::Fail(m)
                &&& m@ == "データベース保存エラー: "@ + e.spec_description()
                &&& announces_failure(step.announcements@[0], m@, 800, Some(summary.id@))
            },
        },
{
    match outcome {
        Ok(()) => {
            let done = SummarizationProgress {
                stage: "completed".to_owned(),
                message: "要約の生成が完了しました".to_owned(),
                progress: 1000,
                summary_id: Some(summary.id.clone()),
                completed: true,
                error: None,
            };
            SummarizationStep { announcements: one(done), next: NextStep::Succeed(summary) }
        },
        Err(e) => {
            let message = join2("データベース保存エラー: ", e.to_string().as_str());
            let id = summary.id.clone();
            SummarizationStep {
                announcements: one(announce_failure(message.as_str(), 800, Some(id))),
                next: NextStep::Fail(message),
            }
        },
    }
}

/// The announcement that the user called the summary off.
pub fn cancel_summarization(summary_id: Option<String>) -> (p: SummarizationProgress)
    ensures
        p.stage@ == "cancelled"@,
        p.message@ == "要約生成がキャンセルされました"@,
        p.progress == 0,
        p.summary_id == summary_id,
        !p.completed,
        optional_text(p.error) == Some("User cancelled"@),
{
    SummarizationProgress {
        stage: "cancelled".to_owned(),
        message: "要約生成がキャンセルされました".to_owned(),
        progress: 0,
        summary_id,
        completed: false,
        error: Some("User cancelled".to_owned()),
    }
}

/// What is known of a summary of which nothing is known.
pub fn get_summarization_status(summary_id: String) -> (r: Result<SummarizationProgress, String>)
    ensures
        r matches Ok(p) && announces(p, "unknown"@, "ステータス不明"@, 0, Some(summary_id@)),
{
    Ok(announce("unknown", "ステータス不明".to_owned(), 0, Some(summary_id)))
}

} // verus!
