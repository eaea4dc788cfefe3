//! The records of the application: recordings, sessions, transcriptions,
//! summaries and the settings of a language model.
//!
//! Instants are milliseconds since the Unix epoch. Fractions are held as
//! whole numbers: a confidence in thousandths, a temperature in thousandths.

use crate::platform::{fresh_id, now_millis};
use vstd::prelude::*;

verus! {

/// The instant that the clock shows, in milliseconds since the Unix epoch;
/// the epoch itself where the clock stands before it.
pub fn clock_millis() -> (millis: i64)
    ensures
        millis >= 0,
{
    match now_millis() {
        Some(millis) => millis,
        None => 0,
    }
}


/// A finished recording on disk.
#[derive(Debug, Clone, PartialEq, Eq)]
pub struct Recording {
    pub id: String,
    pub filename: String,
    pub file_path: String,
    pub title: Option<String>,
    pub description: Option<String>,
    pub category: Option<String>,
    pub tags: Vec<String>,
    /// Length in whole seconds.
    pub duration: Option<i64>,
    /// Size in bytes.
    pub file_size: Option<i64>,
    pub sample_rate: Option<i32>,
    pub channels: Option<i32>,
    pub created_at: i64,
    pub updated_at: i64,
}

/// Whether `tag` is one of `tags`.
pub open spec fn has_tag(tags: Seq<String>, tag: Seq<char>) -> bool {
    exists|i: int| 0 <= i < tags.len() && (#[trigger] tags[i])@ == tag
}

impl Recording {
    /// A recording with the given identifier and creation time, and nothing
    /// else known of it.
    pub fn with_identity(id: String, filename: String, file_path: String, now: i64) -> (r: Self)
        ensures
            r.id == id,
            r.filename == filename,
            r.file_path == file_path,
            r.title is None,
            r.description is None,
            r.category is None,
            r.tags@.len() == 0,
            r.duration is None,
            r.file_size is None,
            r.sample_rate is None,
            r.channels is None,
            r.created_at == now,
            r.updated_at == now,
    {
        Recording {
            id,
            filename,
            file_path,
            title: None,
            description: None,
            category: None,
            tags: Vec::new(),
            duration: None,
            file_size: None,
            sample_rate: None,
            channels: None,
            created_at: now,
            updated_at: now,
        }
    }

    /// A recording of the given file, with a fresh identifier, created now.
    pub fn new(filename: String, file_path: String) -> (r: Self)
        ensures
            r.id@.len() == 36,
            r.filename == filename,
            r.file_path == file_path,
            r.title is None,
            r.description is None,
            r.category is None,
            r.tags@.len() == 0,
            r.duration is None,
            r.file_size is None,
            r.sample_rate is None,
            r.channels is None,
            r.created_at == r.updated_at,
            r.created_at >= 0,
    {
        Recording::with_identity(fresh_id(), filename, file_path, clock_millis())
    }

    /// The same recording with a title; the time of the update is read from
    /// the clock.
    pub fn with_title(self, title: String) -> (r: Self)
        ensures
            r == (Recording { title: Some(title), updated_at: r.updated_at, ..self }),
            r.updated_at >= 0,
    {
        let mut r = self;
        r.title = Some(title);
        r.updated_at = clock_millis();
        r
    }

    /// The same recording with a description.
    pub fn with_description(self, description: String) -> (r: Self)
        ensures
            r == (Recording { description: Some(description), updated_at: r.updated_at, ..self }),
            r.updated_at >= 0,
    {
        let mut r = self;
        r.description = Some(description);
        r.updated_at = clock_millis();
        r
    }

    /// The same recording with a category.
    pub fn with_category(self, category: String) -> (r: Self)
        ensures
            r == (Recording { category: Some(category), updated_at: r.updated_at, ..self }),
            r.updated_at >= 0,
    {
        let mut r = self;
        r.category = Some(category);
        r.updated_at = clock_millis();
        r
    }

    /// The same recording with its tags replaced.
    pub fn with_tags(self, tags: Vec<String>) -> (r: Self)
        ensures
            r == (Recording { tags: tags, updated_at: r.updated_at, ..self }),
            r.updated_at >= 0,
    {
        let mut r = self;
        r.tags = tags;
        r.updated_at = clock_millis();
        r
    }

    /// The same recording with `tag` added at the end of its tags. Where the
    /// recording has the tag already, nothing changes, the time of the last
    /// update included.
    pub fn add_tag(self, tag: String) -> (r: Self)
        ensures
            has_tag(self.tags@, tag@) ==> r == self,
            !has_tag(self.tags@, tag@) ==> r.tags@ == self.tags@.push(tag) && r.updated_at >= 0
                && r == (Recording { tags: r.tags, updated_at: r.updated_at, ..self }),
    {
        let mut r = self;
        let mut i: usize = 0;
        while i < r.tags.len()
            invariant
                i <= r.tags.len(),
                r == self,
                forall|k: int| 0 <= k < i ==> (#[trigger] r.tags@[k])@ != tag@,
            decreases r.tags.len() - i,
        {
            if r.tags[i] == tag {
                return r;
            }
            i = i + 1;
        }
        r.tags.push(tag);
        r.updated_at = clock_millis();
        r
    }

    /// The same recording with its length in seconds.
    pub fn with_duration(self, duration: i64) -> (r: Self)
        ensures
            r == (Recording { duration: Some(duration), updated_at: r.updated_at, ..self }),
            r.updated_at >= 0,
    {
        let mut r = self;
        r.duration = Some(duration);
        r.updated_at = clock_millis();
        r
    }

    /// The same recording with its size in bytes.
    pub fn with_file_size(self, file_size: i64) -> (r: Self)
        ensures
            r == (Recording { file_size: Some(file_size), updated_at: r.updated_at, ..self }),
            r.updated_at >= 0,
    {
        let mut r = self;
        r.file_size = Some(file_size);
        r.updated_at = clock_millis();
        r
    }

    /// The same recording with its sample rate and channel count.
    pub fn with_audio_info(self, sample_rate: i32, channels: i32) -> (r: Self)
        ensures
            r == (Recording {
                sample_rate: Some(sample_rate),
                channels: Some(channels),
                updated_at: r.updated_at,
                ..self
            }),
            r.updated_at >= 0,
    {
        let mut r = self;
        r.sample_rate = Some(sample_rate);
        r.channels = Some(channels);
        r.updated_at = clock_millis();
        r
    }
}

/// The column by which a list of recordings is ordered.
#[derive(Debug, Clone, Copy, PartialEq, Eq, Structural)]
pub enum SortBy {
    CreatedAt,
    UpdatedAt,
    Filename,
    Duration,
    FileSize,
}

/// The direction of an ordering.
#[derive(Debug, Clone, Copy, PartialEq, Eq, Structural)]
pub enum SortOrder {
    Asc,
    Desc,
}

/// A search over recordings.
#[derive(Debug, Clone, PartialEq, Eq)]
pub struct RecordingQuery {
    pub search_text: Option<String>,
    pub category: Option<String>,
    pub tags: Vec<String>,
    pub date_from: Option<i64>,
    pub date_to: Option<i64>,
    pub min_duration: Option<i64>,
    pub max_duration: Option<i64>,
    pub limit: Option<i32>,
    pub offset: Option<i32>,
    pub sort_by: SortBy,
    pub sort_order: SortOrder,
}

impl Default for RecordingQuery {
    /// The search that finds the 50 newest recordings.
    fn default() -> (q: Self)
        ensures
            q.search_text is None,
            q.category is None,
            q.tags@.len() == 0,
            q.date_from is None,
            q.date_to is None,
            q.min_duration is None,
            q.max_duration is None,
            q.limit == Some(50i32),
            q.offset == Some(0i32),
            q.sort_by == SortBy::CreatedAt,
            q.sort_order == SortOrder::Desc,
    {
        RecordingQuery {
            search_text: None,
            category: None,
            tags: Vec::new(),
            date_from: None,
            date_to: None,
            min_duration: None,
            max_duration: None,
            limit: Some(50),
            offset: Some(0),
            sort_by: SortBy::CreatedAt,
            sort_order: SortOrder::Desc,
        }
    }
}

/// Totals over all recordings.
#[derive(Debug, Clone, PartialEq, Eq)]
pub struct RecordingStats {
    pub total_count: i64,
    pub total_duration: i64,
    pub total_size: i64,
    pub categories: Vec<CategoryStats>,
    pub recent_count: i64,
}

/// Totals over the recordings of one category.
#[derive(Debug, Clone, PartialEq, Eq)]
pub struct CategoryStats {
    pub name: String,
    pub count: i64,
    pub total_duration: i64,
}

/// A recording in progress. It lives in memory only, from start to stop.
#[derive(Debug, Clone, PartialEq, Eq)]
pub struct RecordingSession {
    pub id: String,
    pub start_time: i64,
    pub temp_file_path: String,
    pub is_active: bool,
}

impl RecordingSession {
    /// An active session with the given identifier and start time.
    pub fn with_identity(id: String, temp_file_path: String, start_time: i64) -> (s: Self)
        ensures
            s.id == id,
            s.temp_file_path == temp_file_path,
            s.start_time == start_time,
            s.is_active,
    {
        RecordingSession { id, start_time, temp_file_path, is_active: true }
    }

    /// An active session with a fresh identifier, started now.
    pub fn new(temp_file_path: String) -> (s: Self)
        ensures
            s.id@.len() == 36,
            s.temp_file_path == temp_file_path,
            s.start_time >= 0,
            s.is_active,
    {
        RecordingSession::with_identity(fresh_id(), temp_file_path, clock_millis())
    }

    /// The same session, no longer active.
    pub fn stop(self) -> (s: Self)
        ensures
            s == (RecordingSession { is_active: false, ..self }),
    {
        let mut s = self;
        s.is_active = false;
        s
    }
}

/// Where a transcription stands.
#[derive(Debug, Clone, PartialEq, Eq)]
pub enum TranscriptionStatus {
    Pending,
    Processing,
    Completed,
    Failed(String),
}

impl TranscriptionStatus {
    /// A transcription that is completed or has failed is at its end.
    pub open spec fn spec_is_terminal(&self) -> bool {
        self is Completed || self is Failed
    }

    /// A transcription that is completed or has failed is at its end.
    #[verifier::when_used_as_spec(spec_is_terminal)]
    pub fn is_terminal(&self) -> (b: bool)
        ensures
            b == self.spec_is_terminal(),
    {
        match self {
            TranscriptionStatus::Completed => true,
            TranscriptionStatus::Failed(_) => true,
            _ => false,
        }
    }
}

/// The status of a transcription that stands at `current` and is asked to
/// move to `requested`: a transcription at its end stays where it is.
pub open spec fn status_after(
    current: TranscriptionStatus,
    requested: TranscriptionStatus,
) -> TranscriptionStatus {
    if current.spec_is_terminal() {
        current
    } else {
        requested
    }
}

/// A transcription that is completed or has failed never changes its status
/// again, whatever it is asked to move to.
pub proof fn law_terminal_status_is_final(
    current: TranscriptionStatus,
    requested: TranscriptionStatus,
)
    requires
        current.spec_is_terminal(),
    ensures
        status_after(current, requested) == current,
        status_after(current, requested).spec_is_terminal(),
{
}

/// The largest confidence: one, in thousandths.
pub const FULL_CONFIDENCE: u16 = 1000;

/// A confidence cut down to the largest one.
pub open spec fn clamp_confidence(c: Option<u16>) -> Option<u16> {
    match c {
        Some(v) => Some(if v > FULL_CONFIDENCE {
            FULL_CONFIDENCE
        } else {
            v
        }),
        None => None,
    }
}

/// The text of a recording, as a recognition engine heard it.
#[derive(Debug, Clone, PartialEq, Eq)]
pub struct Transcription {
    pub id: String,
    pub recording_id: String,
    pub text: String,
    pub language: String,
    /// In thousandths, from 0 to 1000.
    pub confidence: Option<u16>,
    pub processing_time_ms: Option<u64>,
    pub status: TranscriptionStatus,
    pub created_at: i64,
    pub updated_at: i64,
}

impl Transcription {
    /// The confidence, where there is one, is at most one.
    pub open spec fn wf(&self) -> bool {
        self.confidence matches Some(c) ==> c <= FULL_CONFIDENCE
    }

    /// A pending transcription with the given identifier and creation time.
    pub fn with_identity(
        id: String,
        recording_id: String,
        text: String,
        language: String,
        now: i64,
    ) -> (t: Self)
        ensures
            t.id == id,
            t.recording_id == recording_id,
            t.text == text,
            t.language == language,
            t.confidence is None,
            t.processing_time_ms is None,
            t.status is Pending,
            t.created_at == now,
            t.updated_at == now,
            t.wf(),
    {
        Transcription {
            id,
            recording_id,
            text,
            language,
            confidence: None,
            processing_time_ms: None,
            status: TranscriptionStatus::Pending,
            created_at: now,
            updated_at: now,
        }
    }

    /// A pending transcription with a fresh identifier, created now.
    pub fn new(recording_id: String, text: String, language: String) -> (t: Self)
        ensures
            t.id@.len() == 36,
            t.recording_id == recording_id,
            t.text == text,
            t.language == language,
            t.confidence is None,
            t.processing_time_ms is None,
            t.status is Pending,
            t.created_at == t.updated_at,
            t.wf(),
    {
        Transcription::with_identity(fresh_id(), recording_id, text, language, clock_millis())
    }

    /// A pending transcription without text.
    pub fn new_empty(recording_id: String, language: String) -> (t: Self)
        ensures
            t.id@.len() == 36,
            t.recording_id == recording_id,
            t.text@.len() == 0,
            t.language == language,
            t.confidence is None,
            t.processing_time_ms is None,
            t.status is Pending,
            t.created_at == t.updated_at,
            t.wf(),
    {
        Transcription::with_identity(fresh_id(), recording_id, String::new(), language, clock_millis())
    }

    /// Completes the transcription with its text and confidence, the
    /// confidence cut down to one. A transcription at its end is returned as
    /// it is.
    pub fn with_text(self, text: String, confidence: Option<u16>) -> (t: Self)
        ensures
            self.status.is_terminal() ==> t == self,
            !self.status.is_terminal() ==> t == (Transcription {
                text: text,
                confidence: clamp_confidence(confidence),
                status: TranscriptionStatus::Completed,
                updated_at: t.updated_at,
                ..self
            }),
            t.status == status_after(self.status, TranscriptionStatus::Completed),
            self.wf() ==> t.wf(),
    {
        let mut t = self;
        if t.status.is_terminal() {
            return t;
        }
        t.text = text;
        t.confidence = clamp(confidence);
        t.status = TranscriptionStatus::Completed;
        t.updated_at = clock_millis();
        t
    }

    /// Ends the transcription in failure, with the reason. A transcription at
    /// its end is returned as it is.
    pub fn with_error(self, error: String) -> (t: Self)
        ensures
            self.status.is_terminal() ==> t == self,
            !self.status.is_terminal() ==> t == (Transcription {
                status: TranscriptionStatus::Failed(error),
                updated_at: t.updated_at,
                ..self
            }),
            t.status == status_after(self.status, TranscriptionStatus::Failed(error)),
    {
        let mut t = self;
        if t.status.is_terminal() {
            return t;
        }
        t.status = TranscriptionStatus::Failed(error);
        t.updated_at = clock_millis();
        t
    }

    /// Marks the transcription as being worked on. A transcription at its end
    /// is returned as it is.
    pub fn set_processing(self) -> (t: Self)
        ensures
            self.status.is_terminal() ==> t == self,
            !self.status.is_terminal() ==> t == (Transcription {
                status: TranscriptionStatus::Processing,
                updated_at: t.updated_at,
                ..self
            }),
            t.status == status_after(self.status, TranscriptionStatus::Processing),
    {
        let mut t = self;
        if t.status.is_terminal() {
            return t;
        }
        t.status = TranscriptionStatus::Processing;
        t.updated_at = clock_millis();
        t
    }

    /// Records how long the engine took, in milliseconds.
    pub fn set_processing_time(self, time_ms: u64) -> (t: Self)
        ensures
            t == (Transcription {
                processing_time_ms: Some(time_ms),
                updated_at: t.updated_at,
                ..self
            }),
    {
        let mut t = self;
        t.processing_time_ms = Some(time_ms);
        t.updated_at = clock_millis();
        t
    }

    /// Sets the confidence, cut down to one.
    pub fn with_confidence(self, confidence: Option<u16>) -> (t: Self)
        ensures
            t == (Transcription {
                confidence: clamp_confidence(confidence),
                updated_at: t.updated_at,
                ..self
            }),
            t.wf(),
    {
        let mut t = self;
        t.confidence = clamp(confidence);
        t.updated_at = clock_millis();
        t
    }

    /// Sets or clears the processing time.
    pub fn with_processing_time(self, time_ms: Option<u64>) -> (t: Self)
        ensures
            t == (Transcription { processing_time_ms: time_ms, updated_at: t.updated_at, ..self }),
    {
        let mut t = self;
        t.processing_time_ms = time_ms;
        t.updated_at = clock_millis();
        t
    }

    /// Moves the transcription to `status`. A transcription at its end is
    /// returned as it is.
    pub fn with_status(self, status: TranscriptionStatus) -> (t: Self)
        ensures
            self.status.is_terminal() ==> t == self,
            !self.status.is_terminal() ==> t == (Transcription {
                status: status,
                updated_at: t.updated_at,
                ..self
            }),
            t.status == status_after(self.status, status),
    {
        let mut t = self;
        if t.status.is_terminal() {
            return t;
        }
        t.status = status;
        t.updated_at = clock_millis();
        t
    }
}

fn clamp(c: Option<u16>) -> (out: Option<u16>)
    ensures
        out == clamp_confidence(c),
{
    match c {
        Some(v) => Some(if v > FULL_CONFIDENCE {
            FULL_CONFIDENCE
        } else {
            v
        }),
        None => None,
    }
}

/// Where a summary stands.
#[derive(Debug, Clone, PartialEq, Eq)]
pub enum SummaryStatus {
    Pending,
    Processing,
    Completed,
    Failed(String),
}

/// The summary of a transcription, as a language model wrote it.
#[derive(Debug, Clone, PartialEq, Eq)]
pub struct Summary {
    pub id: String,
    pub transcription_id: String,
    pub summary_text: String,
    pub key_points: Vec<String>,
    pub action_items: Vec<String>,
    pub model_used: String,
    pub processing_time_ms: Option<u64>,
    pub status: SummaryStatus,
    pub created_at: i64,
    pub updated_at: i64,
}

impl Summary {
    /// A pending, empty summary with the given identifier and creation time.
    pub fn with_identity(id: String, transcription_id: String, model_used: String, now: i64) -> (s:
        Self)
        ensures
            s.id == id,
            s.transcription_id == transcription_id,
            s.summary_text@.len() == 0,
            s.key_points@.len() == 0,
            s.action_items@.len() == 0,
            s.model_used == model_used,
            s.processing_time_ms is None,
            s.status is Pending,
            s.created_at == now,
            s.updated_at == now,
    {
        Summary {
            id,
            transcription_id,
            summary_text: String::new(),
            key_points: Vec::new(),
            action_items: Vec::new(),
            model_used,
            processing_time_ms: None,
            status: SummaryStatus::Pending,
            created_at: now,
            updated_at: now,
        }
    }

    /// A pending, empty summary with a fresh identifier, created now.
    pub fn new(transcription_id: String, model_used: String) -> (s: Self)
        ensures
            s.id@.len() == 36,
            s.transcription_id == transcription_id,
            s.summary_text@.len() == 0,
            s.key_points@.len() == 0,
            s.action_items@.len() == 0,
            s.model_used == model_used,
            s.processing_time_ms is None,
            s.status is Pending,
            s.created_at == s.updated_at,
    {
        Summary::with_identity(fresh_id(), transcription_id, model_used, clock_millis())
    }

    /// Completes the summary with its text, key points and action items.
    pub fn with_content(
        self,
        summary_text: String,
        key_points: Vec<String>,
        action_items: Vec<String>,
    ) -> (s: Self)
        ensures
            s == (Summary {
                summary_text: summary_text,
                key_points: key_points,
                action_items: action_items,
                status: SummaryStatus::Completed,
                updated_at: s.updated_at,
                ..self
            }),
    {
        let mut s = self;
        s.summary_text = summary_text;
        s.key_points = key_points;
        s.action_items = action_items;
        s.status = SummaryStatus::Completed;
        s.updated_at = clock_millis();
        s
    }

    /// Ends the summary in failure, with the reason.
    pub fn with_error(self, error: String) -> (s: Self)
        ensures
            s == (Summary { status: SummaryStatus::Failed(error), updated_at: s.updated_at, ..self }),
    {
        let mut s = self;
        s.status = SummaryStatus::Failed(error);
        s.updated_at = clock_millis();
        s
    }

    /// Marks the summary as being worked on.
    pub fn set_processing(self) -> (s: Self)
        ensures
            s == (Summary { status: SummaryStatus::Processing, updated_at: s.updated_at, ..self }),
    {
        let mut s = self;
        s.status = SummaryStatus::Processing;
        s.updated_at = clock_millis();
        s
    }

    /// Records how long the model took, in milliseconds.
    pub fn with_processing_time(self, time_ms: u64) -> (s: Self)
        ensures
            s == (Summary { processing_time_ms: Some(time_ms), updated_at: s.updated_at, ..self }),
    {
        let mut s = self;
        s.processing_time_ms = Some(time_ms);
        s.updated_at = clock_millis();
        s
    }
}

/// The services that can run a language model.
#[derive(Debug, Clone, Copy, PartialEq, Eq, Structural)]
pub enum LLMProvider {
    Ollama,
    OpenAI,
    GPT4All,
    LMStudio,
    Custom,
}

/// How to reach a language model and how to run it.
#[derive(Debug, Clone, PartialEq, Eq)]
pub struct LLMConfig {
    pub provider: LLMProvider,
    pub base_url: String,
    pub model_name: String,
    /// In thousandths: 700 stands for 0.7.
    pub temperature: u32,
    pub max_tokens: u32,
    pub timeout_seconds: u64,
}

impl Default for LLMConfig {
    /// A small local model behind Ollama.
    fn default() -> (c: Self)
        ensures
            c.provider == LLMProvider::Ollama,
            c.base_url@ == "http://localhost:11434"@,
            c.model_name@ == "llama3.2:3b"@,
            c.temperature == 700,
            c.max_tokens == 2048,
            c.timeout_seconds == 120,
    {
        LLMConfig {
            provider: LLMProvider::Ollama,
            base_url: "http://localhost:11434".to_owned(),
            model_name: "llama3.2:3b".to_owned(),
            temperature: 700,
            max_tokens: 2048,
            timeout_seconds: 120,
        }
    }
}

} // verus!
