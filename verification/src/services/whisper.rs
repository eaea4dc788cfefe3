//! Speech recognition with a remote backend over HTTP: the OpenAI
//! transcription API, or a server on the local network. Where the backend
//! cannot be used, a fixed placeholder text takes the place of the
//! transcript.

use crate::errors::{AppError, AppResult};
use crate::models::{Transcription, TranscriptionStatus};
use crate::platform::{json_string_at, read_json, JsonLeaf};
use crate::text::texts;
use crate::services::transcript::{cleaned, postprocess_transcript};
use crate::text::{
    chars_of, contains, contains_seq, ends_with_seq, join2, matches_at, same_text, slice_chars,
    string_of, trim, trim_seq,
};
use vstd::prelude::*;

verus! {

/// The largest audio file that is taken, in bytes: 25 MB.
pub const MAX_FILE_SIZE: u64 = 26214400;

/// The confidence of a remote transcription, in thousandths.
pub const CONFIDENCE: u16 = 900;

/// The endpoint that is used where none is configured.
pub const OPENAI_ENDPOINT: &'static str = "https://api.openai.com/v1/audio/transcriptions";

/// The part of an endpoint that marks it as the OpenAI API.
pub const OPENAI_HOST: &'static str = "openai.com";

/// The language that is assumed where none is named.
pub const DEFAULT_LANGUAGE: &'static str = "ja";

/// The bytes that one second of a recording takes: 16-bit samples at 16 kHz.
pub const BYTES_PER_SECOND: u64 = 32000;

/// The longest that the server may take to say that it is alive, in seconds.
pub const PROBE_TIMEOUT_SECONDS: u64 = 5;

/// The longest that a back end may take over one transcription, in seconds.
pub const REQUEST_TIMEOUT_SECONDS: u64 = 300;

/// The backend that a transcription goes to.
#[derive(Debug, Clone, Copy, PartialEq, Eq, Structural)]
pub enum Backend {
    /// The OpenAI API, with the configured key.
    OpenAi,
    /// The configured server.
    LocalServer,
    /// No backend: the placeholder text.
    Fallback,
}

/// What became of an HTTP request.
#[derive(Debug, Clone, PartialEq, Eq)]
pub enum HttpOutcome {
    /// No connection could be made; the text says why.
    Unreachable(String),
    /// The backend did not answer in time.
    TimedOut,
    /// The backend answered; `success` says whether with a status of success.
    Answered { success: bool, body: String },
}

/// One text field of a multipart request.
#[derive(Debug, Clone, PartialEq, Eq)]
pub struct FormField {
    pub name: String,
    pub value: String,
}

/// The recognition service.
#[derive(Debug, Clone, PartialEq, Eq)]
pub struct WhisperService {
    api_endpoint: String,
    api_key: Option<String>,
    model_path: String,
    recordings_dir: String,
    initialized: bool,
}

/// `s` without any number of copies of `suffix` at its end.
pub open spec fn without_suffix(s: Seq<char>, suffix: Seq<char>) -> Seq<char>
    decreases s.len(),
{
    if suffix.len() > 0 && ends_with_seq(s, suffix) {
        without_suffix(s.subrange(0, s.len() - suffix.len()), suffix)
    } else {
        s
    }
}

/// The address at which a server says whether it is alive.
pub open spec fn health_url(endpoint: Seq<char>) -> Seq<char> {
    without_suffix(endpoint, "/transcribe"@) + "/health"@
}

/// The backend for an endpoint and a key: the OpenAI API where the endpoint
/// is one of its and a key is there; the server where the endpoint is none
/// of OpenAI's; nothing where the key for OpenAI is missing.
pub open spec fn backend_for(endpoint: Seq<char>, has_key: bool) -> Backend {
    if contains_seq(endpoint, OPENAI_HOST@) {
        if has_key {
            Backend::OpenAi
        } else {
            Backend::Fallback
        }
    } else {
        Backend::LocalServer
    }
}

/// The opening of the placeholder text in a language.
pub open spec fn fallback_opening(language: Option<Seq<char>>) -> Seq<char> {
    if language == Some("en"@) {
        "Hello, this is a sample transcription"@
    } else if language == Some("ja"@) {
        "こんにちは、これはサンプルの書き起こしです"@
    } else if language == Some("zh"@) {
        "你好，这是一个示例转录"@
    } else if language == Some("ko"@) {
        "안녕하세요, 이것은 샘플 전사입니다"@
    } else {
        "こんにちは、これはサンプルの書き起こしです"@
    }
}

/// The length in whole seconds that a file of this size is taken to have.
pub open spec fn estimated_seconds(file_size: u64) -> int {
    file_size as int / BYTES_PER_SECOND as int
}

/// The placeholder text for a file of this size in a language: the opening
/// of the language, then a sentence that depends on the estimated length
/// alone: under ten seconds, under a minute, or longer.
pub open spec fn fallback_text(file_size: u64, language: Option<Seq<char>>) -> Seq<char> {
    if estimated_seconds(file_size) < 10 {
        fallback_opening(language) + "。短い録音です。"@
    } else if estimated_seconds(file_size) < 60 {
        fallback_opening(language) + "。会議の内容について話し合いました。"@
    } else {
        fallback_opening(language)
            + "。長時間の録音で、詳細な議論が行われました。プロジェクトの進捗について説明がありました。"@
    }
}

/// The language of a request as a sequence of characters.
pub open spec fn language_view(language: Option<String>) -> Option<Seq<char>> {
    match language {
        Some(l) => Some(l@),
        None => None,
    }
}

/// The language of a request: the one named, or Japanese.
pub open spec fn language_or_default(language: Option<String>) -> Seq<char> {
    match language {
        Some(l) => l@,
        None => DEFAULT_LANGUAGE@,
    }
}

/// Whether a file of this size is taken: not empty, and at most 25 MB.
pub open spec fn size_accepted(file_size: u64) -> bool {
    0 < file_size <= MAX_FILE_SIZE
}

/// The languages that the backend is asked for.
pub open spec fn languages() -> Seq<Seq<char>> {
    seq!["ja"@, "en"@, "zh"@, "ko"@, "es"@, "fr"@, "de"@, "it"@, "pt"@, "ru"@]
}

/// The transcript that the answer of the OpenAI API holds, or the error that
/// the outcome stands for: a connectivity error where the API was not
/// reached or did not answer in time; an execution failure where it answered
/// with an error, or with something that holds no text.
pub open spec fn openai_transcript(outcome: HttpOutcome) -> Result<Seq<char>, crate::errors::ErrorKind> {
    match outcome {
        HttpOutcome::Unreachable(_) => Err(crate::errors::ErrorKind::ConnectivityError),
        HttpOutcome::TimedOut => Err(crate::errors::ErrorKind::ConnectivityError),
        HttpOutcome::Answered { success, body } => if !success {
            Err(crate::errors::ErrorKind::ExecutionFailure)
        } else {
            match json_string_at(body@, "/text"@) {
                Some(text) => Ok(text),
                None => Err(crate::errors::ErrorKind::ExecutionFailure),
            }
        },
    }
}

/// The transcript that the answer of a server holds, or the error that the
/// outcome stands for. The body of a successful answer is the transcript.
pub open spec fn server_transcript(outcome: HttpOutcome) -> Result<Seq<char>, crate::errors::ErrorKind> {
    match outcome {
        HttpOutcome::Unreachable(_) => Err(crate::errors::ErrorKind::ConnectivityError),
        HttpOutcome::TimedOut => Err(crate::errors::ErrorKind::ConnectivityError),
        HttpOutcome::Answered { success, body } => if !success {
            Err(crate::errors::ErrorKind::ExecutionFailure)
        } else {
            Ok(body@)
        },
    }
}

/// Whether `r` is the text, or an error of the class, that `expected` names.
pub open spec fn agrees(r: AppResult<String>, expected: Result<Seq<char>, crate::errors::ErrorKind>) -> bool {
    match (r, expected) {
        (Ok(text), Ok(t)) => text@ == t,
        (Err(e), Err(kind)) => e.spec_kind() == kind,
        _ => false,
    }
}

fn strip_suffix_all(s: &Vec<char>, suffix: &Vec<char>) -> (out: Vec<char>)
    ensures
        out@ == without_suffix(s@, suffix@),
{
    let mut end: usize = s.len();
    assert(s@.subrange(0, end as int) == s@);
    while suffix.len() > 0 && end >= suffix.len() && matches_suffix(s, end, suffix)
        invariant
            end <= s.len(),
            without_suffix(s@, suffix@) == without_suffix(s@.subrange(0, end as int), suffix@),
        decreases end,
    {
        assert(s@.subrange(0, end as int).subrange(0, end - suffix.len()) == s@.subrange(
            0,
            end - suffix.len(),
        ));
        end = end - suffix.len();
    }
    slice_chars(s, 0, end)
}

fn matches_suffix(s: &Vec<char>, end: usize, suffix: &Vec<char>) -> (r: bool)
    requires
        end <= s.len(),
        suffix.len() <= end,
    ensures
        r == ends_with_seq(s@.subrange(0, end as int), suffix@),
{
    let head = slice_chars(s, 0, end);
    matches_at(&head, suffix, end - suffix.len())
}

impl WhisperService {
    /// Whether the service was set up.
    pub closed spec fn spec_is_initialized(&self) -> bool {
        self.initialized
    }

    /// The address of the backend.
    pub closed spec fn endpoint(&self) -> Seq<char> {
        self.api_endpoint@
    }

    /// Whether a key for the backend is there.
    pub closed spec fn has_key(&self) -> bool {
        self.api_key is Some
    }

    /// The key for the backend.
    pub closed spec fn key(&self) -> Option<Seq<char>> {
        match self.api_key {
            Some(k) => Some(k@),
            None => None,
        }
    }

    /// The backend that transcriptions go to.
    pub open spec fn backend(&self) -> Backend {
        backend_for(self.endpoint(), self.has_key())
    }

    /// A service for the OpenAI API, without a key.
    pub fn new(model_path: String, recordings_dir: String) -> (s: Self)
        ensures
            !s.spec_is_initialized(),
            s.endpoint() == OPENAI_ENDPOINT@,
            !s.has_key(),
    {
        WhisperService::configured(model_path, recordings_dir, None, None)
    }

    /// A service with what the environment asks for: the endpoint, which
    /// falls back to the OpenAI API, and the key.
    pub fn configured(
        model_path: String,
        recordings_dir: String,
        api_endpoint: Option<String>,
        api_key: Option<String>,
    ) -> (s: Self)
        ensures
            !s.spec_is_initialized(),
            s.endpoint() == (match api_endpoint {
                Some(e) => e@,
                None => OPENAI_ENDPOINT@,
            }),
            s.key() == (match api_key {
                Some(k) => Some(k@),
                None => None,
            }),
    {
        let api_endpoint = match api_endpoint {
            Some(e) => e,
            None => OPENAI_ENDPOINT.to_owned(),
        };
        WhisperService { api_endpoint, api_key, model_path, recordings_dir, initialized: false }
    }

    /// Sets the service up. This cannot fail: a backend that is out of reach
    /// is replaced by the placeholder text later.
    ///
    /// The result names the address at which the caller may ask a server
    /// whether it is alive, for its log. There is none where the service was
    /// set up before, and none for the OpenAI API.
    pub fn initialize(&mut self) -> (r: AppResult<Option<String>>)
        ensures
            final(self).spec_is_initialized(),
            final(self).endpoint() == old(self).endpoint(),
            final(self).key() == old(self).key(),
            r matches Ok(probe) && (match probe {
                Some(url) => !old(self).spec_is_initialized() && !contains_seq(
                    old(self).endpoint(),
                    OPENAI_HOST@,
                ) && url@ == health_url(old(self).endpoint()),
                None => old(self).spec_is_initialized() || contains_seq(
                    old(self).endpoint(),
                    OPENAI_HOST@,
                ),
            }),
    {
        if self.initialized {
            return Ok(None);
        }
        self.initialized = true;
        if contains(self.api_endpoint.as_str(), OPENAI_HOST) {
            Ok(None)
        } else {
            Ok(Some(self.health_check_url()))
        }
    }

    /// The address at which the configured server says whether it is alive.
    pub fn health_check_url(&self) -> (url: String)
        ensures
            url@ == health_url(self.endpoint()),
    {
        let endpoint = chars_of(self.api_endpoint.as_str());
        let suffix = chars_of("/transcribe");
        let base = strip_suffix_all(&endpoint, &suffix);
        let base_text = string_of(&base);
        join2(base_text.as_str(), "/health")
    }

    /// Whether the service was set up.
    #[verifier::when_used_as_spec(spec_is_initialized)]
    pub fn is_initialized(&self) -> (b: bool)
        ensures
            b == self.spec_is_initialized(),
    {
        self.initialized
    }

    /// The backend that transcriptions go to.
    pub fn choose_backend(&self) -> (b: Backend)
        ensures
            b == self.backend(),
    {
        if contains(self.api_endpoint.as_str(), OPENAI_HOST) {
            if self.api_key.is_some() {
                Backend::OpenAi
            } else {
                Backend::Fallback
            }
        } else {
            Backend::LocalServer
        }
    }

    /// Accepts or refuses a request to transcribe the file at `audio_path`,
    /// of which the caller says whether it exists and how large it is, and
    /// for an accepted request names the backend.
    ///
    /// In this order: a service that was not set up refuses; a missing file
    /// is `FileNotFound` with its path; a file of more than 25 MB, and an
    /// empty file, is a validation error. A file of exactly 25 MB passes.
    pub fn transcribe_audio_file(&self, audio_path: &str, exists: bool, file_size: u64) -> (r:
        AppResult<Backend>)
        ensures
            r is Ok <==> self.spec_is_initialized() && exists && size_accepted(file_size),
            r matches Ok(b) ==> b == self.backend(),
            r matches Err(e) ==> (if !self.spec_is_initialized() {
                e is NotInitialized
            } else if !exists {
                e matches AppError::FileNotFound { path } && path@ == audio_path@
            } else {
                e is ValidationError
            }),
    {
        if !self.initialized {
            return Err(
                AppError::NotInitialized {
                    message: "Whisper service is not initialized. Call initialize() first.".to_owned(),
                },
            );
        }
        if !exists {
            return Err(AppError::FileNotFound { path: audio_path.to_owned() });
        }
        if file_size > MAX_FILE_SIZE {
            return Err(
                AppError::ValidationError {
                    message: "Audio file too large. Maximum size is 25MB.".to_owned(),
                },
            );
        }
        if file_size == 0 {
            return Err(AppError::ValidationError { message: "Audio file is empty.".to_owned() });
        }
        Ok(self.choose_backend())
    }

    /// The header that carries the key to the OpenAI API.
    pub fn authorization_header(&self) -> (r: AppResult<String>)
        ensures
            r is Ok <==> self.has_key(),
            r matches Ok(h) ==> self.key() matches Some(k) && h@ == "Bearer "@ + k,
            r matches Err(e) ==> e is ConfigurationError,
    {
        match &self.api_key {
            Some(k) => Ok(join2("Bearer ", k.as_str())),
            None => Err(
                AppError::ConfigurationError { message: "OpenAI API key is required".to_owned() },
            ),
        }
    }

    /// The text fields of the request to a backend, besides the file: for
    /// the OpenAI API the model, and for either backend the language where
    /// one is named.
    pub fn form_fields(backend: Backend, language: Option<&str>) -> (fields: Vec<FormField>)
        ensures
            fields@.len() == (if backend == Backend::OpenAi {
                1int
            } else {
                0int
            }) + (if language is Some {
                1int
            } else {
                0int
            }),
            backend == Backend::OpenAi ==> fields@[0].name@ == "model"@ && fields@[0].value@
                == "whisper-1"@,
            language matches Some(l) ==> fields@.last().name@ == "language"@
                && fields@.last().value@ == l@,
    {
        let mut fields: Vec<FormField> = Vec::new();
        match backend {
            Backend::OpenAi => {
                fields.push(FormField { name: "model".to_owned(), value: "whisper-1".to_owned() });
            },
            _ => {},
        }
        match language {
            Some(l) => {
                fields.push(FormField { name: "language".to_owned(), value: l.to_owned() });
            },
            None => {},
        }
        fields
    }

    /// Reads the outcome of a request to the OpenAI API, as
    /// `openai_transcript` says.
    pub fn transcribe_with_openai_api(outcome: &HttpOutcome) -> (r: AppResult<String>)
        ensures
            agrees(r, openai_transcript(*outcome)),
    {
        match outcome {
            HttpOutcome::Unreachable(reason) => Err(
                AppError::ConnectivityError {
                    message: join2("API request failed: ", reason.as_str()),
                },
            ),
            HttpOutcome::TimedOut => Err(
                AppError::ConnectivityError { message: "API request timed out".to_owned() },
            ),
            HttpOutcome::Answered { success, body } => {
                if !*success {
                    return Err(
                        AppError::ExecutionFailure { message: join2("API error: ", body.as_str()) },
                    );
                }
                match read_json(body.as_str(), "/text") {
                    JsonLeaf::Text(text) => Ok(text),
                    _ => Err(
                        AppError::ExecutionFailure {
                            message: "No text field in API response".to_owned(),
                        },
                    ),
                }
            },
        }
    }

    /// Reads the outcome of a request to a server, as `server_transcript`
    /// says.
    pub fn transcribe_with_local_server(outcome: &HttpOutcome) -> (r: AppResult<String>)
        ensures
            agrees(r, server_transcript(*outcome)),
    {
        match outcome {
            HttpOutcome::Unreachable(reason) => Err(
                AppError::ConnectivityError {
                    message: join2("Local server request failed: ", reason.as_str()),
                },
            ),
            HttpOutcome::TimedOut => Err(
                AppError::ConnectivityError { message: "Local server request timed out".to_owned() },
            ),
            HttpOutcome::Answered { success, body } => {
                if !*success {
                    Err(
                        AppError::ExecutionFailure {
                            message: join2("Local server error: ", body.as_str()),
                        },
                    )
                } else {
                    Ok(body.clone())
                }
            },
        }
    }

    /// Reads the answer of a server to the question whether it is alive.
    pub fn test_local_server(outcome: &HttpOutcome) -> (r: AppResult<()>)
        ensures
            r is Ok <==> (*outcome matches HttpOutcome::Answered { success, .. } && success),
            r matches Err(e) ==> (if outcome is Answered {
                e is ExecutionFailure
            } else {
                e is ConnectivityError
            }),
    {
        match outcome {
            HttpOutcome::Unreachable(reason) => Err(
                AppError::ConnectivityError {
                    message: join2("Health check failed: ", reason.as_str()),
                },
            ),
            HttpOutcome::TimedOut => Err(
                AppError::ConnectivityError { message: "Health check timed out".to_owned() },
            ),
            HttpOutcome::Answered { success, .. } => {
                if *success {
                    Ok(())
                } else {
                    Err(
                        AppError::ExecutionFailure {
                            message: "Server health check failed".to_owned(),
                        },
                    )
                }
            },
        }
    }

    /// The placeholder text for a file of this size in a language. It
    /// depends on nothing else.
    pub fn fallback_transcription(file_size: u64, language: Option<&str>) -> (out: String)
        ensures
            out@ == fallback_text(
                file_size,
                match language {
                    Some(l) => Some(l@),
                    None => None,
                },
            ),
    {
        let seconds: u64 = file_size / BYTES_PER_SECOND;
        let opening: &str = match language {
            Some(l) => {
                if same_text(l, "en") {
                    "Hello, this is a sample transcription"
                } else if same_text(l, "ja") {
                    "こんにちは、これはサンプルの書き起こしです"
                } else if same_text(l, "zh") {
                    "你好，这是一个示例转录"
                } else if same_text(l, "ko") {
                    "안녕하세요, 이것은 샘플 전사입니다"
                } else {
                    "こんにちは、これはサンプルの書き起こしです"
                }
            },
            None => "こんにちは、これはサンプルの書き起こしです",
        };
        if seconds < 10 {
            join2(opening, "。短い録音です。")
        } else if seconds < 60 {
            join2(opening, "。会議の内容について話し合いました。")
        } else {
            join2(
                opening,
                "。長時間の録音で、詳細な議論が行われました。プロジェクトの進捗について説明がありました。",
            )
        }
    }

    /// Makes the transcription of a recording from what the backend gave.
    ///
    /// The text is the transcript of the backend, without whitespace at its
    /// ends and cleaned as a transcript in the language of the request; or,
    /// where the backend failed in any way or there is none, the placeholder
    /// text for the size of the file and the language. The transcription is
    /// completed, in the language of the request, with the fixed confidence
    /// of remote recognition and the time taken. This never fails.
    pub fn complete_transcription(
        recording_id: String,
        language: Option<String>,
        backend_result: Option<AppResult<String>>,
        file_size: u64,
        processing_time_ms: u64,
    ) -> (t: Transcription)
        ensures
            t.text@ == (match backend_result {
                Some(Ok(text)) => cleaned(trim_seq(text@), language_or_default(language)),
                _ => fallback_text(file_size, language_view(language)),
            }),
            t.recording_id == recording_id,
            t.language@ == language_or_default(language),
            t.confidence == Some(CONFIDENCE),
            t.processing_time_ms == Some(processing_time_ms),
            t.status is Completed,
            t.id@.len() == 36,
            t.wf(),
    {
        let fallback: String = match &language {
            Some(l) => WhisperService::fallback_transcription(file_size, Some(l.as_str())),
            None => WhisperService::fallback_transcription(file_size, None),
        };
        let lang: String = match language {
            Some(l) => l,
            None => DEFAULT_LANGUAGE.to_owned(),
        };
        let text: String = match backend_result {
            Some(Ok(text)) => postprocess_transcript(trim(text.as_str()).as_str(), lang.as_str()),
            _ => fallback,
        };
        Transcription::new(recording_id, text, lang).set_processing().with_confidence(
            Some(CONFIDENCE),
        ).with_processing_time(Some(processing_time_ms)).with_status(
            TranscriptionStatus::Completed,
        )
    }

    /// The languages that the backend is asked for.
    pub fn get_available_languages(&self) -> (r: AppResult<Vec<String>>)
        ensures
            r matches Ok(list) && texts(list@) == languages(),
    {
        let mut list: Vec<String> = Vec::new();
        list.push("ja".to_owned());
        list.push("en".to_owned());
        list.push("zh".to_owned());
        list.push("ko".to_owned());
        list.push("es".to_owned());
        list.push("fr".to_owned());
        list.push("de".to_owned());
        list.push("it".to_owned());
        list.push("pt".to_owned());
        list.push("ru".to_owned());
        assert(texts(list@) == languages());
        Ok(list)
    }

    /// Says how the service stands; `server_alive` is the answer of the
    /// configured server, which counts only where the backend is a server.
    pub fn get_service_status(&self, server_alive: bool) -> (r: AppResult<String>)
        ensures
            r matches Ok(status) && status@ == (if !self.spec_is_initialized() {
                "Not initialized"@
            } else if contains_seq(self.endpoint(), OPENAI_HOST@) {
                if self.has_key() {
                    "OpenAI API ready"@
                } else {
                    "OpenAI API key missing"@
                }
            } else if server_alive {
                "Local server ready"@
            } else {
                "Local server unavailable - fallback mode"@
            }),
    {
        if !self.initialized {
            return Ok("Not initialized".to_owned());
        }
        if contains(self.api_endpoint.as_str(), OPENAI_HOST) {
            if self.api_key.is_some() {
                Ok("OpenAI API ready".to_owned())
            } else {
                Ok("OpenAI API key missing".to_owned())
            }
        } else if server_alive {
            Ok("Local server ready".to_owned())
        } else {
            Ok("Local server unavailable - fallback mode".to_owned())
        }
    }
}

/// Two requests for the placeholder text with the same size and the same
/// language get the same text.
pub proof fn law_fallback_is_pure(
    size_a: u64,
    language_a: Option<Seq<char>>,
    size_b: u64,
    language_b: Option<Seq<char>>,
)
    requires
        size_a == size_b,
        language_a == language_b,
    ensures
        fallback_text(size_a, language_a) == fallback_text(size_b, language_b),
{
}

/// The verdict on a file rests on its size alone, so it is the same at every
/// call: a file is taken exactly when it holds at least one byte and at most
/// 25 MB. The empty file is refused, and a file of exactly 25 MB is taken.
pub proof fn law_size_limits(size: u64)
    ensures
        size_accepted(size) <==> 1 <= size <= 26214400,
        !size_accepted(0),
        size_accepted(MAX_FILE_SIZE),
{
}

} // verus!
