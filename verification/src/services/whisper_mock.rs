//! A stand-in for speech recognition that needs no engine: the transcript is
//! made up from the name and the size of the file.

use crate::errors::{AppError, AppResult};
use crate::models::Transcription;
use crate::text::join2;
use vstd::prelude::*;

verus! {

/// The confidence of a made-up transcription, in thousandths.
pub const CONFIDENCE: u16 = 850;

/// The language that is assumed where none is named.
pub const DEFAULT_LANGUAGE: &'static str = "ja";

/// The transcript of a file of less than 1 KB.
pub const SHORT_TEXT: &'static str = "こんにちは。短いテスト録音です。";

/// What follows the name of the file in the transcript of a file of less
/// than 10 KB.
pub const MIDDLE_TEXT: &'static str =
    "についての録音です。これはWhisperによる自動書き起こしのモック実装です。実際の音声認識機能を実装するには、whisper.cppライブラリとCMakeが必要です。";

/// What follows the name of the file in the transcript of a larger file.
pub const LONG_TEXT: &'static str =
    "についての詳細な録音です。これはWhisperによる自動書き起こしのモック実装です。実際の実装では、音声ファイルを16kHz、16-bit、モノラルのWAVファイルに変換し、OpenAIのWhisperモデルを使用して高精度な日本語書き起こしを行います。この機能により、会議の音声録音を自動的にテキスト化し、議事録作成の作業を大幅に効率化できます。";

/// The made-up transcript of the file `filename` of `file_size` bytes.
pub open spec fn mock_text(filename: Seq<char>, file_size: u64) -> Seq<char> {
    if file_size < 1024 {
        SHORT_TEXT@
    } else if file_size < 10240 {
        filename + MIDDLE_TEXT@
    } else {
        filename + LONG_TEXT@
    }
}

/// The stand-in service.
#[derive(Debug, Clone, PartialEq, Eq)]
pub struct WhisperService {
    model_path: String,
    initialized: bool,
}

impl WhisperService {
    /// Whether the service was set up.
    pub closed spec fn spec_is_initialized(&self) -> bool {
        self.initialized
    }

    /// A service that is not set up.
    pub fn new(model_path: String) -> (s: Self)
        ensures
            !s.spec_is_initialized(),
    {
        WhisperService { model_path, initialized: false }
    }

    /// Sets the service up; this cannot fail.
    pub fn initialize(&mut self) -> (r: AppResult<()>)
        ensures
            r is Ok,
            final(self).spec_is_initialized(),
    {
        self.initialized = true;
        Ok(())
    }

    /// Whether the service was set up.
    #[verifier::when_used_as_spec(spec_is_initialized)]
    pub fn is_initialized(&self) -> (b: bool)
        ensures
            b == self.spec_is_initialized(),
    {
        self.initialized
    }

    /// The made-up transcript of the file `filename` of `file_size` bytes.
    pub fn generate_mock_transcription(filename: &str, file_size: u64) -> (r: AppResult<String>)
        ensures
            r matches Ok(text) && text@ == mock_text(filename@, file_size),
    {
        if file_size < 1024 {
            Ok(SHORT_TEXT.to_owned())
        } else if file_size < 10240 {
            Ok(join2(filename, MIDDLE_TEXT))
        } else {
            Ok(join2(filename, LONG_TEXT))
        }
    }

    /// Transcribes the file at `audio_file_path`, named `filename`, of which
    /// the caller says whether it exists and how large it is, in
    /// `processing_time_ms`.
    ///
    /// The service is set up where it was not. A missing file is
    /// `FileNotFound` with its path. Otherwise the transcription is
    /// completed, in the language of the request or in Japanese, with the
    /// made-up transcript, the fixed confidence and the time taken.
    pub fn transcribe_audio_file(
        &mut self,
        audio_file_path: &str,
        filename: &str,
        recording_id: String,
        language: Option<String>,
        exists: bool,
        file_size: u64,
        processing_time_ms: u64,
    ) -> (r: AppResult<Transcription>)
        ensures
            final(self).spec_is_initialized(),
            r is Ok <==> exists,
            r matches Err(e) ==> (e matches AppError::FileNotFound { path } && path@
                == audio_file_path@),
            r matches Ok(t) ==> ({
                &&& t.text@ == mock_text(filename@, file_size)
                &&& t.recording_id == recording_id
                &&& t.language@ == (match language {
                    Some(l) => l@,
                    None => DEFAULT_LANGUAGE@,
                })
                &&& t.confidence == Some(CONFIDENCE)
                &&& t.processing_time_ms == Some(processing_time_ms)
                &&& t.status is Completed
                &&& t.id@.len() == 36
                &&& t.wf()
            }),
    {
        self.initialized = true;
        let lang: String = match language {
            Some(l) => l,
            None => DEFAULT_LANGUAGE.to_owned(),
        };
        let transcription = Transcription::new_empty(recording_id, lang).set_processing();
        if !exists {
            return Err(AppError::FileNotFound { path: audio_file_path.to_owned() });
        }
        let text = match WhisperService::generate_mock_transcription(filename, file_size) {
            Ok(t) => t,
            Err(e) => {
                return Err(e);
            },
        };
        Ok(transcription.with_text(text, Some(CONFIDENCE)).set_processing_time(processing_time_ms))
    }
}

} // verus!
