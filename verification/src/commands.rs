//! The commands of the application, as far as they decide anything: the
//! cleaning of input, and what follows from it.

use crate::errors::{validation_error, AppError, AppResult};
use crate::text::{byte_len, chars_of, decimal, is_control, join3, string_of, is_control_char};
use vstd::prelude::*;

pub mod file_management;
pub mod llm;
pub mod model_downloader;
pub mod model_management;
pub mod model_settings;
pub mod streaming;

verus! {

/// A character passes sanitizing when it is no control character, or is a
/// line feed or a tab.
pub open spec fn kept_by_sanitizer(c: char) -> bool {
    !is_control_char(c) || c == '\n' || c == '\t'
}

/// Cleans a text that came from outside. An empty text, and one of more than
/// `max_length` bytes, is a validation error. Otherwise the result is the
/// text without its control characters, line feeds and tabs kept.
pub fn sanitize_string_input(input: &str, max_length: usize) -> (r: AppResult<String>)
    ensures
        r is Ok <==> input@.len() > 0 && byte_len(input@) <= max_length,
        r matches Ok(out) ==> out@ == input@.filter(|c: char| kept_by_sanitizer(c)),
        r matches Err(e) ==> e is ValidationError,
{
    if input.is_empty() {
        return Err(validation_error("Input cannot be empty"));
    }
    if input.as_bytes().len() > max_length {
        let limit = decimal(max_length as u64);
        let message = join3("Input too long (max: ", limit.as_str(), " characters)");
        return Err(AppError::ValidationError { message });
    }
    let v = chars_of(input);
    let mut out: Vec<char> = Vec::new();
    let mut i: usize = 0;
    assert(v@.take(0).filter(|c: char| kept_by_sanitizer(c)) == Seq::<char>::empty());
    while i < v.len()
        invariant
            i <= v.len(),
            out@ == v@.take(i as int).filter(|c: char| kept_by_sanitizer(c)),
        decreases v.len() - i,
    {
        let c = v[i];
        proof {
            assert(v@.take(i + 1).drop_last() == v@.take(i as int));
            reveal(Seq::filter);
        }
        if !is_control(c) || c == '\n' || c == '\t' {
            out.push(c);
        }
        i = i + 1;
    }
    assert(v@.take(v.len() as int) == v@);
    Ok(string_of(&out))
}

/// The longest identifier of a recording that is taken, in bytes.
pub const MAX_ID_LENGTH: usize = 50;

/// The longest language code that is taken, in bytes.
pub const MAX_LANGUAGE_LENGTH: usize = 10;

/// A request to transcribe, cleaned.
#[derive(Debug, Clone, PartialEq, Eq)]
pub struct TranscriptionRequest {
    pub recording_id: String,
    pub language: Option<String>,
}

/// The text without the characters that the sanitizer drops.
pub open spec fn sanitized(input: Seq<char>) -> Seq<char> {
    input.filter(|c: char| kept_by_sanitizer(c))
}

/// Whether the sanitizer takes a text under a limit in bytes.
pub open spec fn sanitizable(input: Seq<char>, max_length: usize) -> bool {
    input.len() > 0 && byte_len(input) <= max_length
}

/// Cleans a request to transcribe the recording `recording_id` in
/// `language`. An identifier or a language that the sanitizer refuses ends
/// the request with the description of the refusal.
pub fn transcribe_recording(recording_id: &str, language: Option<String>) -> (r: Result<
    TranscriptionRequest,
    String,
>)
    ensures
        r is Ok <==> sanitizable(recording_id@, MAX_ID_LENGTH) && (language matches Some(l)
            ==> sanitizable(l@, MAX_LANGUAGE_LENGTH)),
        r matches Ok(request) ==> request.recording_id@ == sanitized(recording_id@) && (
        match language {
            Some(l) => request.language matches Some(cleaned) && cleaned@ == sanitized(l@),
            None => request.language is None,
        }),
{
    let id = match sanitize_string_input(recording_id, MAX_ID_LENGTH) {
        Ok(id) => id,
        Err(e) => {
            return Err(e.to_string());
        },
    };
    let language = match language {
        Some(l) => match sanitize_string_input(l.as_str(), MAX_LANGUAGE_LENGTH) {
            Ok(cleaned) => Some(cleaned),
            Err(e) => {
                return Err(e.to_string());
            },
        },
        None => None,
    };
    Ok(TranscriptionRequest { recording_id: id, language })
}

/// The file to transcribe: that of the recording that was found, if it is
/// on disk. A recording that is not in the store, and one whose file is
/// gone, ends the request.
pub fn audio_path_of(found: Option<&crate::models::Recording>, file_exists: bool) -> (r: Result<
    String,
    String,
>)
    ensures
        match found {
            None => r matches Err(m) && m@ == "Recording not found"@,
            Some(recording) => if file_exists {
                r matches Ok(path) && path == recording.file_path
            } else {
                r matches Err(m) && m@ == "Audio file not found"@
            },
        },
{
    match found {
        None => Err("Recording not found".to_owned()),
        Some(recording) => {
            if file_exists {
                Ok(recording.file_path.clone())
            } else {
                Err("Audio file not found".to_owned())
            }
        },
    }
}

/// What the user is told where the engine could not be set up.
pub fn initialization_failed(error: &AppError) -> (message: String)
    ensures
        message@ == "Failed to initialize Whisper: "@ + error.spec_description(),
{
    crate::text::join2("Failed to initialize Whisper: ", error.to_string().as_str())
}

/// What the user is told where the transcription failed.
pub fn transcription_failed(error: &AppError) -> (message: String)
    ensures
        message@ == "Transcription failed: "@ + error.spec_description(),
{
    crate::text::join2("Transcription failed: ", error.to_string().as_str())
}

/// Cleans a request to delete the recording `id`.
pub fn delete_recording(id: &str) -> (r: Result<String, String>)
    ensures
        r is Ok <==> sanitizable(id@, MAX_ID_LENGTH),
        r matches Ok(cleaned) ==> cleaned@ == sanitized(id@),
{
    match sanitize_string_input(id, MAX_ID_LENGTH) {
        Ok(cleaned) => Ok(cleaned),
        Err(e) => Err(e.to_string()),
    }
}

} // verus!
