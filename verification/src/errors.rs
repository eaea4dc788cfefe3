//! The error type of the crate, its six classes, and the checks on file
//! names, audio formats, sizes and user input.

use crate::platform::{follows_a_dot, path_extension};
use crate::text::{
    byte_len, chars_of, decimal, join2, join3, matches_at, occurs_at, same_chars, starts_with_seq,
    to_uppercase, uppercase_of,
};
use vstd::prelude::*;

verus! {

/// The class of an error. Every error of the crate falls in exactly one.
#[derive(Debug, Clone, Copy, PartialEq, Eq, Structural)]
pub enum ErrorKind {
    /// An operation was asked for in a state that does not allow it: a second
    /// start, a stop without a start, a transcription before initialization.
    StateConflict,
    /// Something the operation needs is not there: an input device, the
    /// interpreter, the recognition library, captured samples.
    ResourceUnavailable,
    /// An input was rejected: a file that is missing, empty, too small or too
    /// large, a name or a text that breaks the rules.
    ValidationError,
    /// The recognition engine ran and failed, or its output cannot be read.
    ExecutionFailure,
    /// A remote backend could not be reached, or did not answer in time.
    ConnectivityError,
    /// A device, model or path setting is wrong.
    ConfigurationError,
}

/// An error of the crate.
#[derive(Debug, Clone, PartialEq, Eq)]
pub enum AppError {
    StateConflict { message: String },
    ResourceUnavailable { message: String },
    ValidationError { message: String },
    ExecutionFailure { message: String },
    ConnectivityError { message: String },
    ConfigurationError { message: String },
    FileNotFound { path: String },
    InvalidPath { message: String },
    PermissionDenied { message: String },
    NotInitialized { message: String },
    Io { message: String },
    Storage { message: String },
}

pub type AppResult<T> = Result<T, AppError>;

impl AppError {
    /// The class of the error.
    pub open spec fn spec_kind(&self) -> ErrorKind {
        match self {
            AppError::StateConflict { .. } => ErrorKind::StateConflict,
            AppError::ResourceUnavailable { .. } => ErrorKind::ResourceUnavailable,
            AppError::ValidationError { .. } => ErrorKind::ValidationError,
            AppError::ExecutionFailure { .. } => ErrorKind::ExecutionFailure,
            AppError::ConnectivityError { .. } => ErrorKind::ConnectivityError,
            AppError::ConfigurationError { .. } => ErrorKind::ConfigurationError,
            AppError::FileNotFound { .. } => ErrorKind::ValidationError,
            AppError::InvalidPath { .. } => ErrorKind::ConfigurationError,
            AppError::PermissionDenied { .. } => ErrorKind::ConfigurationError,
            AppError::NotInitialized { .. } => ErrorKind::StateConflict,
            AppError::Io { .. } => ErrorKind::ResourceUnavailable,
            AppError::Storage { .. } => ErrorKind::ResourceUnavailable,
        }
    }

    /// The text the error carries: its message, or the path of a missing file.
    pub open spec fn spec_detail(&self) -> Seq<char> {
        match self {
            AppError::StateConflict { message } => message@,
            AppError::ResourceUnavailable { message } => message@,
            AppError::ValidationError { message } => message@,
            AppError::ExecutionFailure { message } => message@,
            AppError::ConnectivityError { message } => message@,
            AppError::ConfigurationError { message } => message@,
            AppError::FileNotFound { path } => path@,
            AppError::InvalidPath { message } => message@,
            AppError::PermissionDenied { message } => message@,
            AppError::NotInitialized { message } => message@,
            AppError::Io { message } => message@,
            AppError::Storage { message } => message@,
        }
    }

    /// The words that stand before the detail in the error's description.
    pub open spec fn spec_label(&self) -> Seq<char> {
        match self {
            AppError::StateConflict { .. } => "State conflict: "@,
            AppError::ResourceUnavailable { .. } => "Resource unavailable: "@,
            AppError::ValidationError { .. } => "Validation error: "@,
            AppError::ExecutionFailure { .. } => "Execution failed: "@,
            AppError::ConnectivityError { .. } => "Connectivity error: "@,
            AppError::ConfigurationError { .. } => "Configuration error: "@,
            AppError::FileNotFound { .. } => "File not found: "@,
            AppError::InvalidPath { .. } => "Invalid file path: "@,
            AppError::PermissionDenied { .. } => "Permission denied: "@,
            AppError::NotInitialized { .. } => "Not initialized: "@,
            AppError::Io { .. } => "IO error: "@,
            AppError::Storage { .. } => "Database error: "@,
        }
    }

    /// The description of the error: its label, then its detail.
    pub open spec fn spec_description(&self) -> Seq<char> {
        self.spec_label() + self.spec_detail()
    }

    /// What may be shown outside the application: errors about paths and
    /// permissions lose their detail, every other error keeps its description.
    pub open spec fn spec_public_message(&self) -> Seq<char> {
        match self {
            AppError::InvalidPath { .. } => "Invalid file path"@,
            AppError::PermissionDenied { .. } => "Access denied"@,
            _ => self.spec_description(),
        }
    }

    /// The class of the error.
    #[verifier::when_used_as_spec(spec_kind)]
    pub fn kind(&self) -> (k: ErrorKind)
        ensures
            k == self.spec_kind(),
    {
        match self {
            AppError::StateConflict { .. } => ErrorKind::StateConflict,
            AppError::ResourceUnavailable { .. } => ErrorKind::ResourceUnavailable,
            AppError::ValidationError { .. } => ErrorKind::ValidationError,
            AppError::ExecutionFailure { .. } => ErrorKind::ExecutionFailure,
            AppError::ConnectivityError { .. } => ErrorKind::ConnectivityError,
            AppError::ConfigurationError { .. } => ErrorKind::ConfigurationError,
            AppError::FileNotFound { .. } => ErrorKind::ValidationError,
            AppError::InvalidPath { .. } => ErrorKind::ConfigurationError,
            AppError::PermissionDenied { .. } => ErrorKind::ConfigurationError,
            AppError::NotInitialized { .. } => ErrorKind::StateConflict,
            AppError::Io { .. } => ErrorKind::ResourceUnavailable,
            AppError::Storage { .. } => ErrorKind::ResourceUnavailable,
        }
    }

    /// The description of the error: its label, then its detail.
    pub fn to_string(&self) -> (out: String)
        ensures
            out@ == self.spec_description(),
    {
        match self {
            AppError::StateConflict { message } => join2("State conflict: ", message.as_str()),
            AppError::ResourceUnavailable { message } => join2(
                "Resource unavailable: ",
                message.as_str(),
            ),
            AppError::ValidationError { message } => join2("Validation error: ", message.as_str()),
            AppError::ExecutionFailure { message } => join2("Execution failed: ", message.as_str()),
            AppError::ConnectivityError { message } => join2(
                "Connectivity error: ",
                message.as_str(),
            ),
            AppError::ConfigurationError { message } => join2(
                "Configuration error: ",
                message.as_str(),
            ),
            AppError::FileNotFound { path } => join2("File not found: ", path.as_str()),
            AppError::InvalidPath { message } => join2("Invalid file path: ", message.as_str()),
            AppError::PermissionDenied { message } => join2(
                "Permission denied: ",
                message.as_str(),
            ),
            AppError::NotInitialized { message } => join2("Not initialized: ", message.as_str()),
            AppError::Io { message } => join2("IO error: ", message.as_str()),
            AppError::Storage { message } => join2("Database error: ", message.as_str()),
        }
    }

    /// What may be shown outside the application.
    pub fn public_message(&self) -> (out: String)
        ensures
            out@ == self.spec_public_message(),
    {
        match self {
            AppError::InvalidPath { .. } => "Invalid file path".to_owned(),
            AppError::PermissionDenied { .. } => "Access denied".to_owned(),
            _ => self.to_string(),
        }
    }
}

/// A state-conflict error with the given message.
pub fn state_conflict(message: &str) -> (e: AppError)
    ensures
        e == (AppError::StateConflict { message: e->StateConflict_message }),
        e.spec_detail() == message@,
        e.spec_kind() == ErrorKind::StateConflict,
{
    AppError::StateConflict { message: message.to_owned() }
}

/// A validation error with the given message.
pub fn validation_error(message: &str) -> (e: AppError)
    ensures
        e is ValidationError,
        e.spec_detail() == message@,
{
    AppError::ValidationError { message: message.to_owned() }
}

/// The characters that no file name may hold.
pub open spec fn forbidden_in_filename(c: char) -> bool {
    c == '<' || c == '>' || c == ':' || c == '"' || c == '|' || c == '?' || c == '*' || c == '\0'
        || c == '/' || c == '\\'
}

/// The part of `s` before its first dot; all of `s` where it has none.
pub open spec fn before_first_dot(s: Seq<char>) -> Seq<char>
    decreases s.len(),
{
    if s.len() == 0 || s[0] == '.' {
        Seq::empty()
    } else {
        seq![s[0]] + before_first_dot(s.subrange(1, s.len() as int))
    }
}

/// The device names that some systems reserve.
pub open spec fn reserved_device_names() -> Seq<Seq<char>> {
    seq![
        "CON"@,
        "PRN"@,
        "AUX"@,
        "NUL"@,
        "COM1"@,
        "COM2"@,
        "COM3"@,
        "COM4"@,
        "COM5"@,
        "COM6"@,
        "COM7"@,
        "COM8"@,
        "COM9"@,
        "LPT1"@,
        "LPT2"@,
        "LPT3"@,
        "LPT4"@,
        "LPT5"@,
        "LPT6"@,
        "LPT7"@,
        "LPT8"@,
        "LPT9"@,
    ]
}

/// A file name is acceptable when it is not empty, takes at most 255 bytes,
/// holds no forbidden character, and its part before the first dot, in upper
/// case, is no reserved device name.
pub open spec fn acceptable_filename(name: Seq<char>) -> bool {
    &&& name.len() > 0
    &&& byte_len(name) <= 255
    &&& forall|i: int| 0 <= i < name.len() ==> !forbidden_in_filename(#[trigger] name[i])
    &&& !reserved_device_names().contains(before_first_dot(uppercase_of(name)))
}

fn reserved_names() -> (out: Vec<Vec<char>>)
    ensures
        out@.len() == reserved_device_names().len(),
        forall|i: int| 0 <= i < out@.len() ==> (#[trigger] out@[i])@ == reserved_device_names()[i],
{
    let mut out: Vec<Vec<char>> = Vec::new();
    out.push(chars_of("CON"));
    out.push(chars_of("PRN"));
    out.push(chars_of("AUX"));
    out.push(chars_of("NUL"));
    out.push(chars_of("COM1"));
    out.push(chars_of("COM2"));
    out.push(chars_of("COM3"));
    out.push(chars_of("COM4"));
    out.push(chars_of("COM5"));
    out.push(chars_of("COM6"));
    out.push(chars_of("COM7"));
    out.push(chars_of("COM8"));
    out.push(chars_of("COM9"));
    out.push(chars_of("LPT1"));
    out.push(chars_of("LPT2"));
    out.push(chars_of("LPT3"));
    out.push(chars_of("LPT4"));
    out.push(chars_of("LPT5"));
    out.push(chars_of("LPT6"));
    out.push(chars_of("LPT7"));
    out.push(chars_of("LPT8"));
    out.push(chars_of("LPT9"));
    out
}

fn prefix_before_dot(v: &Vec<char>) -> (out: Vec<char>)
    ensures
        out@ == before_first_dot(v@),
{
    let mut out: Vec<char> = Vec::new();
    let mut i: usize = 0;
    assert(v@.subrange(0, v.len() as int) == v@);
    while i < v.len() && v[i] != '.'
        invariant
            i <= v.len(),
            before_first_dot(v@) == out@ + before_first_dot(v@.subrange(i as int, v.len() as int)),
        decreases v.len() - i,
    {
        let ghost rest = v@.subrange(i as int, v.len() as int);
        assert(rest.subrange(1, rest.len() as int) == v@.subrange(i + 1, v.len() as int));
        assert(out@.push(v@[i as int]) + before_first_dot(v@.subrange(i + 1, v.len() as int))
            == out@ + (seq![v@[i as int]] + before_first_dot(
            v@.subrange(i + 1, v.len() as int),
        )));
        out.push(v[i]);
        i = i + 1;
    }
    assert(before_first_dot(v@.subrange(i as int, v.len() as int)) == Seq::<char>::empty());
    assert(out@ + Seq::<char>::empty() == out@);
    out
}

fn has_forbidden_char(v: &Vec<char>) -> (r: bool)
    ensures
        r == exists|i: int| 0 <= i < v@.len() && forbidden_in_filename(#[trigger] v@[i]),
{
    let mut i: usize = 0;
    while i < v.len()
        invariant
            i <= v.len(),
            forall|j: int| 0 <= j < i ==> !forbidden_in_filename(#[trigger] v@[j]),
        decreases v.len() - i,
    {
        let c = v[i];
        if c == '<' || c == '>' || c == ':' || c == '"' || c == '|' || c == '?' || c == '*' || c
            == '\0' || c == '/' || c == '\\' {
            return true;
        }
        i = i + 1;
    }
    false
}

fn is_reserved(stem: &Vec<char>) -> (r: bool)
    ensures
        r == reserved_device_names().contains(stem@),
{
    let names = reserved_names();
    let mut i: usize = 0;
    while i < names.len()
        invariant
            i <= names.len(),
            names@.len() == reserved_device_names().len(),
            forall|k: int|
                0 <= k < names@.len() ==> (#[trigger] names@[k])@ == reserved_device_names()[k],
            forall|k: int| 0 <= k < i ==> reserved_device_names()[k] != stem@,
        decreases names.len() - i,
    {
        if same_chars(&names[i], stem) {
            assert(reserved_device_names()[i as int] == stem@);
            return true;
        }
        i = i + 1;
    }
    false
}

/// Accepts a file name exactly when it is acceptable; every refusal is a
/// validation error.
pub fn validate_filename(filename: &str) -> (r: AppResult<()>)
    ensures
        r is Ok <==> acceptable_filename(filename@),
        r matches Err(e) ==> e is ValidationError,
        r matches Err(e) ==> e.spec_detail() == (if filename@.len() == 0 {
            "Filename cannot be empty"@
        } else if byte_len(filename@) > 255 {
            "Filename too long"@
        } else if exists|i: int|
            0 <= i < filename@.len() && forbidden_in_filename(#[trigger] filename@[i]) {
            "Filename contains invalid characters"@
        } else {
            "Filename is reserved"@
        }),
{
    if filename.is_empty() {
        return Err(validation_error("Filename cannot be empty"));
    }
    if filename.as_bytes().len() > 255 {
        return Err(validation_error("Filename too long"));
    }
    let v = chars_of(filename);
    if has_forbidden_char(&v) {
        return Err(validation_error("Filename contains invalid characters"));
    }
    let upper = to_uppercase(filename);
    let upper_chars = chars_of(upper.as_str());
    let stem = prefix_before_dot(&upper_chars);
    if is_reserved(&stem) {
        return Err(validation_error("Filename is reserved"));
    }
    Ok(())
}

/// The lowercase form of an ASCII capital letter; any other character
/// unchanged.
pub open spec fn ascii_lower(c: char) -> char {
    if 'A' <= c && c <= 'Z' {
        ((c as u8) + 32) as char
    } else {
        c
    }
}

/// Two texts are equal when ASCII capitals count as their small letters.
pub open spec fn equal_ignoring_ascii_case(a: Seq<char>, b: Seq<char>) -> bool {
    &&& a.len() == b.len()
    &&& forall|i: int| 0 <= i < a.len() ==> ascii_lower(#[trigger] a[i]) == ascii_lower(b[i])
}

/// The file extensions of the audio formats that are taken.
pub open spec fn audio_extensions() -> Seq<Seq<char>> {
    seq!["wav"@, "mp3"@, "m4a"@, "flac"@, "ogg"@]
}

/// An extension is supported when it equals one of the audio extensions,
/// ignoring ASCII case.
pub open spec fn supported_audio_extension(ext: Seq<char>) -> bool {
    exists|i: int|
        0 <= i < audio_extensions().len() && equal_ignoring_ascii_case(
            #[trigger] audio_extensions()[i],
            ext,
        )
}

fn lower_ascii(c: char) -> (out: char)
    ensures
        out == ascii_lower(c),
{
    if 'A' <= c && c <= 'Z' {
        ((c as u8) + 32) as char
    } else {
        c
    }
}

fn same_ignoring_ascii_case(a: &Vec<char>, b: &Vec<char>) -> (r: bool)
    ensures
        r == equal_ignoring_ascii_case(a@, b@),
{
    if a.len() != b.len() {
        return false;
    }
    let mut i: usize = 0;
    while i < a.len()
        invariant
            i <= a.len(),
            a.len() == b.len(),
            forall|j: int| 0 <= j < i ==> ascii_lower(#[trigger] a@[j]) == ascii_lower(b@[j]),
        decreases a.len() - i,
    {
        if lower_ascii(a[i]) != lower_ascii(b[i]) {
            return false;
        }
        i = i + 1;
    }
    true
}

/// Accepts the extension of an audio file: `Ok` exactly when there is an
/// extension and it is supported. A missing or unsupported extension is a
/// validation error.
pub fn validate_audio_extension(extension: Option<&str>) -> (r: AppResult<()>)
    ensures
        r is Ok <==> (extension matches Some(ext) && supported_audio_extension(ext@)),
        r matches Err(e) ==> e is ValidationError,
        r matches Err(e) ==> e.spec_detail() == (match extension {
            None => "File has no extension"@,
            Some(ext) => "Unsupported audio format: "@ + ext@,
        }),
{
    match extension {
        None => Err(validation_error("File has no extension")),
        Some(ext) => {
            let e = chars_of(ext);
            let allowed = audio_extension_list();
            let mut i: usize = 0;
            while i < allowed.len()
                invariant
                    i <= allowed.len(),
                    e@ == ext@,
                    extension == Some(ext),
                    allowed@.len() == audio_extensions().len(),
                    forall|k: int|
                        0 <= k < allowed@.len() ==> (#[trigger] allowed@[k])@
                            == audio_extensions()[k],
                    forall|k: int|
                        0 <= k < i ==> !equal_ignoring_ascii_case(
                            #[trigger] audio_extensions()[k],
                            ext@,
                        ),
                decreases allowed.len() - i,
            {
                if same_ignoring_ascii_case(&allowed[i], &e) {
                    assert(equal_ignoring_ascii_case(audio_extensions()[i as int], ext@));
                    return Ok(());
                }
                i = i + 1;
            }
            let message = join2("Unsupported audio format: ", ext);
            Err(AppError::ValidationError { message })
        },
    }
}

fn audio_extension_list() -> (out: Vec<Vec<char>>)
    ensures
        out@.len() == audio_extensions().len(),
        forall|i: int| 0 <= i < out@.len() ==> (#[trigger] out@[i])@ == audio_extensions()[i],
{
    let mut out: Vec<Vec<char>> = Vec::new();
    out.push(chars_of("wav"));
    out.push(chars_of("mp3"));
    out.push(chars_of("m4a"));
    out.push(chars_of("flac"));
    out.push(chars_of("ogg"));
    out
}

/// Accepts the audio file at `file_path` by its extension, as the system
/// reads it off the path, and as `validate_audio_extension` judges it.
///
/// A path is accepted only where a supported extension stands in it right
/// after a dot. A path without any dot has no extension and is refused for
/// that. Every refusal is a validation error: either for want of an
/// extension, or naming the unsupported extension that was read, which
/// stands in the path right after a dot.
pub fn validate_audio_format(file_path: &str) -> (r: AppResult<()>)
    ensures
        r is Ok ==> exists|ext: Seq<char>|
            follows_a_dot(file_path@, ext) && supported_audio_extension(ext),
        !file_path@.contains('.') ==> r is Err,
        r matches Err(e) ==> e is ValidationError,
        r matches Err(e) ==> (if !file_path@.contains('.') {
            e.spec_detail() == "File has no extension"@
        } else {
            e.spec_detail() == "File has no extension"@ || exists|ext: Seq<char>|
                follows_a_dot(file_path@, ext) && !supported_audio_extension(ext)
                    && e.spec_detail() == "Unsupported audio format: "@ + ext
        }),
{
    match path_extension(file_path) {
        Some(ext) => {
            proof {
                lemma_dot_before_extension(file_path@, ext@);
            }
            validate_audio_extension(Some(ext.as_str()))
        },
        None => validate_audio_extension(None),
    }
}

/// A path in which something stands right after a dot holds a dot.
proof fn lemma_dot_before_extension(path: Seq<char>, ext: Seq<char>)
    requires
        follows_a_dot(path, ext),
    ensures
        path.contains('.'),
{
    let pat = seq!['.'] + ext;
    let i = choose|i: int| occurs_at(path, pat, i);
    assert(path.subrange(i, i + pat.len())[0] == pat[0]);
    assert(path[i] == '.');
}

/// What the file system made of a path that is to be opened.
#[derive(Debug, Clone, PartialEq, Eq)]
pub enum PathResolution {
    /// The allowed directory does not resolve.
    AllowedDirectoryInvalid,
    /// The path is absolute, does not resolve, and has no parent.
    NoParent,
    /// The path is absolute, does not resolve, and its parent does not exist.
    ParentMissing,
    /// The path is absolute, does not resolve, and neither does its parent.
    ParentInvalid,
    /// The path is absolute, does not resolve, and names no file.
    NoFileName,
    /// The allowed directory and the path, both in resolved form: `allowed`
    /// as the file system resolves the directory; `canonical` an absolute
    /// path as the file system resolves it or its parent, a relative path
    /// joined to the resolved directory.
    Resolved { allowed: String, canonical: String },
}

/// Whether `c` parts the steps of a path as a user writes it: a slash or a
/// backslash.
pub open spec fn is_step_separator(c: char) -> bool {
    c == '/' || c == '\\'
}

/// A step `..` begins at position `i` of the path: two dots that stand
/// between separators or the ends of the text.
pub open spec fn parent_step_at(path: Seq<char>, i: int) -> bool {
    &&& 0 <= i
    &&& i + 2 <= path.len()
    &&& path[i] == '.'
    &&& path[i + 1] == '.'
    &&& (i == 0 || is_step_separator(path[i - 1]))
    &&& (i + 2 == path.len() || is_step_separator(path[i + 2]))
}

/// One of the steps of the path is `..`, the step to the parent directory.
pub open spec fn has_parent_step(path: Seq<char>) -> bool {
    exists|i: int| parent_step_at(path, i)
}

/// Whether `c` parts the steps of resolved paths that begin as `dir` does:
/// the slash alone where `dir` begins with one; the backslash too where it
/// begins with a drive or a prefix.
pub open spec fn parts_resolved(dir: Seq<char>, c: char) -> bool {
    if dir.len() > 0 && dir[0] == '/' {
        c == '/'
    } else {
        is_step_separator(c)
    }
}

/// The resolved path `path` is the resolved directory `dir` or lies under
/// it: it begins with the text of `dir`, and what follows, if anything,
/// begins a new step.
pub open spec fn lies_under(path: Seq<char>, dir: Seq<char>) -> bool {
    &&& dir.len() > 0
    &&& starts_with_seq(path, dir)
    &&& (path.len() == dir.len() || parts_resolved(dir, dir.last()) || parts_resolved(
        dir,
        path[dir.len() as int],
    ))
}

/// A path in its text is sound: not empty, of at most 1000 bytes, and
/// without a step to a parent directory.
pub open spec fn sound_path_text(file_path: Seq<char>) -> bool {
    file_path.len() > 0 && byte_len(file_path) <= 1000 && !has_parent_step(file_path)
}

fn is_separator(c: char) -> (b: bool)
    ensures
        b == is_step_separator(c),
{
    c == '/' || c == '\\'
}

/// Whether one of the steps of the path is `..`.
pub fn contains_parent_step(file_path: &str) -> (b: bool)
    ensures
        b == has_parent_step(file_path@),
{
    let path = chars_of(file_path);
    let n = path.len();
    let mut i: usize = 0;
    while i < n
        invariant
            n == path@.len(),
            path@ == file_path@,
            i <= n,
            forall|k: int| 0 <= k < i ==> !parent_step_at(path@, k),
        decreases n - i,
    {
        if n - i >= 2 && path[i] == '.' && path[i + 1] == '.' && (i == 0 || is_separator(
            path[i - 1],
        )) && (n - i == 2 || is_separator(path[i + 2])) {
            assert(parent_step_at(path@, i as int));
            return true;
        }
        i = i + 1;
    }
    false
}

/// Whether the resolved path is the resolved directory or lies under it.
pub fn is_inside(canonical: &str, allowed: &str) -> (b: bool)
    ensures
        b == lies_under(canonical@, allowed@),
{
    let path = chars_of(canonical);
    let dir = chars_of(allowed);
    if dir.len() == 0 || !matches_at(&path, &dir, 0) {
        return false;
    }
    if path.len() == dir.len() {
        return true;
    }
    let unix = dir[0] == '/';
    let last = dir[dir.len() - 1];
    let next = path[dir.len()];
    if unix {
        last == '/' || next == '/'
    } else {
        is_separator(last) || is_separator(next)
    }
}

/// Checks the text of a path before the file system is asked. Every
/// refusal is `InvalidPath`: for an empty path, for one of more than 1000
/// bytes, and for one with a step to the parent directory.
pub fn check_path_text(file_path: &str) -> (r: AppResult<()>)
    ensures
        r is Ok <==> sound_path_text(file_path@),
        r matches Err(e) ==> e is InvalidPath && e.spec_detail() == (if file_path@.len() == 0 {
            "File path cannot be empty"@
        } else if byte_len(file_path@) > 1000 {
            "File path too long"@
        } else {
            "Path traversal detected"@
        }),
{
    if file_path.is_empty() {
        return Err(AppError::InvalidPath { message: "File path cannot be empty".to_owned() });
    }
    if file_path.as_bytes().len() > 1000 {
        return Err(AppError::InvalidPath { message: "File path too long".to_owned() });
    }
    if contains_parent_step(file_path) {
        return Err(AppError::InvalidPath { message: "Path traversal detected".to_owned() });
    }
    Ok(())
}

/// Accepts or refuses a path that is to be opened under an allowed
/// directory, given what the file system made of the two.
///
/// The text of the path is checked first, as `check_path_text` does. Then a
/// path that could not be resolved is `InvalidPath`, and a resolved path
/// that does not lie under the resolved directory is `PermissionDenied`. A
/// resolved path under it is returned.
pub fn validate_file_path(file_path: &str, resolution: PathResolution) -> (r: AppResult<String>)
    ensures
        r is Ok <==> sound_path_text(file_path@) && (
        resolution matches PathResolution::Resolved { allowed, canonical } && lies_under(
            canonical@,
            allowed@,
        )),
        r matches Ok(path) ==> (resolution matches PathResolution::Resolved { canonical, .. }
            && path == canonical),
        r matches Err(e) ==> (if !sound_path_text(file_path@) {
            e is InvalidPath
        } else if resolution is Resolved {
            e is PermissionDenied
        } else {
            e is InvalidPath
        }),
{
    match check_path_text(file_path) {
        Ok(()) => {},
        Err(e) => {
            return Err(e);
        },
    }
    match resolution {
        PathResolution::AllowedDirectoryInvalid => Err(
            AppError::InvalidPath { message: "Invalid allowed directory".to_owned() },
        ),
        PathResolution::NoParent => Err(
            AppError::InvalidPath { message: "Invalid path structure".to_owned() },
        ),
        PathResolution::ParentMissing => Err(
            AppError::InvalidPath { message: "Parent directory does not exist".to_owned() },
        ),
        PathResolution::ParentInvalid => Err(
            AppError::InvalidPath { message: "Invalid parent directory".to_owned() },
        ),
        PathResolution::NoFileName => Err(
            AppError::InvalidPath { message: "Invalid filename".to_owned() },
        ),
        PathResolution::Resolved { allowed, canonical } => {
            if is_inside(canonical.as_str(), allowed.as_str()) {
                Ok(canonical)
            } else {
                Err(
                    AppError::PermissionDenied {
                        message: "Path outside allowed directory".to_owned(),
                    },
                )
            }
        },
    }
}

/// The number of bytes in a mebibyte.
pub const BYTES_PER_MB: u64 = 1048576;

/// Checks the size of a file against a limit in mebibytes. A missing file is
/// `FileNotFound` with its path. A file larger than the limit is a validation
/// error; one of exactly the limit passes.
pub fn validate_file_size(file_path: &str, exists: bool, file_size: u64, max_size_mb: u64) -> (r:
    AppResult<()>)
    ensures
        r is Ok <==> exists && file_size <= max_size_mb * BYTES_PER_MB,
        !exists ==> (r matches Err(AppError::FileNotFound { path }) && path@ == file_path@),
        exists && file_size > max_size_mb * BYTES_PER_MB ==> (r matches Err(e)
            && e is ValidationError),
{
    if !exists {
        return Err(AppError::FileNotFound { path: file_path.to_owned() });
    }
    let limit: u128 = (max_size_mb as u128) * 1048576u128;
    if (file_size as u128) > limit {
        let size_mb = decimal(file_size / BYTES_PER_MB);
        let max = decimal(max_size_mb);
        let head = join3("File too large: ", size_mb.as_str(), " MB (max: ");
        let message = join3(head.as_str(), max.as_str(), " MB)");
        return Err(AppError::ValidationError { message });
    }
    Ok(())
}

} // verus!
