//! Speech recognition with a recognition engine on this machine, run as a
//! child process per recording.
//!
//! The service decides what to run and what to make of the outcome; the
//! caller runs the processes and looks at the disk.

use crate::errors::{AppError, AppResult, ErrorKind};
use crate::models::{Transcription, TranscriptionStatus};
use crate::platform::{join_path, plain_name};
use crate::text::{ends_with_seq, texts};
use crate::services::transcript::{cleaned, postprocess_transcript};
use crate::services::whisper::fallback_text;
use crate::services::whisper_script::{
    DOWNLOAD_AFTER_LOAD, DOWNLOAD_BEFORE_ERROR, DOWNLOAD_BEFORE_LOAD, DOWNLOAD_CLOSING,
    DOWNLOAD_OPENING, JAPANESE_OPTIONS, SCRIPT_AFTER_MODEL, SCRIPT_AFTER_MODEL_NOTE,
    SCRIPT_AFTER_OPTIONS, SCRIPT_AFTER_PATH, SCRIPT_BETWEEN_OPTIONS, SCRIPT_CLOSING,
    SCRIPT_OPENING,
};
use crate::text::{decimal, decimal_seq, join2, join3, same_text, trim, trim_seq};
use crate::wav::{silent_wav, silent_wav_bytes};
use vstd::prelude::*;
use vstd::string::StringExecFns;

verus! {

/// The largest audio file that is taken, in bytes: 500 MB.
pub const MAX_FILE_SIZE: u64 = 524288000;

/// The smallest audio file that is taken, in bytes: 1 KB.
pub const MIN_FILE_SIZE: u64 = 1024;

/// The confidence of a local transcription, in thousandths.
pub const CONFIDENCE: u16 = 950;

/// The language that is assumed where none is named.
pub const DEFAULT_LANGUAGE: &'static str = "ja";

/// The interpreter that is run where none was found at a known place.
pub const DEFAULT_PYTHON: &'static str = "python3";

/// The interpreter that is tried where the first does not answer.
pub const FALLBACK_PYTHON: &'static str = "python";

/// The model that is used where none is named.
pub const DEFAULT_MODEL_SIZE: &'static str = "small";

/// The longest that a child process may run, in seconds.
pub const RUN_TIMEOUT_SECONDS: u64 = 1800;

/// What stands for the reason where a process was stopped at the time limit.
pub const TIMED_OUT: &'static str = "timed out";

/// The transcript of a recording in which the engine heard nothing.
pub const SILENT_TRANSCRIPT: &'static str = "（無音または認識できない音声）";

/// What a child process left behind.
#[derive(Debug, Clone, PartialEq, Eq)]
pub struct ProcessOutput {
    /// Whether the process ended with status zero.
    pub success: bool,
    pub stdout: String,
    pub stderr: String,
}

/// What became of the attempt to run a child process.
#[derive(Debug, Clone, PartialEq, Eq)]
pub enum RunOutcome {
    /// The process ran and ended.
    Exited(ProcessOutput),
    /// The process could not be started; the text says why.
    SpawnFailed(String),
    /// The process was stopped because it ran longer than the time limit.
    TimedOut,
}

impl RunOutcome {
    /// The process ran and ended with status zero.
    pub open spec fn succeeded(&self) -> bool {
        self matches RunOutcome::Exited(o) && o.success
    }

    /// Whether the process ran and ended with status zero.
    #[verifier::when_used_as_spec(succeeded)]
    pub fn is_success(&self) -> (b: bool)
        ensures
            b == self.succeeded(),
    {
        match self {
            RunOutcome::Exited(o) => o.success,
            _ => false,
        }
    }

    /// Why the process did not run to its end: the reason that it could not
    /// be started, or that it was stopped at the time limit; nothing for a
    /// process that ended.
    pub open spec fn cause(&self) -> Seq<char> {
        match self {
            RunOutcome::Exited(_) => Seq::empty(),
            RunOutcome::SpawnFailed(reason) => reason@,
            RunOutcome::TimedOut => TIMED_OUT@,
        }
    }

    /// Why the process did not run to its end.
    pub fn cause_text(&self) -> (reason: String)
        ensures
            reason@ == self.cause(),
    {
        match self {
            RunOutcome::Exited(_) => {
                proof {
                    reveal_strlit("");
                }
                "".to_owned()
            },
            RunOutcome::SpawnFailed(reason) => reason.clone(),
            RunOutcome::TimedOut => TIMED_OUT.to_owned(),
        }
    }
}

/// A program to run as `program -c script`, for at most so many seconds.
#[derive(Debug, Clone, PartialEq, Eq)]
pub struct Invocation {
    pub program: String,
    pub script: String,
    pub timeout_seconds: u64,
}

/// Where the bootstrap of the engine stands.
#[derive(Debug, Clone, Copy, PartialEq, Eq, Structural)]
pub enum InitPhase {
    /// Nothing was tried yet.
    Idle,
    /// Asking the interpreter for its version.
    CheckingRuntime,
    /// Asking the fallback interpreter for its version.
    CheckingFallbackRuntime,
    /// Asking whether the recognition library can be imported.
    CheckingLibrary,
    /// Installing the package at `index` of the list of packages.
    Installing { index: usize },
    /// Looking for the model file.
    LocatingModel,
    /// Downloading the model.
    DownloadingModel,
    /// The engine can be used.
    Ready,
    /// The bootstrap failed; it may be tried again.
    Failed,
}

/// What to do next in the bootstrap.
#[derive(Debug, Clone, PartialEq, Eq)]
pub enum InitCommand {
    /// Run `program --version`.
    ProbeRuntime { program: String },
    /// Run `program -c` with the import test.
    ProbeLibrary { program: String },
    /// Run `program -m pip install package --user`.
    Install { program: String, package: String },
    /// Say whether `file_name` is in the model cache.
    LocateModel { file_name: String },
    /// Write the silent probe file, run `program -c script`, remove the file.
    DownloadModel { program: String, script: String },
    /// The engine is ready; there is nothing to do.
    Done,
    /// The bootstrap failed with this error.
    Fail(AppError),
}

/// A command with its texts as sequences of characters, and of an error only
/// its class and its detail.
pub enum CommandView {
    ProbeRuntime { program: Seq<char> },
    ProbeLibrary { program: Seq<char> },
    Install { program: Seq<char>, package: Seq<char> },
    LocateModel { file_name: Seq<char> },
    DownloadModel { program: Seq<char>, script: Seq<char> },
    Done,
    Fail { kind: ErrorKind, detail: Seq<char> },
}

impl View for InitCommand {
    type V = CommandView;

    open spec fn view(&self) -> CommandView {
        match self {
            InitCommand::ProbeRuntime { program } => CommandView::ProbeRuntime { program: program@ },
            InitCommand::ProbeLibrary { program } => CommandView::ProbeLibrary { program: program@ },
            InitCommand::Install { program, package } => CommandView::Install {
                program: program@,
                package: package@,
            },
            InitCommand::LocateModel { file_name } => CommandView::LocateModel {
                file_name: file_name@,
            },
            InitCommand::DownloadModel { program, script } => CommandView::DownloadModel {
                program: program@,
                script: script@,
            },
            InitCommand::Done => CommandView::Done,
            InitCommand::Fail(e) => CommandView::Fail {
                kind: e.spec_kind(),
                detail: e.spec_detail(),
            },
        }
    }
}

/// What the bootstrap is told of the outside.
#[derive(Debug, Clone, PartialEq, Eq)]
pub enum InitEvent {
    /// The process of the last command ran, or could not be started.
    Ran(RunOutcome),
    /// Whether the model file is in the cache.
    FileExists(bool),
}

/// The event says that a process ran and ended well.
pub open spec fn ended_well(event: InitEvent) -> bool {
    event matches InitEvent::Ran(o) && o.succeeded()
}

/// The packages that the bootstrap installs, the recognition library first.
/// Only the first is needed; the others improve the sound before
/// recognition.
pub open spec fn install_packages() -> Seq<Seq<char>> {
    seq!["openai-whisper"@, "librosa"@, "soundfile"@, "numpy"@]
}

/// The program that tests whether the recognition library can be imported.
pub const LIBRARY_PROBE: &'static str = "import whisper; print('whisper available')";

/// The name of the model file in the cache.
pub open spec fn model_file_name(model_size: Seq<char>) -> Seq<char> {
    model_size + ".pt"@
}

/// The program that loads a model, and downloads it first where the cache
/// does not hold it.
pub open spec fn model_load_script(model_size: Seq<char>) -> Seq<char> {
    "import whisper; model = whisper.load_model('"@ + model_size
        + "'); print('Model loaded')"@
}

/// The text that a failed process wrote to its error stream; nothing for a
/// process that did not run to its end.
pub open spec fn stderr_of(outcome: RunOutcome) -> Seq<char> {
    match outcome {
        RunOutcome::Exited(o) => o.stderr@,
        _ => Seq::empty(),
    }
}

/// The course of the bootstrap: the phase and the command that follow
/// `event` in `phase`, for the interpreter `python` and the model
/// `model_size`.
///
/// The interpreter is asked for its version, then the fallback interpreter;
/// without either the bootstrap fails. The library is imported; where that
/// fails, the packages are installed in turn, and only a failure of the
/// first, or a process that does not run to its end, ends the bootstrap. The model
/// is looked for and, where it is missing, downloaded. An event that the
/// phase does not wait for ends the bootstrap in a state conflict.
pub open spec fn init_course(
    python: Seq<char>,
    model_size: Seq<char>,
    phase: InitPhase,
    event: InitEvent,
) -> (InitPhase, CommandView) {
    match (phase, event) {
        (InitPhase::CheckingRuntime, InitEvent::Ran(outcome)) => if outcome.succeeded() {
            (InitPhase::CheckingLibrary, CommandView::ProbeLibrary { program: python })
        } else {
            (
                InitPhase::CheckingFallbackRuntime,
                CommandView::ProbeRuntime { program: FALLBACK_PYTHON@ },
            )
        },
        (InitPhase::CheckingFallbackRuntime, InitEvent::Ran(outcome)) => if outcome.succeeded() {
            (InitPhase::CheckingLibrary, CommandView::ProbeLibrary { program: python })
        } else {
            (
                InitPhase::Failed,
                CommandView::Fail {
                    kind: ErrorKind::ResourceUnavailable,
                    detail: "Python not found. Please install Python 3.8 or later."@,
                },
            )
        },
        (InitPhase::CheckingLibrary, InitEvent::Ran(outcome)) => if outcome.succeeded() {
            (
                InitPhase::LocatingModel,
                CommandView::LocateModel { file_name: model_file_name(model_size) },
            )
        } else {
            (
                InitPhase::Installing { index: 0 },
                CommandView::Install { program: python, package: install_packages()[0] },
            )
        },
        (InitPhase::Installing { index }, InitEvent::Ran(outcome)) => if index
            >= install_packages().len() {
            (
                InitPhase::Failed,
                CommandView::Fail {
                    kind: ErrorKind::StateConflict,
                    detail: "Unexpected event for the bootstrap"@,
                },
            )
        } else if !(outcome is Exited) {
            (
                InitPhase::Failed,
                CommandView::Fail {
                    kind: ErrorKind::ResourceUnavailable,
                    detail: "Failed to install "@ + install_packages()[index as int] + ": "@
                        + outcome.cause(),
                },
            )
        } else if index == 0 && !outcome.succeeded() {
            (
                InitPhase::Failed,
                CommandView::Fail {
                    kind: ErrorKind::ResourceUnavailable,
                    detail: "Whisper installation failed: "@ + stderr_of(outcome),
                },
            )
        } else if index + 1 < install_packages().len() {
            (
                InitPhase::Installing { index: (index + 1) as usize },
                CommandView::Install {
                    program: python,
                    package: install_packages()[index + 1],
                },
            )
        } else {
            (
                InitPhase::LocatingModel,
                CommandView::LocateModel { file_name: model_file_name(model_size) },
            )
        },
        (InitPhase::LocatingModel, InitEvent::FileExists(found)) => if found {
            (InitPhase::Ready, CommandView::Done)
        } else {
            (
                InitPhase::DownloadingModel,
                CommandView::DownloadModel {
                    program: python,
                    script: model_load_script(model_size),
                },
            )
        },
        (InitPhase::DownloadingModel, InitEvent::Ran(outcome)) => if outcome.succeeded() {
            (InitPhase::Ready, CommandView::Done)
        } else if !(outcome is Exited) {
            (
                InitPhase::Failed,
                CommandView::Fail {
                    kind: ErrorKind::ResourceUnavailable,
                    detail: "Failed to download model: "@ + outcome.cause(),
                },
            )
        } else {
            (
                InitPhase::Failed,
                CommandView::Fail {
                    kind: ErrorKind::ResourceUnavailable,
                    detail: "Model download failed: "@ + stderr_of(outcome),
                },
            )
        },
        _ => (
            InitPhase::Failed,
            CommandView::Fail {
                kind: ErrorKind::StateConflict,
                detail: "Unexpected event for the bootstrap"@,
            },
        ),
    }
}

/// The first step of a bootstrap: nothing where the engine is ready, else
/// the test of the interpreter.
pub open spec fn init_opening(python: Seq<char>, phase: InitPhase) -> (InitPhase, CommandView) {
    if phase == InitPhase::Ready {
        (InitPhase::Ready, CommandView::Done)
    } else {
        (InitPhase::CheckingRuntime, CommandView::ProbeRuntime { program: python })
    }
}

/// The recognition service.
#[derive(Debug, Clone, PartialEq, Eq)]
pub struct WhisperService {
    model_path: String,
    recordings_dir: String,
    python_path: Option<String>,
    whisper_command: String,
    phase: InitPhase,
    model_size: String,
}

/// The places where an interpreter is looked for, in order.
pub open spec fn python_candidates() -> Seq<Seq<char>> {
    seq![
        "/usr/bin/python3"@,
        "/usr/local/bin/python3"@,
        "/opt/homebrew/bin/python3"@,
        "/usr/bin/python"@,
        "/usr/local/bin/python"@,
    ]
}

/// The places where an interpreter is looked for, in order.
pub fn python_search_paths() -> (out: Vec<String>)
    ensures
        texts(out@) == python_candidates(),
{
    let mut out: Vec<String> = Vec::new();
    out.push("/usr/bin/python3".to_owned());
    out.push("/usr/local/bin/python3".to_owned());
    out.push("/opt/homebrew/bin/python3".to_owned());
    out.push("/usr/bin/python".to_owned());
    out.push("/usr/local/bin/python".to_owned());
    assert(texts(out@) == python_candidates());
    out
}

/// The first place at which an interpreter was found: `present[i]` says
/// whether the file at place `i` exists. Places without an answer count as
/// empty.
pub fn detect_python_path(present: &Vec<bool>) -> (r: Option<String>)
    ensures
        match r {
            Some(p) => exists|i: int|
                0 <= i < python_candidates().len() && i < present@.len() && present@[i] && p@
                    == python_candidates()[i] && forall|j: int| 0 <= j < i ==> !present@[j],
            None => forall|j: int|
                0 <= j < python_candidates().len() && j < present@.len() ==> !present@[j],
        },
{
    let paths = python_search_paths();
    let mut i: usize = 0;
    while i < paths.len() && i < present.len()
        invariant
            i <= paths.len(),
            i <= present.len(),
            texts(paths@) == python_candidates(),
            forall|j: int| 0 <= j < i ==> !present@[j],
        decreases paths.len() - i,
    {
        if present[i] {
            assert(texts(paths@)[i as int] == paths@[i as int]@);
            return Some(paths[i].clone());
        }
        i = i + 1;
    }
    assert(texts(paths@).len() == paths@.len());
    None
}

/// The languages that the engine is asked for.
pub open spec fn languages() -> Seq<Seq<char>> {
    seq![
        "ja"@,
        "en"@,
        "zh"@,
        "ko"@,
        "es"@,
        "fr"@,
        "de"@,
        "it"@,
        "pt"@,
        "ru"@,
        "ar"@,
        "hi"@,
    ]
}

/// The models of the engine, smallest first.
pub open spec fn models() -> Seq<Seq<char>> {
    seq!["tiny"@, "base"@, "small"@, "medium"@, "large"@]
}

/// The sizes of the models as the engine's makers give them.
pub open spec fn model_estimates() -> Seq<Seq<char>> {
    seq!["~39MB"@, "~142MB"@, "~461MB"@, "~1.5GB"@, "~2.9GB"@]
}

/// One model in the list of models.
#[derive(Debug, Clone, PartialEq, Eq)]
pub struct ModelListing {
    pub name: String,
    pub size: String,
    pub downloaded: bool,
}

/// The size of the file of model `i`, where the caller found it.
pub open spec fn cached_size(file_sizes: Seq<Option<u64>>, i: int) -> Option<u64> {
    if 0 <= i < file_sizes.len() {
        file_sizes[i]
    } else {
        None
    }
}

/// The options that a transcription in `language` is run with.
pub open spec fn transcribe_options(language: Seq<char>) -> Seq<char> {
    if language == DEFAULT_LANGUAGE@ {
        JAPANESE_OPTIONS@
    } else {
        "language='"@ + language + "', temperature=0.2, best_of=1, beam_size=1"@
    }
}

/// The program that transcribes the file at `audio_path` in `language` with
/// the model `model_size`: the fixed text with the path, the model, the
/// options and the language in its holes.
pub open spec fn whisper_script(
    audio_path: Seq<char>,
    model_size: Seq<char>,
    language: Seq<char>,
) -> Seq<char> {
    SCRIPT_OPENING@ + audio_path + SCRIPT_AFTER_PATH@ + model_size + SCRIPT_AFTER_MODEL_NOTE@
        + model_size + SCRIPT_AFTER_MODEL@ + transcribe_options(language) + SCRIPT_BETWEEN_OPTIONS@
        + transcribe_options(language) + SCRIPT_AFTER_OPTIONS@ + language + SCRIPT_CLOSING@
}

/// The program that downloads the model `model_name`.
pub open spec fn download_script(model_name: Seq<char>) -> Seq<char> {
    DOWNLOAD_OPENING@ + model_name + DOWNLOAD_BEFORE_LOAD@ + model_name + DOWNLOAD_AFTER_LOAD@
        + model_name + DOWNLOAD_BEFORE_ERROR@ + model_name + DOWNLOAD_CLOSING@
}

/// The language of a request: the one named, or Japanese.
pub open spec fn language_or_default(language: Option<String>) -> Seq<char> {
    match language {
        Some(l) => l@,
        None => DEFAULT_LANGUAGE@,
    }
}

/// The transcript that the output of the engine stands for: the output
/// without whitespace at its ends, cleaned as a transcript in `language`; or
/// the silent transcript where the output holds nothing but whitespace.
pub open spec fn transcript_of(stdout: Seq<char>, language: Seq<char>) -> Seq<char> {
    if trim_seq(stdout).len() == 0 {
        SILENT_TRANSCRIPT@
    } else {
        cleaned(trim_seq(stdout), language)
    }
}

/// Whether a file of this size is taken: at least 1 KB and at most 500 MB.
pub open spec fn size_accepted(file_size: u64) -> bool {
    MIN_FILE_SIZE <= file_size <= MAX_FILE_SIZE
}

fn language_text(language: &Option<String>) -> (out: String)
    ensures
        out@ == language_or_default(*language),
{
    match language {
        Some(l) => l.clone(),
        None => DEFAULT_LANGUAGE.to_owned(),
    }
}

impl WhisperService {
    /// Where the bootstrap stands.
    pub closed spec fn phase(&self) -> InitPhase {
        self.phase
    }

    /// The model in use.
    pub closed spec fn model(&self) -> Seq<char> {
        self.model_size@
    }

    /// The interpreter that is run: the one that was found, or `python3`.
    pub closed spec fn python(&self) -> Seq<char> {
        match self.python_path {
            Some(p) => p@,
            None => DEFAULT_PYTHON@,
        }
    }

    /// The directory of the recordings.
    pub closed spec fn directory(&self) -> Seq<char> {
        self.recordings_dir@
    }

    /// Whether the engine is ready.
    pub open spec fn spec_is_initialized(&self) -> bool {
        self.phase() == InitPhase::Ready
    }

    /// A service for the model `small`, with the interpreter found on the
    /// search path of the system. Nothing is set up yet.
    pub fn new(model_path: String, recordings_dir: String) -> (s: Self)
        ensures
            s.phase() == InitPhase::Idle,
            s.model() == DEFAULT_MODEL_SIZE@,
            s.python() == DEFAULT_PYTHON@,
            s.directory() == recordings_dir@,
    {
        WhisperService::configured(model_path, recordings_dir, None, None, None)
    }

    /// A service with what the environment asks for: the model, the place of
    /// the interpreter, and the name of the engine's command. Each falls back
    /// to its default where it is not given.
    pub fn configured(
        model_path: String,
        recordings_dir: String,
        model_size: Option<String>,
        python_path: Option<String>,
        whisper_command: Option<String>,
    ) -> (s: Self)
        ensures
            s.phase() == InitPhase::Idle,
            s.model() == (match model_size {
                Some(m) => m@,
                None => DEFAULT_MODEL_SIZE@,
            }),
            s.python() == (match python_path {
                Some(p) => p@,
                None => DEFAULT_PYTHON@,
            }),
            s.directory() == recordings_dir@,
    {
        let model_size = match model_size {
            Some(m) => m,
            None => DEFAULT_MODEL_SIZE.to_owned(),
        };
        let whisper_command = match whisper_command {
            Some(c) => c,
            None => "whisper".to_owned(),
        };
        WhisperService {
            model_path,
            recordings_dir,
            python_path,
            whisper_command,
            phase: InitPhase::Idle,
            model_size,
        }
    }

    /// The interpreter that is run.
    pub fn python_command(&self) -> (out: String)
        ensures
            out@ == self.python(),
    {
        match &self.python_path {
            Some(p) => p.clone(),
            None => DEFAULT_PYTHON.to_owned(),
        }
    }

    /// Whether the engine is ready.
    #[verifier::when_used_as_spec(spec_is_initialized)]
    pub fn is_initialized(&self) -> (b: bool)
        ensures
            b == self.spec_is_initialized(),
    {
        match self.phase {
            InitPhase::Ready => true,
            _ => false,
        }
    }

    /// Begins the bootstrap. A ready service stays ready and has nothing to
    /// do. Any other service starts over with the test of the interpreter.
    /// Nothing else of the service changes.
    pub fn initialize(&mut self) -> (command: InitCommand)
        ensures
            (final(self).phase(), command@) == init_opening(old(self).python(), old(self).phase()),
            final(self).model() == old(self).model(),
            final(self).python() == old(self).python(),
            final(self).directory() == old(self).directory(),
            old(self).spec_is_initialized() ==> *final(self) == *old(self),
    {
        if self.is_initialized() {
            return InitCommand::Done;
        }
        self.phase = InitPhase::CheckingRuntime;
        InitCommand::ProbeRuntime { program: self.python_command() }
    }

    /// Takes the bootstrap one step further with what the last command
    /// brought. Phase and command follow `init_course`; nothing else of the
    /// service changes.
    pub fn advance_initialize(&mut self, event: InitEvent) -> (command: InitCommand)
        ensures
            (final(self).phase(), command@) == init_course(
                old(self).python(),
                old(self).model(),
                old(self).phase(),
                event,
            ),
            final(self).model() == old(self).model(),
            final(self).python() == old(self).python(),
            final(self).directory() == old(self).directory(),
    {
        let phase = self.phase;
        match phase {
            InitPhase::CheckingRuntime => match event {
                InitEvent::Ran(outcome) => if outcome.is_success() {
                    self.phase = InitPhase::CheckingLibrary;
                    InitCommand::ProbeLibrary { program: self.python_command() }
                } else {
                    self.phase = InitPhase::CheckingFallbackRuntime;
                    InitCommand::ProbeRuntime { program: FALLBACK_PYTHON.to_owned() }
                },
                _ => self.fail_unexpected(),
            },
            InitPhase::CheckingFallbackRuntime => match event {
                InitEvent::Ran(outcome) => if outcome.is_success() {
                    self.phase = InitPhase::CheckingLibrary;
                    InitCommand::ProbeLibrary { program: self.python_command() }
                } else {
                    self.phase = InitPhase::Failed;
                    InitCommand::Fail(
                        AppError::ResourceUnavailable {
                            message: "Python not found. Please install Python 3.8 or later.".to_owned(),
                        },
                    )
                },
                _ => self.fail_unexpected(),
            },
            InitPhase::CheckingLibrary => match event {
                InitEvent::Ran(outcome) => if outcome.is_success() {
                    self.locate_model()
                } else {
                    self.install(0)
                },
                _ => self.fail_unexpected(),
            },
            InitPhase::Installing { index } => match event {
                InitEvent::Ran(outcome) => {
                    let packages = package_list();
                    if index >= packages.len() {
                        return self.fail_unexpected();
                    }
                    assert(packages@[index as int]@ == install_packages()[index as int]);
                    match outcome {
                        RunOutcome::SpawnFailed(_) | RunOutcome::TimedOut => {
                            self.phase = InitPhase::Failed;
                            let head = join3("Failed to install ", packages[index].as_str(), ": ");
                            InitCommand::Fail(
                                AppError::ResourceUnavailable {
                                    message: join2(head.as_str(), outcome.cause_text().as_str()),
                                },
                            )
                        },
                        RunOutcome::Exited(output) => {
                            if index == 0 && !output.success {
                                self.phase = InitPhase::Failed;
                                InitCommand::Fail(
                                    AppError::ResourceUnavailable {
                                        message: join2(
                                            "Whisper installation failed: ",
                                            output.stderr.as_str(),
                                        ),
                                    },
                                )
                            } else if index + 1 < packages.len() {
                                self.install(index + 1)
                            } else {
                                self.locate_model()
                            }
                        },
                    }
                },
                _ => self.fail_unexpected(),
            },
            InitPhase::LocatingModel => match event {
                InitEvent::FileExists(found) => if found {
                    self.phase = InitPhase::Ready;
                    InitCommand::Done
                } else {
                    self.phase = InitPhase::DownloadingModel;
                    InitCommand::DownloadModel {
                        program: self.python_command(),
                        script: join3(
                            "import whisper; model = whisper.load_model('",
                            self.model_size.as_str(),
                            "'); print('Model loaded')",
                        ),
                    }
                },
                _ => self.fail_unexpected(),
            },
            InitPhase::DownloadingModel => match event {
                InitEvent::Ran(outcome) => match outcome {
                    RunOutcome::SpawnFailed(_) | RunOutcome::TimedOut => {
                        self.phase = InitPhase::Failed;
                        InitCommand::Fail(
                            AppError::ResourceUnavailable {
                                message: join2(
                                    "Failed to download model: ",
                                    outcome.cause_text().as_str(),
                                ),
                            },
                        )
                    },
                    RunOutcome::Exited(output) => if output.success {
                        self.phase = InitPhase::Ready;
                        InitCommand::Done
                    } else {
                        self.phase = InitPhase::Failed;
                        InitCommand::Fail(
                            AppError::ResourceUnavailable {
                                message: join2("Model download failed: ", output.stderr.as_str()),
                            },
                        )
                    },
                },
                _ => self.fail_unexpected(),
            },
            _ => self.fail_unexpected(),
        }
    }

    fn fail_unexpected(&mut self) -> (command: InitCommand)
        ensures
            final(self).phase() == InitPhase::Failed,
            command@ == (CommandView::Fail {
                kind: ErrorKind::StateConflict,
                detail: "Unexpected event for the bootstrap"@,
            }),
            final(self).model() == old(self).model(),
            final(self).python() == old(self).python(),
            final(self).directory() == old(self).directory(),
    {
        self.phase = InitPhase::Failed;
        InitCommand::Fail(
            AppError::StateConflict { message: "Unexpected event for the bootstrap".to_owned() },
        )
    }

    fn locate_model(&mut self) -> (command: InitCommand)
        ensures
            final(self).phase() == InitPhase::LocatingModel,
            command@ == (CommandView::LocateModel {
                file_name: model_file_name(old(self).model()),
            }),
            final(self).model() == old(self).model(),
            final(self).python() == old(self).python(),
            final(self).directory() == old(self).directory(),
    {
        self.phase = InitPhase::LocatingModel;
        InitCommand::LocateModel { file_name: join2(self.model_size.as_str(), ".pt") }
    }

    fn install(&mut self, index: usize) -> (command: InitCommand)
        requires
            index < install_packages().len(),
        ensures
            final(self).phase() == (InitPhase::Installing { index }),
            command@ == (CommandView::Install {
                program: old(self).python(),
                package: install_packages()[index as int],
            }),
            final(self).model() == old(self).model(),
            final(self).python() == old(self).python(),
            final(self).directory() == old(self).directory(),
    {
        let packages = package_list();
        assert(packages@[index as int]@ == install_packages()[index as int]);
        self.phase = InitPhase::Installing { index };
        InitCommand::Install { program: self.python_command(), package: packages[index].clone() }
    }

    /// Checks a request to transcribe the file at `audio_path`, of which the
    /// caller says whether it exists and how large it is.
    ///
    /// In this order: a service that is not ready refuses; a missing file is
    /// `FileNotFound` with its path; a file of more than 500 MB, and one of
    /// less than 1 KB, is a validation error. A file of exactly 500 MB and
    /// one of exactly 1 KB pass.
    pub fn check_audio_file(&self, audio_path: &str, exists: bool, file_size: u64) -> (r:
        AppResult<()>)
        ensures
            r is Ok <==> self.spec_is_initialized() && exists && size_accepted(file_size),
            r matches Err(e) ==> (if !self.spec_is_initialized() {
                e is NotInitialized
            } else if !exists {
                e matches AppError::FileNotFound { path } && path@ == audio_path@
            } else {
                e is ValidationError
            }),
    {
        if !self.is_initialized() {
            return Err(
                AppError::NotInitialized {
                    message: "Whisper service is not initialized. Call initialize() first.".to_owned(),
                },
            );
        }
        if !exists {
            return Err(AppError::FileNotFound { path: audio_path.to_owned() });
        }
        if file_size > MAX_FILE_SIZE {
            return Err(
                AppError::ValidationError {
                    message: "Audio file too large. Maximum size is 500MB for local processing.".to_owned(),
                },
            );
        }
        if file_size < MIN_FILE_SIZE {
            return Err(
                AppError::ValidationError {
                    message: "Audio file too small. Minimum size is 1KB.".to_owned(),
                },
            );
        }
        Ok(())
    }

    /// The program that transcribes the file at `audio_path`, in `language`
    /// or, where none is named, in Japanese.
    pub fn create_whisper_script(&self, audio_path: &str, language: Option<&str>) -> (r: AppResult<
        String,
    >)
        ensures
            r matches Ok(script) && script@ == whisper_script(
                audio_path@,
                self.model(),
                match language {
                    Some(l) => l@,
                    None => DEFAULT_LANGUAGE@,
                },
            ),
    {
        let language: &str = match language {
            Some(l) => l,
            None => DEFAULT_LANGUAGE,
        };
        let options: String = if same_text(language, DEFAULT_LANGUAGE) {
            JAPANESE_OPTIONS.to_owned()
        } else {
            join3("language='", language, "', temperature=0.2, best_of=1, beam_size=1")
        };
        let mut script = SCRIPT_OPENING.to_owned();
        script.append(audio_path);
        script.append(SCRIPT_AFTER_PATH);
        script.append(self.model_size.as_str());
        script.append(SCRIPT_AFTER_MODEL_NOTE);
        script.append(self.model_size.as_str());
        script.append(SCRIPT_AFTER_MODEL);
        script.append(options.as_str());
        script.append(SCRIPT_BETWEEN_OPTIONS);
        script.append(options.as_str());
        script.append(SCRIPT_AFTER_OPTIONS);
        script.append(language);
        script.append(SCRIPT_CLOSING);
        Ok(script)
    }

    /// Accepts or refuses a request to transcribe, as `check_audio_file`
    /// does, and for an accepted request says what to run and for how long
    /// at most.
    pub fn transcribe_audio_file(
        &self,
        audio_path: &str,
        language: &Option<String>,
        exists: bool,
        file_size: u64,
    ) -> (r: AppResult<Invocation>)
        ensures
            r is Ok <==> self.spec_is_initialized() && exists && size_accepted(file_size),
            r matches Ok(run) ==> run.program@ == self.python() && run.script@ == whisper_script(
                audio_path@,
                self.model(),
                language_or_default(*language),
            ) && run.timeout_seconds == RUN_TIMEOUT_SECONDS,
            r matches Err(e) ==> (if !self.spec_is_initialized() {
                e is NotInitialized
            } else if !exists {
                e matches AppError::FileNotFound { path } && path@ == audio_path@
            } else {
                e is ValidationError
            }),
    {
        match self.check_audio_file(audio_path, exists, file_size) {
            Ok(()) => {},
            Err(e) => {
                return Err(e);
            },
        }
        let lang = language_text(language);
        let script = match self.create_whisper_script(audio_path, Some(lang.as_str())) {
            Ok(s) => s,
            Err(e) => {
                return Err(e);
            },
        };
        Ok(Invocation { program: self.python_command(), script, timeout_seconds: RUN_TIMEOUT_SECONDS })
    }

    /// Reads the outcome of the engine's run for a transcription in
    /// `language`. A process that did not run to its end, and one that ended
    /// in failure, is an execution failure that carries the reason or the
    /// error stream. Otherwise the result is the transcript that the output
    /// stands for.
    pub fn run_whisper_command(outcome: &RunOutcome, language: &str) -> (r: AppResult<String>)
        ensures
            r is Ok <==> outcome.succeeded(),
            r matches Ok(text) ==> (outcome matches RunOutcome::Exited(o) && text@ == transcript_of(
                o.stdout@,
                language@,
            )),
            r matches Err(e) ==> e is ExecutionFailure && e.spec_detail() == (match *outcome {
                RunOutcome::Exited(o) => "Whisper transcription failed: "@ + o.stderr@,
                _ => "Failed to execute whisper Python script: "@ + outcome.cause(),
            }),
    {
        match outcome {
            RunOutcome::SpawnFailed(_) | RunOutcome::TimedOut => Err(
                AppError::ExecutionFailure {
                    message: join2(
                        "Failed to execute whisper Python script: ",
                        outcome.cause_text().as_str(),
                    ),
                },
            ),
            RunOutcome::Exited(output) => {
                if !output.success {
                    return Err(
                        AppError::ExecutionFailure {
                            message: join2("Whisper transcription failed: ", output.stderr.as_str()),
                        },
                    );
                }
                let result = trim(output.stdout.as_str());
                if result.as_str().is_empty() {
                    Ok(SILENT_TRANSCRIPT.to_owned())
                } else {
                    Ok(postprocess_transcript(result.as_str(), language))
                }
            },
        }
    }

    /// Makes the transcription of a recording of `file_size` bytes from the
    /// outcome of the engine's run, which took `processing_time_ms`.
    ///
    /// A run that ended in failure, or was stopped at the time limit, is an
    /// execution failure. An engine that could not be started at all does
    /// not fail the request: the
    /// placeholder text for the size of the file and the language takes the
    /// place of the transcript. Either way, and after a run that succeeded,
    /// the transcription is completed, for the recording, in the language of
    /// the request, with the fixed confidence of local recognition and the
    /// time taken.
    pub fn complete_transcription(
        recording_id: String,
        language: Option<String>,
        outcome: &RunOutcome,
        file_size: u64,
        processing_time_ms: u64,
    ) -> (r: AppResult<Transcription>)
        ensures
            r is Err <==> !outcome.succeeded() && !(*outcome is SpawnFailed),
            r matches Ok(t) ==> ({
                &&& t.text@ == (match *outcome {
                    RunOutcome::Exited(o) => transcript_of(
                        o.stdout@,
                        language_or_default(language),
                    ),
                    _ => fallback_text(
                        file_size,
                        match language {
                            Some(l) => Some(l@),
                            None => None,
                        },
                    ),
                })
                &&& t.recording_id == recording_id
                &&& t.language@ == language_or_default(language)
                &&& t.confidence == Some(CONFIDENCE)
                &&& t.processing_time_ms == Some(processing_time_ms)
                &&& t.status is Completed
                &&& t.id@.len() == 36
                &&& t.wf()
            }),
            r matches Err(e) ==> e is ExecutionFailure,
    {
        let lang = language_text(&language);
        let text = match outcome {
            RunOutcome::SpawnFailed(_) => match &language {
                Some(l) => crate::services::whisper::WhisperService::fallback_transcription(
                    file_size,
                    Some(l.as_str()),
                ),
                None => crate::services::whisper::WhisperService::fallback_transcription(
                    file_size,
                    None,
                ),
            },
            _ => match WhisperService::run_whisper_command(outcome, lang.as_str()) {
                Ok(t) => t,
                Err(e) => {
                    return Err(e);
                },
            },
        };
        let t = Transcription::new(recording_id, text, lang).set_processing().with_confidence(
            Some(CONFIDENCE),
        ).with_processing_time(Some(processing_time_ms)).with_status(
            TranscriptionStatus::Completed,
        );
        Ok(t)
    }

    /// The bytes of the probe file that is written before a model is
    /// downloaded: one second of silence at 16 kHz.
    pub fn create_dummy_audio_file() -> (bytes: Vec<u8>)
        ensures
            bytes@ == silent_wav(16000, 16000),
            bytes@.len() == 32044,
    {
        silent_wav_bytes(16000, 16000)
    }

    /// The directory in which the engine keeps its models: `.cache/whisper`
    /// under the home directory, or a fixed place where there is no home.
    pub fn get_whisper_cache_dir(home: Option<&str>) -> (dir: String)
        ensures
            home is None ==> dir@ == "/tmp/.whisper_cache"@,
            home is Some ==> ends_with_seq(dir@, "whisper"@),
    {
        proof {
            reveal_strlit("whisper");
            assert(plain_name("whisper"@)) by {
                assert("whisper"@.len() == 7);
            }
        }
        match home {
            Some(h) => {
                let cache = join_path(h, ".cache");
                join_path(cache.as_str(), "whisper")
            },
            None => "/tmp/.whisper_cache".to_owned(),
        }
    }

    /// The languages that the engine is asked for.
    pub fn get_available_languages(&self) -> (r: AppResult<Vec<String>>)
        ensures
            r matches Ok(list) && texts(list@) == languages(),
    {
        let mut list: Vec<String> = Vec::new();
        list.push("ja".to_owned());
        list.push("en".to_owned());
        list.push("zh".to_owned());
        list.push("ko".to_owned());
        list.push("es".to_owned());
        list.push("fr".to_owned());
        list.push("de".to_owned());
        list.push("it".to_owned());
        list.push("pt".to_owned());
        list.push("ru".to_owned());
        list.push("ar".to_owned());
        list.push("hi".to_owned());
        assert(texts(list@) == languages());
        Ok(list)
    }

    /// The models of the engine, smallest first.
    pub fn get_available_models(&self) -> (r: AppResult<Vec<String>>)
        ensures
            r matches Ok(list) && texts(list@) == models(),
    {
        Ok(model_list())
    }

    /// Says how the service stands, given whether the interpreter and the
    /// library answered. A service that is not ready says so, whatever the
    /// answers.
    pub fn get_service_status(&self, python_available: bool, whisper_available: bool) -> (r:
        AppResult<String>)
        ensures
            r matches Ok(status) && status@ == (if !self.spec_is_initialized() {
                "Not initialized"@
            } else if python_available && whisper_available {
                "Local Whisper ready (model: "@ + self.model() + ")"@
            } else if !python_available {
                "Python not available"@
            } else {
                "Whisper library not available"@
            }),
    {
        if !self.is_initialized() {
            return Ok("Not initialized".to_owned());
        }
        if python_available && whisper_available {
            Ok(join3("Local Whisper ready (model: ", self.model_size.as_str(), ")"))
        } else if !python_available {
            Ok("Python not available".to_owned())
        } else {
            Ok("Whisper library not available".to_owned())
        }
    }

    /// Describes the model in use: with its size in whole mebibytes where
    /// its file is in the cache, `file_size` being the size of that file.
    pub fn get_model_info(&self, file_size: Option<u64>) -> (r: AppResult<String>)
        ensures
            r matches Ok(info) && info@ == (match file_size {
                Some(bytes) => "Model: "@ + self.model() + " ("@ + decimal_seq(
                    (bytes / 1048576) as nat,
                ) + " MB)"@,
                None => "Model: "@ + self.model() + " (not downloaded)"@,
            }),
    {
        match file_size {
            Some(bytes) => {
                let size = decimal(bytes / 1048576);
                let mut info = "Model: ".to_owned();
                info.append(self.model_size.as_str());
                info.append(" (");
                info.append(size.as_str());
                info.append(" MB)");
                Ok(info)
            },
            None => Ok(join3("Model: ", self.model_size.as_str(), " (not downloaded)")),
        }
    }

    /// The models with their sizes and whether they are in the cache.
    /// `file_sizes[i]` is the size of the file of model `i`, or `None` where
    /// the file is not there; models without an answer count as not there. A
    /// model in the cache is listed with its size in whole mebibytes, any
    /// other with the size that its makers give.
    pub fn get_all_models_info(file_sizes: &Vec<Option<u64>>) -> (r: AppResult<Vec<ModelListing>>)
        ensures
            r matches Ok(list) && list@.len() == models().len() && forall|i: int|
                0 <= i < list@.len() ==> {
                    let entry = #[trigger] list@[i];
                    &&& entry.name@ == models()[i]
                    &&& match cached_size(file_sizes@, i) {
                        Some(bytes) => entry.downloaded && entry.size@ == decimal_seq(
                            (bytes / 1048576) as nat,
                        ) + "MB"@,
                        None => !entry.downloaded && entry.size@ == model_estimates()[i],
                    }
                },
    {
        let names = model_list();
        let estimates = estimate_list();
        assert(texts(names@).len() == names@.len());
        assert(texts(estimates@).len() == estimates@.len());
        let mut list: Vec<ModelListing> = Vec::new();
        let mut i: usize = 0;
        while i < names.len()
            invariant
                i <= names.len(),
                texts(names@) == models(),
                texts(estimates@) == model_estimates(),
                names@.len() == 5,
                estimates@.len() == 5,
                list@.len() == i,
                forall|k: int|
                    0 <= k < i ==> {
                        let entry = #[trigger] list@[k];
                        &&& entry.name@ == models()[k]
                        &&& match cached_size(file_sizes@, k) {
                            Some(bytes) => entry.downloaded && entry.size@ == decimal_seq(
                                (bytes / 1048576) as nat,
                            ) + "MB"@,
                            None => !entry.downloaded && entry.size@ == model_estimates()[k],
                        }
                    },
            decreases names.len() - i,
        {
            assert(texts(names@)[i as int] == names@[i as int]@);
            assert(texts(estimates@)[i as int] == estimates@[i as int]@);
            let known: Option<u64> = if i < file_sizes.len() {
                file_sizes[i]
            } else {
                None
            };
            let entry = match known {
                Some(bytes) => ModelListing {
                    name: names[i].clone(),
                    size: join2(decimal(bytes / 1048576).as_str(), "MB"),
                    downloaded: true,
                },
                None => ModelListing {
                    name: names[i].clone(),
                    size: estimates[i].clone(),
                    downloaded: false,
                },
            };
            list.push(entry);
            i = i + 1;
        }
        Ok(list)
    }

    /// Changes the model. A name that is none of the models is a
    /// configuration error and changes nothing. Otherwise the model is set
    /// and the service has to be set up again.
    pub fn set_model_size(&mut self, model_size: String) -> (r: AppResult<()>)
        ensures
            r is Ok <==> models().contains(model_size@),
            r is Ok ==> final(self).model() == model_size@ && final(self).phase()
                == InitPhase::Idle,
            r matches Err(e) ==> e is ConfigurationError && *final(self) == *old(self),
            final(self).python() == old(self).python(),
            final(self).directory() == old(self).directory(),
    {
        let known = model_list();
        let mut i: usize = 0;
        let mut found = false;
        while i < known.len()
            invariant
                i <= known.len(),
                texts(known@) == models(),
                found <==> exists|k: int| 0 <= k < i && models()[k] == model_size@,
            decreases known.len() - i,
        {
            assert(texts(known@)[i as int] == known@[i as int]@);
            if known[i] == model_size {
                found = true;
            }
            i = i + 1;
        }
        assert(texts(known@).len() == known@.len());
        if !found {
            let message = join3(
                "Invalid model size: ",
                model_size.as_str(),
                ". Available: tiny, base, small, medium, large",
            );
            return Err(AppError::ConfigurationError { message });
        }
        self.model_size = model_size;
        self.phase = InitPhase::Idle;
        Ok(())
    }

    /// The model in use.
    pub fn get_current_model_size(&self) -> (out: String)
        ensures
            out@ == self.model(),
    {
        self.model_size.clone()
    }

    /// The program that downloads the model `model_name`, and the
    /// interpreter to run it with.
    pub fn download_specific_model(&self, model_name: &str) -> (run: Invocation)
        ensures
            run.program@ == self.python(),
            run.script@ == download_script(model_name@),
            run.timeout_seconds == RUN_TIMEOUT_SECONDS,
    {
        let mut script = DOWNLOAD_OPENING.to_owned();
        script.append(model_name);
        script.append(DOWNLOAD_BEFORE_LOAD);
        script.append(model_name);
        script.append(DOWNLOAD_AFTER_LOAD);
        script.append(model_name);
        script.append(DOWNLOAD_BEFORE_ERROR);
        script.append(model_name);
        script.append(DOWNLOAD_CLOSING);
        Invocation { program: self.python_command(), script, timeout_seconds: RUN_TIMEOUT_SECONDS }
    }

    /// Reads the outcome of a download: `Ok` exactly when the process ran and
    /// ended well; else the model is not there, and the error carries the
    /// reason or the error stream.
    pub fn download_finished(model_name: &str, outcome: &RunOutcome) -> (r: AppResult<()>)
        ensures
            r is Ok <==> outcome.succeeded(),
            r matches Err(e) ==> e is ResourceUnavailable && e.spec_detail() == (match *outcome {
                RunOutcome::Exited(o) => "Model "@ + model_name@ + " download failed: "@
                    + o.stderr@,
                _ => "Failed to download model "@ + model_name@ + ": "@ + outcome.cause(),
            }),
    {
        match outcome {
            RunOutcome::SpawnFailed(_) | RunOutcome::TimedOut => {
                let head = join3("Failed to download model ", model_name, ": ");
                Err(
                    AppError::ResourceUnavailable {
                        message: join2(head.as_str(), outcome.cause_text().as_str()),
                    },
                )
            },
            RunOutcome::Exited(output) => {
                if output.success {
                    Ok(())
                } else {
                    let head = join3("Model ", model_name, " download failed: ");
                    Err(
                        AppError::ResourceUnavailable {
                            message: join2(head.as_str(), output.stderr.as_str()),
                        },
                    )
                }
            },
        }
    }

    /// The models to download where all are asked for, in order. The caller
    /// downloads them one by one and stops at the first that fails.
    pub fn download_all_models(&self) -> (list: Vec<String>)
        ensures
            texts(list@) == models(),
    {
        model_list()
    }
}

fn package_list() -> (out: Vec<String>)
    ensures
        out@.len() == install_packages().len(),
        forall|i: int| 0 <= i < out@.len() ==> (#[trigger] out@[i])@ == install_packages()[i],
{
    let mut out: Vec<String> = Vec::new();
    out.push("openai-whisper".to_owned());
    out.push("librosa".to_owned());
    out.push("soundfile".to_owned());
    out.push("numpy".to_owned());
    out
}

fn estimate_list() -> (out: Vec<String>)
    ensures
        texts(out@) == model_estimates(),
{
    let mut out: Vec<String> = Vec::new();
    out.push("~39MB".to_owned());
    out.push("~142MB".to_owned());
    out.push("~461MB".to_owned());
    out.push("~1.5GB".to_owned());
    out.push("~2.9GB".to_owned());
    assert(texts(out@) == model_estimates());
    out
}

fn model_list() -> (out: Vec<String>)
    ensures
        texts(out@) == models(),
{
    let mut out: Vec<String> = Vec::new();
    out.push("tiny".to_owned());
    out.push("base".to_owned());
    out.push("small".to_owned());
    out.push("medium".to_owned());
    out.push("large".to_owned());
    assert(texts(out@) == models());
    out
}

/// A ready service stays ready: beginning the bootstrap again gives nothing
/// to do, so that of any number of calls only those before the first
/// success run anything.
pub proof fn law_ready_is_kept(python: Seq<char>)
    ensures
        init_opening(python, InitPhase::Ready) == (InitPhase::Ready, CommandView::Done),
{
}

/// The phase after `n` more beginnings of the bootstrap.
pub open spec fn phase_after_openings(python: Seq<char>, phase: InitPhase, n: nat) -> InitPhase
    decreases n,
{
    if n == 0 {
        phase
    } else {
        init_opening(python, phase_after_openings(python, phase, (n - 1) as nat)).0
    }
}

/// However often the bootstrap is begun on a ready service, the service is
/// ready afterwards, and each beginning has nothing to do: the one
/// bootstrap that made the service ready is the only one that ran anything.
pub proof fn law_initialize_is_idempotent(python: Seq<char>, n: nat)
    ensures
        phase_after_openings(python, InitPhase::Ready, n) == InitPhase::Ready,
        init_opening(python, phase_after_openings(python, InitPhase::Ready, n)).1
            == CommandView::Done,
    decreases n,
{
    if n > 0 {
        law_initialize_is_idempotent(python, (n - 1) as nat);
    }
}

/// The phase after the steps of one bootstrap, where `events` is what its
/// commands brought, in order.
pub open spec fn phase_after_events(
    python: Seq<char>,
    model_size: Seq<char>,
    phase: InitPhase,
    events: Seq<InitEvent>,
) -> InitPhase
    decreases events.len(),
{
    if events.len() == 0 {
        phase
    } else {
        init_course(
            python,
            model_size,
            phase_after_events(python, model_size, phase, events.drop_last()),
            events.last(),
        ).0
    }
}

/// The phase after one whole call for the bootstrap on a service in `phase`:
/// a ready service runs nothing; any other begins anew and takes one step
/// for each of `events`.
pub open spec fn phase_after_call(
    python: Seq<char>,
    model_size: Seq<char>,
    phase: InitPhase,
    events: Seq<InitEvent>,
) -> InitPhase {
    if phase == InitPhase::Ready {
        InitPhase::Ready
    } else {
        phase_after_events(python, model_size, init_opening(python, phase).0, events)
    }
}

/// The phase after whole calls for the bootstrap, one after the other, on a
/// service that was in phase `first`. Each item of `calls` is what the
/// commands of that call would bring.
pub open spec fn phase_after_calls(
    python: Seq<char>,
    model_size: Seq<char>,
    first: InitPhase,
    calls: Seq<Seq<InitEvent>>,
) -> InitPhase
    decreases calls.len(),
{
    if calls.len() == 0 {
        first
    } else {
        phase_after_call(
            python,
            model_size,
            phase_after_calls(python, model_size, first, calls.drop_last()),
            calls.last(),
        )
    }
}

/// How many of the calls ran a bootstrap: those that did not find the
/// service ready.
pub open spec fn bootstraps_run(
    python: Seq<char>,
    model_size: Seq<char>,
    first: InitPhase,
    calls: Seq<Seq<InitEvent>>,
) -> nat
    decreases calls.len(),
{
    if calls.len() == 0 {
        0
    } else {
        let earlier = bootstraps_run(python, model_size, first, calls.drop_last());
        if phase_after_calls(python, model_size, first, calls.drop_last()) == InitPhase::Ready {
            earlier
        } else {
            earlier + 1
        }
    }
}

/// Of any number of callers that are served one after the other, each for a
/// whole call, on a service that is not ready: where the bootstrap of the
/// first succeeds, it is the only bootstrap that is run, whatever the
/// others would have met, and the service is ready after every call.
pub proof fn law_one_bootstrap_serves_all_callers(
    python: Seq<char>,
    model_size: Seq<char>,
    first: InitPhase,
    calls: Seq<Seq<InitEvent>>,
)
    requires
        first != InitPhase::Ready,
        calls.len() >= 1,
        phase_after_call(python, model_size, first, calls[0]) == InitPhase::Ready,
    ensures
        bootstraps_run(python, model_size, first, calls) == 1,
        phase_after_calls(python, model_size, first, calls) == InitPhase::Ready,
        forall|n: int|
            1 <= n <= calls.len() ==> #[trigger] phase_after_calls(
                python,
                model_size,
                first,
                calls.take(n),
            ) == InitPhase::Ready,
    decreases calls.len(),
{
    let earlier = calls.drop_last();
    if calls.len() == 1 {
        assert(earlier.len() == 0);
        assert(calls.last() == calls[0]);
        assert(phase_after_calls(python, model_size, first, earlier) == first);
        assert(bootstraps_run(python, model_size, first, earlier) == 0);
    } else {
        assert(earlier[0] == calls[0]);
        law_one_bootstrap_serves_all_callers(python, model_size, first, earlier);
        assert(phase_after_calls(python, model_size, first, earlier) == InitPhase::Ready);
        assert(bootstraps_run(python, model_size, first, earlier) == 1);
    }
    assert(bootstraps_run(python, model_size, first, calls) == 1);
    assert(phase_after_calls(python, model_size, first, calls) == InitPhase::Ready);
    assert forall|n: int| 1 <= n <= calls.len() implies #[trigger] phase_after_calls(
        python,
        model_size,
        first,
        calls.take(n),
    ) == InitPhase::Ready by {
        if n == calls.len() {
            assert(calls.take(n) =~= calls);
        } else {
            assert(calls.take(n) =~= earlier.take(n));
        }
    }
}

/// The service becomes ready only at the end of the course: when the model
/// file was found, or when its download ran and ended well.
pub proof fn law_ready_needs_the_model(
    python: Seq<char>,
    model_size: Seq<char>,
    phase: InitPhase,
    event: InitEvent,
)
    requires
        init_course(python, model_size, phase, event).0 == InitPhase::Ready,
    ensures
        (phase == InitPhase::LocatingModel && event == InitEvent::FileExists(true)) || (phase
            == InitPhase::DownloadingModel && ended_well(event)),
{
}

/// The model is looked for only after the library answered or the needed
/// package was dealt with, and the library is asked only after an
/// interpreter answered.
pub proof fn law_mandatory_steps_come_first(
    python: Seq<char>,
    model_size: Seq<char>,
    phase: InitPhase,
    event: InitEvent,
)
    ensures
        init_course(python, model_size, phase, event).0 == InitPhase::LocatingModel ==> (phase
            == InitPhase::CheckingLibrary && ended_well(event)) || phase is Installing,
        init_course(python, model_size, phase, event).0 == InitPhase::CheckingLibrary ==> (phase
            == InitPhase::CheckingRuntime || phase == InitPhase::CheckingFallbackRuntime)
            && ended_well(event),
        init_course(python, model_size, phase, event).0 is Installing && phase is Installing
            && phase->index == 0 ==> ended_well(event),
{
}

/// The verdict on a file rests on its size alone, so it is the same at every
/// call: a file is taken exactly when it holds at least 1 KB and at most
/// 500 MB. The empty file is refused, and a file of exactly 500 MB is taken.
pub proof fn law_size_limits(size: u64)
    ensures
        size_accepted(size) <==> 1024 <= size <= 524288000,
        !size_accepted(0),
        size_accepted(MAX_FILE_SIZE),
{
}

} // verus!
