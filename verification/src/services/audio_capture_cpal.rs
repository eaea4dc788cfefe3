//! The capture engine: its two states, the choice of a stream configuration,
//! the course of the capture thread, and the list of input devices.
//!
//! The engine decides; the caller opens devices, runs the stream and writes
//! the file, and reports back what happened.

use crate::errors::{AppError, AppResult, ErrorKind};
use crate::platform::now_millis;
use crate::text::texts;
use vstd::prelude::*;

verus! {

/// The sample rate of every recording, in hertz.
pub const SAMPLE_RATE: u32 = 16000;

/// The channel count of every recording.
pub const CHANNELS: u16 = 1;

/// The bits in one sample of a recording.
pub const BITS_PER_SAMPLE: u16 = 16;

/// The pause between two looks at the stop flag, in milliseconds.
pub const POLL_INTERVAL_MS: u64 = 100;

/// A range of stream configurations that an input device offers.
#[derive(Debug, Clone, Copy, PartialEq, Eq, Structural)]
pub struct ConfigRange {
    pub channels: u16,
    pub min_sample_rate: u32,
    pub max_sample_rate: u32,
}

/// The configuration that a stream is opened with.
#[derive(Debug, Clone, Copy, PartialEq, Eq, Structural)]
pub struct StreamSettings {
    pub channels: u16,
    pub sample_rate: u32,
}

impl ConfigRange {
    /// The range holds the target sample rate.
    pub open spec fn straddles(self) -> bool {
        self.min_sample_rate <= SAMPLE_RATE && SAMPLE_RATE <= self.max_sample_rate
    }

    /// The range holds the target sample rate and has the target channel
    /// count.
    pub open spec fn exact(self) -> bool {
        self.straddles() && self.channels == CHANNELS
    }

    /// The bound of the range that lies nearest to the target sample rate:
    /// the lower bound where the range lies above the target, else the upper.
    pub open spec fn nearest_bound(self) -> u32 {
        if self.min_sample_rate > SAMPLE_RATE {
            self.min_sample_rate
        } else {
            self.max_sample_rate
        }
    }

    /// How far the nearest bound lies from the target sample rate.
    pub open spec fn distance(self) -> int {
        if self.nearest_bound() > SAMPLE_RATE {
            self.nearest_bound() - SAMPLE_RATE
        } else {
            SAMPLE_RATE - self.nearest_bound()
        }
    }

    /// The settings that this range is opened with: the target sample rate
    /// where the range holds it, else its nearest bound; and one channel,
    /// unless the range has none.
    pub open spec fn settings(self) -> StreamSettings {
        StreamSettings {
            channels: if self.channels < CHANNELS {
                self.channels
            } else {
                CHANNELS
            },
            sample_rate: if self.straddles() {
                SAMPLE_RATE
            } else {
                self.nearest_bound()
            },
        }
    }
}

/// Some range is an exact match.
pub open spec fn any_exact(ranges: Seq<ConfigRange>) -> bool {
    exists|j: int| 0 <= j < ranges.len() && (#[trigger] ranges[j]).exact()
}

/// Some range holds the target sample rate.
pub open spec fn any_straddles(ranges: Seq<ConfigRange>) -> bool {
    exists|j: int| 0 <= j < ranges.len() && (#[trigger] ranges[j]).straddles()
}

/// Range `i` is the one to open: the first exact match; where there is none,
/// the first range that holds the target sample rate; where there is none
/// either, the first among the ranges whose nearest bound lies closest to
/// the target.
pub open spec fn is_chosen(ranges: Seq<ConfigRange>, i: int) -> bool {
    &&& 0 <= i < ranges.len()
    &&& if any_exact(ranges) {
        &&& ranges[i].exact()
        &&& forall|j: int| 0 <= j < i ==> !(#[trigger] ranges[j]).exact()
    } else if any_straddles(ranges) {
        &&& ranges[i].straddles()
        &&& forall|j: int| 0 <= j < i ==> !(#[trigger] ranges[j]).straddles()
    } else {
        &&& forall|j: int|
            0 <= j < ranges.len() ==> ranges[i].distance() <= (#[trigger] ranges[j]).distance()
        &&& forall|j: int| 0 <= j < i ==> ranges[i].distance() < (#[trigger] ranges[j]).distance()
    }
}

/// At most one range is chosen.
pub proof fn lemma_choice_is_unique(ranges: Seq<ConfigRange>, i: int, j: int)
    requires
        is_chosen(ranges, i),
        is_chosen(ranges, j),
    ensures
        i == j,
{
    if i < j {
        if any_exact(ranges) {
            assert(!ranges[i].exact());
        } else if any_straddles(ranges) {
            assert(!ranges[i].straddles());
        } else {
            assert(ranges[j].distance() < ranges[i].distance());
            assert(ranges[i].distance() <= ranges[j].distance());
        }
    } else if j < i {
        if any_exact(ranges) {
            assert(!ranges[j].exact());
        } else if any_straddles(ranges) {
            assert(!ranges[j].straddles());
        } else {
            assert(ranges[i].distance() < ranges[j].distance());
            assert(ranges[j].distance() <= ranges[i].distance());
        }
    }
}

fn settings_of(r: &ConfigRange) -> (s: StreamSettings)
    ensures
        s == r.settings(),
{
    let channels: u16 = if r.channels < CHANNELS {
        r.channels
    } else {
        CHANNELS
    };
    let sample_rate: u32 = if r.min_sample_rate <= SAMPLE_RATE && SAMPLE_RATE
        <= r.max_sample_rate {
        SAMPLE_RATE
    } else if r.min_sample_rate > SAMPLE_RATE {
        r.min_sample_rate
    } else {
        r.max_sample_rate
    };
    StreamSettings { channels, sample_rate }
}

fn distance_of(r: &ConfigRange) -> (d: u32)
    ensures
        d == r.distance(),
{
    let bound: u32 = if r.min_sample_rate > SAMPLE_RATE {
        r.min_sample_rate
    } else {
        r.max_sample_rate
    };
    if bound > SAMPLE_RATE {
        bound - SAMPLE_RATE
    } else {
        SAMPLE_RATE - bound
    }
}

/// Chooses the stream configuration among the ranges that a device offers.
/// With no range at all the device cannot be used: a configuration error.
/// Otherwise the settings of the chosen range are returned.
pub fn select_stream_config(ranges: &Vec<ConfigRange>) -> (r: AppResult<StreamSettings>)
    ensures
        r is Ok <==> ranges@.len() > 0,
        r matches Ok(s) ==> exists|i: int| is_chosen(ranges@, i) && s == ranges@[i].settings(),
        r matches Err(e) ==> e is ConfigurationError,
{
    let n = ranges.len();
    if n == 0 {
        return Err(
            AppError::ConfigurationError {
                message: "No supported input configurations found".to_owned(),
            },
        );
    }
    let mut first_exact: Option<usize> = None;
    let mut first_straddle: Option<usize> = None;
    let mut best: usize = 0;
    let mut best_distance: u32 = distance_of(&ranges[0]);
    let mut i: usize = 0;
    while i < n
        invariant
            i <= n,
            n == ranges@.len(),
            n > 0,
            best < n,
            best_distance == ranges@[best as int].distance(),
            forall|j: int| 0 <= j < i ==> best_distance <= (#[trigger] ranges@[j]).distance(),
            forall|j: int| 0 <= j < best ==> best_distance < (#[trigger] ranges@[j]).distance(),
            match first_exact {
                Some(k) => k < i && ranges@[k as int].exact() && forall|j: int|
                    0 <= j < k ==> !(#[trigger] ranges@[j]).exact(),
                None => forall|j: int| 0 <= j < i ==> !(#[trigger] ranges@[j]).exact(),
            },
            match first_straddle {
                Some(k) => k < i && ranges@[k as int].straddles() && forall|j: int|
                    0 <= j < k ==> !(#[trigger] ranges@[j]).straddles(),
                None => forall|j: int| 0 <= j < i ==> !(#[trigger] ranges@[j]).straddles(),
            },
        decreases n - i,
    {
        let r = &ranges[i];
        let holds: bool = r.min_sample_rate <= SAMPLE_RATE && SAMPLE_RATE <= r.max_sample_rate;
        if first_straddle.is_none() && holds {
            first_straddle = Some(i);
        }
        if first_exact.is_none() && holds && r.channels == CHANNELS {
            first_exact = Some(i);
        }
        let d = distance_of(r);
        if d < best_distance {
            best = i;
            best_distance = d;
        }
        i = i + 1;
    }
    let chosen: usize = match first_exact {
        Some(k) => k,
        None => match first_straddle {
            Some(k) => k,
            None => best,
        },
    };
    assert(is_chosen(ranges@, chosen as int));
    Ok(settings_of(&ranges[chosen]))
}

/// The capture engine. It is idle or capturing.
#[derive(Debug, Clone, PartialEq, Eq)]
pub struct AudioCapture {
    recording: bool,
    start_time: Option<i64>,
    output_path: Option<String>,
}

impl AudioCapture {
    /// Whether the engine is capturing.
    pub closed spec fn spec_is_recording(&self) -> bool {
        self.recording
    }

    /// When the last capture began, in milliseconds since the Unix epoch.
    pub closed spec fn spec_start_time(&self) -> Option<i64> {
        self.start_time
    }

    /// The file of the last capture.
    pub closed spec fn spec_output_path(&self) -> Option<Seq<char>> {
        match self.output_path {
            Some(p) => Some(p@),
            None => None,
        }
    }

    /// An idle engine.
    pub fn new() -> (r: AppResult<Self>)
        ensures
            r matches Ok(c) && !c.spec_is_recording() && c.spec_start_time() is None
                && c.spec_output_path() is None,
    {
        Ok(AudioCapture { recording: false, start_time: None, output_path: None })
    }

    /// Asks the engine to capture into `output_path`, at the instant `now`.
    /// A capturing engine refuses with a state conflict and stays as it is.
    /// An idle engine turns to capturing and remembers the instant and the
    /// path; the caller then probes the file and starts the capture thread,
    /// and calls `abandon_start` where that fails.
    pub fn start_recording_at(&mut self, output_path: &str, now: i64) -> (r: AppResult<()>)
        ensures
            r is Ok <==> !old(self).spec_is_recording(),
            r matches Err(e) ==> e is StateConflict && *final(self) == *old(self),
            r is Ok ==> final(self).spec_is_recording() && final(self).spec_start_time() == Some(
                now,
            ) && final(self).spec_output_path() == Some(output_path@),
    {
        if self.recording {
            return Err(
                AppError::StateConflict { message: "Recording is already in progress".to_owned() },
            );
        }
        self.recording = true;
        self.start_time = Some(now);
        self.output_path = Some(output_path.to_owned());
        Ok(())
    }

    /// As `start_recording_at`, at the instant that the clock shows. Where
    /// the clock cannot be read, an idle engine refuses with a configuration
    /// error and stays idle.
    pub fn start_recording(&mut self, output_path: &str) -> (r: AppResult<()>)
        ensures
            old(self).spec_is_recording() ==> r is Err,
            r matches Err(e) ==> *final(self) == *old(self) && (if old(self).spec_is_recording() {
                e is StateConflict
            } else {
                e is ConfigurationError
            }),
            r is Ok ==> final(self).spec_is_recording() && final(self).spec_output_path() == Some(
                output_path@,
            ) && (final(self).spec_start_time() matches Some(now) && now >= 0),
    {
        if self.recording {
            return Err(
                AppError::StateConflict { message: "Recording is already in progress".to_owned() },
            );
        }
        match now_millis() {
            Some(now) => self.start_recording_at(output_path, now),
            None => Err(AppError::ConfigurationError { message: "Failed to get system time".to_owned() }),
        }
    }

    /// Takes back a start whose probe or thread failed: the engine is idle
    /// again, whatever it was.
    pub fn abandon_start(&mut self)
        ensures
            !final(self).spec_is_recording(),
            final(self).spec_start_time() == old(self).spec_start_time(),
            final(self).spec_output_path() == old(self).spec_output_path(),
    {
        self.recording = false;
    }

    /// Stops the engine. `capture` is what the capture thread ended with: the
    /// caller lets the stop flag fall and waits for the thread before it
    /// calls. An idle engine refuses with a state conflict and stays as it
    /// is. A capturing engine turns idle and hands on the thread's result,
    /// so that a capture that failed, as one without samples does, fails the
    /// stop.
    pub fn stop_recording(&mut self, capture: AppResult<()>) -> (r: AppResult<()>)
        ensures
            r is Ok <==> old(self).spec_is_recording() && capture is Ok,
            !old(self).spec_is_recording() ==> *final(self) == *old(self) && (r matches Err(e)
                && e is StateConflict),
            old(self).spec_is_recording() ==> r == capture && !final(self).spec_is_recording(),
            final(self).spec_start_time() == old(self).spec_start_time(),
            final(self).spec_output_path() == old(self).spec_output_path(),
    {
        if !self.recording {
            return Err(AppError::StateConflict { message: "No recording in progress".to_owned() });
        }
        self.recording = false;
        capture
    }

    /// Whether the engine is capturing.
    #[verifier::when_used_as_spec(spec_is_recording)]
    pub fn is_recording(&self) -> (b: bool)
        ensures
            b == self.spec_is_recording(),
    {
        self.recording
    }

    /// The milliseconds between the start of the last capture and `now`:
    /// zero where nothing was ever captured or `now` lies before the start.
    pub fn recording_duration_at(&self, now: i64) -> (millis: u64)
        ensures
            millis == elapsed_millis(self.spec_start_time(), now),
    {
        match self.start_time {
            Some(start) => {
                if now <= start {
                    0
                } else {
                    ((now as i128) - (start as i128)) as u64
                }
            },
            None => 0,
        }
    }

    /// The milliseconds since the start of the last capture, by the clock;
    /// zero where nothing was ever captured or the clock cannot be read.
    pub fn get_recording_duration(&self) -> (millis: u64)
        ensures
            millis == 0 || exists|now: i64|
                now >= 0 && millis == elapsed_millis(self.spec_start_time(), now),
            self.spec_start_time() is None ==> millis == 0,
    {
        match now_millis() {
            Some(now) => self.recording_duration_at(now),
            None => 0,
        }
    }
}

/// The milliseconds from `start` to `now`; zero without a start, or where
/// `now` lies before it.
pub open spec fn elapsed_millis(start: Option<i64>, now: i64) -> int {
    match start {
        Some(s) => if now <= s {
            0
        } else {
            now - s
        },
        None => 0,
    }
}

/// Where the capture thread stands.
#[derive(Debug, Clone, Copy, PartialEq, Eq, Structural)]
pub enum CapturePhase {
    /// Opening the default input device.
    Opening,
    /// Asking the device for its configurations.
    Negotiating,
    /// Building and starting the stream.
    Starting,
    /// The stream runs; the thread looks at the stop flag at intervals.
    Streaming,
    /// Tearing the stream down.
    Draining,
    /// Writing the samples to the file.
    Encoding,
    /// Looking at the file that was written.
    Verifying,
    /// The thread has ended.
    Done,
}

/// What the capture thread is told of the outside.
#[derive(Debug, Clone, PartialEq, Eq)]
pub enum CaptureEvent {
    DeviceOpened,
    DeviceMissing,
    ConfigsListed(Vec<ConfigRange>),
    ConfigsFailed(String),
    StreamStarted,
    StreamFailed(String),
    /// An interval has passed; `recording` is the stop flag as it stands.
    Tick { recording: bool },
    /// The stream is gone; `samples` were captured.
    Drained { samples: u64 },
    Encoded,
    EncodeFailed(String),
    FileChecked { exists: bool, size: u64 },
}

/// What the capture thread does next.
#[derive(Debug, Clone, Copy, PartialEq, Eq, Structural)]
pub enum CaptureCommand {
    OpenDevice,
    ListConfigs,
    StartStream(StreamSettings),
    Wait { millis: u64 },
    StopStream,
    Encode,
    CheckFile,
    /// End the thread: the recording is on disk.
    Succeed,
    /// End the thread with the error of the step.
    Fail,
}

/// One step of the capture thread: the phase it enters, what to do next, and
/// the error where it fails.
#[derive(Debug, Clone, PartialEq, Eq)]
pub struct CaptureStep {
    pub phase: CapturePhase,
    pub command: CaptureCommand,
    pub error: Option<AppError>,
}

/// The settings of the chosen range.
pub open spec fn chosen_settings(ranges: Seq<ConfigRange>) -> StreamSettings {
    ranges[choose|i: int| is_chosen(ranges, i)].settings()
}

/// The course of the capture thread: the next phase and command for each
/// phase and event. An event that the phase does not wait for ends the
/// thread in failure.
pub open spec fn capture_course(phase: CapturePhase, event: CaptureEvent) -> (
    CapturePhase,
    CaptureCommand,
) {
    match (phase, event) {
        (CapturePhase::Opening, CaptureEvent::DeviceOpened) => (
            CapturePhase::Negotiating,
            CaptureCommand::ListConfigs,
        ),
        (CapturePhase::Negotiating, CaptureEvent::ConfigsListed(ranges)) => if ranges@.len() > 0 {
            (CapturePhase::Starting, CaptureCommand::StartStream(chosen_settings(ranges@)))
        } else {
            (CapturePhase::Done, CaptureCommand::Fail)
        },
        (CapturePhase::Starting, CaptureEvent::StreamStarted) => (
            CapturePhase::Streaming,
            CaptureCommand::Wait { millis: POLL_INTERVAL_MS },
        ),
        (CapturePhase::Streaming, CaptureEvent::Tick { recording }) => if recording {
            (CapturePhase::Streaming, CaptureCommand::Wait { millis: POLL_INTERVAL_MS })
        } else {
            (CapturePhase::Draining, CaptureCommand::StopStream)
        },
        (CapturePhase::Draining, CaptureEvent::Drained { samples }) => if samples > 0 {
            (CapturePhase::Encoding, CaptureCommand::Encode)
        } else {
            (CapturePhase::Done, CaptureCommand::Fail)
        },
        (CapturePhase::Encoding, CaptureEvent::Encoded) => (
            CapturePhase::Verifying,
            CaptureCommand::CheckFile,
        ),
        (CapturePhase::Verifying, CaptureEvent::FileChecked { exists, size }) => if exists && size
            > 0 {
            (CapturePhase::Done, CaptureCommand::Succeed)
        } else {
            (CapturePhase::Done, CaptureCommand::Fail)
        },
        _ => (CapturePhase::Done, CaptureCommand::Fail),
    }
}

/// The class of the error with which a step fails: a state conflict for an
/// event that the phase does not wait for; a configuration error for a
/// device without configurations; a missing resource where the file could
/// not be written or is missing or empty, where there is no device, where
/// the stream fails, and where no sample was captured.
pub open spec fn capture_failure(phase: CapturePhase, event: CaptureEvent) -> ErrorKind {
    match (phase, event) {
        (CapturePhase::Opening, CaptureEvent::DeviceMissing) => ErrorKind::ResourceUnavailable,
        (CapturePhase::Negotiating, CaptureEvent::ConfigsListed(_)) => ErrorKind::ConfigurationError,
        (CapturePhase::Negotiating, CaptureEvent::ConfigsFailed(_)) => ErrorKind::ResourceUnavailable,
        (CapturePhase::Starting, CaptureEvent::StreamFailed(_)) => ErrorKind::ResourceUnavailable,
        (CapturePhase::Draining, CaptureEvent::Drained { .. }) => ErrorKind::ResourceUnavailable,
        (CapturePhase::Encoding, CaptureEvent::EncodeFailed(_)) => ErrorKind::ResourceUnavailable,
        (CapturePhase::Verifying, CaptureEvent::FileChecked { .. }) => ErrorKind::ResourceUnavailable,
        _ => ErrorKind::StateConflict,
    }
}

fn fail_step(error: AppError) -> (step: CaptureStep)
    ensures
        step.phase == CapturePhase::Done,
        step.command == CaptureCommand::Fail,
        step.error == Some(error),
{
    CaptureStep { phase: CapturePhase::Done, command: CaptureCommand::Fail, error: Some(error) }
}

fn go_step(phase: CapturePhase, command: CaptureCommand) -> (step: CaptureStep)
    ensures
        step.phase == phase,
        step.command == command,
        step.error is None,
{
    CaptureStep { phase, command, error: None }
}

fn unexpected_event() -> (step: CaptureStep)
    ensures
        step.phase == CapturePhase::Done,
        step.command == CaptureCommand::Fail,
        step.error matches Some(e) && e is StateConflict,
{
    fail_step(
        AppError::StateConflict { message: "Unexpected event for the capture thread".to_owned() },
    )
}

/// The first step of the capture thread: open the device.
pub fn begin_capture() -> (step: CaptureStep)
    ensures
        step.phase == CapturePhase::Opening,
        step.command == CaptureCommand::OpenDevice,
        step.error is None,
{
    go_step(CapturePhase::Opening, CaptureCommand::OpenDevice)
}

/// The next step of the capture thread, after `event` arrived in `phase`.
/// Phase and command follow `capture_course`. The step carries an error
/// exactly when the command is `Fail`, and the error is of the class that
/// `capture_failure` names.
pub fn capture_step(phase: CapturePhase, event: CaptureEvent) -> (step: CaptureStep)
    ensures
        (step.phase, step.command) == capture_course(phase, event),
        step.error is Some <==> step.command == CaptureCommand::Fail,
        step.error matches Some(e) ==> e.spec_kind() == capture_failure(phase, event),
{
    match phase {
        CapturePhase::Opening => match event {
            CaptureEvent::DeviceOpened => go_step(
                CapturePhase::Negotiating,
                CaptureCommand::ListConfigs,
            ),
            CaptureEvent::DeviceMissing => fail_step(
                AppError::ResourceUnavailable {
                    message: "No default input device available".to_owned(),
                },
            ),
            _ => unexpected_event(),
        },
        CapturePhase::Negotiating => match event {
            CaptureEvent::ConfigsListed(ranges) => match select_stream_config(&ranges) {
                Ok(settings) => {
                    proof {
                        let i = choose|i: int|
                            is_chosen(ranges@, i) && settings == ranges@[i].settings();
                        let k = choose|k: int| is_chosen(ranges@, k);
                        lemma_choice_is_unique(ranges@, i, k);
                    }
                    go_step(CapturePhase::Starting, CaptureCommand::StartStream(settings))
                },
                Err(e) => fail_step(e),
            },
            CaptureEvent::ConfigsFailed(reason) => fail_step(
                AppError::ResourceUnavailable {
                    message: crate::text::join2(
                        "Failed to get supported input configs: ",
                        reason.as_str(),
                    ),
                },
            ),
            _ => unexpected_event(),
        },
        CapturePhase::Starting => match event {
            CaptureEvent::StreamStarted => go_step(
                CapturePhase::Streaming,
                CaptureCommand::Wait { millis: POLL_INTERVAL_MS },
            ),
            CaptureEvent::StreamFailed(reason) => fail_step(
                AppError::ResourceUnavailable {
                    message: crate::text::join2("Failed to start audio stream: ", reason.as_str()),
                },
            ),
            _ => unexpected_event(),
        },
        CapturePhase::Streaming => match event {
            CaptureEvent::Tick { recording } => if recording {
                go_step(CapturePhase::Streaming, CaptureCommand::Wait { millis: POLL_INTERVAL_MS })
            } else {
                go_step(CapturePhase::Draining, CaptureCommand::StopStream)
            },
            _ => unexpected_event(),
        },
        CapturePhase::Draining => match event {
            CaptureEvent::Drained { samples } => if samples > 0 {
                go_step(CapturePhase::Encoding, CaptureCommand::Encode)
            } else {
                fail_step(
                    AppError::ResourceUnavailable { message: "No audio data recorded".to_owned() },
                )
            },
            _ => unexpected_event(),
        },
        CapturePhase::Encoding => match event {
            CaptureEvent::Encoded => go_step(CapturePhase::Verifying, CaptureCommand::CheckFile),
            CaptureEvent::EncodeFailed(reason) => fail_step(AppError::Io { message: reason }),
            _ => unexpected_event(),
        },
        CapturePhase::Verifying => match event {
            CaptureEvent::FileChecked { exists, size } => if exists && size > 0 {
                go_step(CapturePhase::Done, CaptureCommand::Succeed)
            } else if exists {
                fail_step(AppError::Io { message: "Output file is empty".to_owned() })
            } else {
                fail_step(AppError::Io { message: "Output file was not created".to_owned() })
            },
            _ => unexpected_event(),
        },
        CapturePhase::Done => unexpected_event(),
    }
}

/// The capture thread reports success only at the end of its course: after
/// it has looked at the written file and found it there and not empty.
pub proof fn law_success_needs_a_file(phase: CapturePhase, event: CaptureEvent)
    requires
        capture_course(phase, event).1 == CaptureCommand::Succeed,
    ensures
        phase == CapturePhase::Verifying,
        event matches CaptureEvent::FileChecked { exists, size } && exists && size > 0,
{
}

/// The file is written only after at least one sample was captured.
pub proof fn law_encoding_needs_samples(phase: CapturePhase, event: CaptureEvent)
    requires
        capture_course(phase, event).1 == CaptureCommand::Encode,
    ensures
        phase == CapturePhase::Draining,
        event matches CaptureEvent::Drained { samples } && samples > 0,
{
}

/// While the stop flag stands, the thread keeps waiting, one interval at a
/// time; once it has fallen, the thread tears the stream down.
pub proof fn law_polling(recording: bool)
    ensures
        capture_course(CapturePhase::Streaming, CaptureEvent::Tick { recording }) == (if recording {
            (CapturePhase::Streaming, CaptureCommand::Wait { millis: POLL_INTERVAL_MS })
        } else {
            (CapturePhase::Draining, CaptureCommand::StopStream)
        }),
{
}

/// The name offered where the host names no input device.
pub open spec fn placeholder_device() -> Seq<char> {
    "Default Microphone"@
}

/// The names among `devices`, in order; a device whose name could not be
/// read has none.
pub open spec fn readable_names(devices: Seq<Option<String>>) -> Seq<Seq<char>>
    decreases devices.len(),
{
    if devices.len() == 0 {
        Seq::empty()
    } else {
        let rest = readable_names(devices.drop_last());
        match devices.last() {
            Some(name) => rest.push(name@),
            None => rest,
        }
    }
}

/// The list that callers choose a device from: the readable names of the
/// enumerated devices, or the placeholder alone where the enumeration failed
/// or gave no name.
pub open spec fn device_catalog(enumerated: Option<Seq<Option<String>>>) -> Seq<Seq<char>> {
    match enumerated {
        Some(devices) => if readable_names(devices).len() > 0 {
            readable_names(devices)
        } else {
            seq![placeholder_device()]
        },
        None => seq![placeholder_device()],
    }
}

/// The input devices to choose from. `enumerated` is what the host reported:
/// `None` where the enumeration failed, and per device its name, or `None`
/// where the name could not be read. The result is never an error and never
/// empty.
pub fn get_audio_devices(enumerated: Option<Vec<Option<String>>>) -> (r: AppResult<Vec<String>>)
    ensures
        r matches Ok(names) && texts(names@) == device_catalog(
            match enumerated {
                Some(d) => Some(d@),
                None => None,
            },
        ) && names@.len() > 0,
{
    let mut names: Vec<String> = Vec::new();
    match enumerated {
        Some(devices) => {
            let mut i: usize = 0;
            assert(devices@.take(0) == Seq::<Option<String>>::empty());
            assert(texts(names@) == Seq::<Seq<char>>::empty());
            while i < devices.len()
                invariant
                    i <= devices.len(),
                    texts(names@) == readable_names(devices@.take(i as int)),
                decreases devices.len() - i,
            {
                assert(devices@.take(i + 1).drop_last() == devices@.take(i as int));
                assert(devices@.take(i + 1).last() == devices@[i as int]);
                match &devices[i] {
                    Some(name) => {
                        let ghost before = names@;
                        names.push(name.clone());
                        assert(texts(names@) == texts(before).push(name@));
                    },
                    None => {},
                }
                i = i + 1;
            }
            assert(devices@.take(devices.len() as int) == devices@);
        },
        None => {},
    }
    if names.len() == 0 {
        names.push("Default Microphone".to_owned());
        assert(texts(names@) == seq![placeholder_device()]);
    }
    Ok(names)
}

} // verus!
