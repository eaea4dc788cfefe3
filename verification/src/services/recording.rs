//! The recording session manager: at most one session at a time.
//!
//! Starting and stopping each take two calls. The first decides and says
//! what to do; the caller does the work on the device, the disk and the
//! store; the second takes the outcome and settles the state. A stop is
//! asked for once the capture thread has ended, with what it ended with.

use crate::errors::{AppError, AppResult};
use crate::models::{Recording, RecordingSession};
use crate::platform::{
    compact_utc_stamp, format_utc, fresh_id, join_path, now_millis, plain_name, COMPACT_STAMP,
};
use crate::services::audio_capture_cpal::{device_catalog, get_audio_devices, AudioCapture};
use crate::text::{
    decimal_seq, ends_with_seq, lemma_decimal_is_digits, signed_decimal, signed_decimal_seq, texts,
};
use vstd::prelude::*;
use vstd::string::StringExecFns;

verus! {

/// What the laws of the manager speak of: whether a session is held, and
/// whether the engine captures.
pub struct ServiceView {
    pub has_session: bool,
    pub capturing: bool,
}

/// The manager. It holds the session that is under way, if any, and the
/// capture engine.
pub struct RecordingService {
    recordings_dir: String,
    current_session: Option<RecordingSession>,
    audio_capture: AudioCapture,
}

/// A start that was accepted and waits for the engine's thread.
#[derive(Debug, Clone, PartialEq, Eq)]
pub struct PendingStart {
    pub session: RecordingSession,
    pub temp_filename: String,
}

/// A stop that was accepted and waits for the file and the store.
#[derive(Debug, Clone, PartialEq, Eq)]
pub struct PendingStop {
    pub session_id: String,
    pub temp_file_path: String,
    pub final_filename: String,
    pub final_path: String,
    /// Length of the recording in whole seconds.
    pub duration: i64,
}

/// The whole seconds in a span of milliseconds, rounded toward zero.
pub open spec fn whole_seconds(millis: int) -> int {
    if millis >= 0 {
        millis / 1000
    } else {
        -((-millis) / 1000)
    }
}

/// The length in whole seconds of a recording that began at `start` and is
/// stopped at `now`.
pub open spec fn length_at(start: i64, now: i64) -> int {
    whole_seconds(now - start)
}

/// The name of the file that a capture begun at `now` writes to.
pub open spec fn temp_filename_at(now: i64) -> Seq<char> {
    "recording_temp_"@ + signed_decimal_seq(whole_seconds(now as int)) + ".wav"@
}

/// The name of the finished file: the stamp of the start, then the session's
/// identifier.
pub open spec fn final_filename_of(stamp: Seq<char>, id: Seq<char>) -> Seq<char> {
    "recording_"@ + stamp + "_"@ + id + ".wav"@
}

/// The pending stop carries the names of the session: its identifier, its
/// temporary file, and the final name made of the stamp of its start and its
/// identifier.
pub open spec fn names_the_stop(p: PendingStop, s: RecordingSession) -> bool {
    &&& p.session_id == s.id
    &&& p.temp_file_path == s.temp_file_path
    &&& compact_utc_stamp(s.start_time as int) matches Some(stamp)
    &&& p.final_filename@ == final_filename_of(stamp, s.id@)
}

/// The start of the session, if there is one, lies inside the calendar.
pub open spec fn can_be_stamped(session: Option<RecordingSession>) -> bool {
    session matches Some(s) ==> compact_utc_stamp(s.start_time as int) is Some
}

/// The record is that of a file with at least one byte.
pub open spec fn holds_sound(recording: Recording) -> bool {
    recording.file_size matches Some(size) && size > 0
}

/// A size in bytes as the record holds it: cut down to the largest `i64`.
pub open spec fn recorded_size(file_size: u64) -> i64 {
    if file_size > i64::MAX as u64 {
        i64::MAX
    } else {
        file_size as i64
    }
}

/// A start is accepted when no session is held and the engine is idle.
pub open spec fn start_allowed(v: ServiceView) -> bool {
    !v.has_session && !v.capturing
}

/// A start waits for its outcome when the engine captures and no session is
/// held yet.
pub open spec fn start_pending(v: ServiceView) -> bool {
    !v.has_session && v.capturing
}

/// A stop is accepted when a session is held.
pub open spec fn stop_allowed(v: ServiceView) -> bool {
    v.has_session
}

/// A stop waits for its outcome when a session is held and the engine is
/// idle.
pub open spec fn stop_pending(v: ServiceView) -> bool {
    v.has_session && !v.capturing
}

/// The state after a start was asked for and the instant could be stamped:
/// the engine captures, where the start was allowed; else nothing changes.
pub open spec fn requested_start(v: ServiceView) -> ServiceView {
    if start_allowed(v) {
        ServiceView { has_session: false, capturing: true }
    } else {
        v
    }
}

/// The state after the outcome of a pending start: the session is held,
/// where the engine's thread runs; the engine is idle again, where it does
/// not. Without a pending start nothing changes.
pub open spec fn settled_start(v: ServiceView, accepted: bool) -> ServiceView {
    if !start_pending(v) {
        v
    } else if accepted {
        ServiceView { has_session: true, capturing: true }
    } else {
        ServiceView { has_session: false, capturing: false }
    }
}

/// The state after a stop was asked for: the engine is idle and the session
/// still held, where a session was held; else nothing changes.
pub open spec fn requested_stop(v: ServiceView) -> ServiceView {
    if stop_allowed(v) {
        ServiceView { has_session: true, capturing: false }
    } else {
        v
    }
}

/// The state after the outcome of a pending stop: the session is gone, where
/// the file was moved and the record stored; else nothing changes.
pub open spec fn settled_stop(v: ServiceView, completed: bool) -> ServiceView {
    if stop_pending(v) && completed {
        ServiceView { has_session: false, capturing: false }
    } else {
        v
    }
}

/// Whether a recording is under way in this state.
pub open spec fn recording_in(v: ServiceView) -> bool {
    v.has_session && v.capturing
}

impl View for RecordingService {
    type V = ServiceView;

    closed spec fn view(&self) -> ServiceView {
        ServiceView {
            has_session: self.current_session is Some,
            capturing: self.audio_capture.spec_is_recording(),
        }
    }
}

impl RecordingService {
    /// The session that is under way.
    pub closed spec fn session(&self) -> Option<RecordingSession> {
        self.current_session
    }

    /// The directory that recordings are kept in.
    pub closed spec fn directory(&self) -> Seq<char> {
        self.recordings_dir@
    }

    /// The capture engine.
    pub closed spec fn engine(&self) -> AudioCapture {
        self.audio_capture
    }

    /// A manager without a session, its engine idle.
    pub fn new(recordings_dir: String) -> (r: AppResult<Self>)
        ensures
            r matches Ok(s) && s@ == (ServiceView { has_session: false, capturing: false })
                && s.directory() == recordings_dir@ && s.session() is None,
    {
        let audio_capture = match AudioCapture::new() {
            Ok(c) => c,
            Err(e) => {
                return Err(e);
            },
        };
        Ok(RecordingService { recordings_dir, current_session: None, audio_capture })
    }

    /// Asks for a new session that begins at `now` and is named `id`.
    ///
    /// The start is refused with a state conflict while a session is held or
    /// the engine captures, and with a configuration error where the instant
    /// lies outside the calendar; the manager then stays as it is.
    /// Otherwise the engine is set to capture into a temporary file in the
    /// recordings directory, and the session is handed back; it is not held
    /// yet. The caller starts the capture thread and reports with
    /// `confirm_start`.
    pub fn start_recording_at(&mut self, now: i64, id: String) -> (r: AppResult<PendingStart>)
        ensures
            r is Ok <==> start_allowed(old(self)@) && compact_utc_stamp(now as int) is Some,
            r is Ok ==> final(self)@ == requested_start(old(self)@),
            r is Err ==> *final(self) == *old(self),
            r matches Err(e) ==> (if start_allowed(old(self)@) {
                e is ConfigurationError
            } else {
                e is StateConflict
            }),
            r matches Ok(p) ==> p.session.id == id && p.session.start_time == now
                && p.session.is_active && p.temp_filename@ == temp_filename_at(now)
                && ends_with_seq(p.session.temp_file_path@, p.temp_filename@)
                && final(self).engine().spec_output_path() == Some(p.session.temp_file_path@)
                && final(self).engine().spec_start_time() == Some(now),
            final(self).session() == old(self).session(),
            final(self).directory() == old(self).directory(),
    {
        if self.current_session.is_some() || self.audio_capture.is_recording() {
            return Err(
                AppError::StateConflict { message: "Recording is already in progress".to_owned() },
            );
        }
        if format_utc(now, COMPACT_STAMP).is_none() {
            return Err(
                AppError::ConfigurationError {
                    message: "The system time lies outside the calendar".to_owned(),
                },
            );
        }
        let seconds = truncated_seconds(now as i128);
        let number = signed_decimal(seconds);
        let mut temp_filename = "recording_temp_".to_owned();
        temp_filename.append(number.as_str());
        temp_filename.append(".wav");
        proof {
            lemma_temp_name_is_plain(now);
        }
        let temp_file_path = join_path(self.recordings_dir.as_str(), temp_filename.as_str());
        match self.audio_capture.start_recording_at(temp_file_path.as_str(), now) {
            Ok(()) => {},
            Err(e) => {
                return Err(e);
            },
        }
        let session = RecordingSession::with_identity(id, temp_file_path, now);
        Ok(PendingStart { session, temp_filename })
    }

    /// As `start_recording_at`, with a fresh identifier and at the instant
    /// that the clock shows. Where the clock cannot be read, a start that is
    /// allowed is refused with a configuration error. A session that was
    /// started can be stamped, so that the stop will not fail for that.
    pub fn start_recording(&mut self) -> (r: AppResult<PendingStart>)
        ensures
            r is Ok ==> start_allowed(old(self)@) && final(self)@ == requested_start(old(self)@),
            !start_allowed(old(self)@) ==> r is Err,
            r is Err ==> *final(self) == *old(self),
            r matches Err(e) ==> (if start_allowed(old(self)@) {
                e is ConfigurationError
            } else {
                e is StateConflict
            }),
            r matches Ok(p) ==> p.session.id@.len() == 36 && p.session.is_active
                && p.session.start_time >= 0
                && compact_utc_stamp(p.session.start_time as int) is Some
                && p.temp_filename@ == temp_filename_at(p.session.start_time)
                && ends_with_seq(p.session.temp_file_path@, p.temp_filename@)
                && final(self).engine().spec_output_path() == Some(p.session.temp_file_path@)
                && final(self).engine().spec_start_time() == Some(p.session.start_time),
            final(self).session() == old(self).session(),
            final(self).directory() == old(self).directory(),
    {
        if self.current_session.is_some() || self.audio_capture.is_recording() {
            return Err(
                AppError::StateConflict { message: "Recording is already in progress".to_owned() },
            );
        }
        let now = match now_millis() {
            Some(now) => now,
            None => {
                return Err(
                    AppError::ConfigurationError {
                        message: "Failed to get system time".to_owned(),
                    },
                );
            },
        };
        let id = fresh_id();
        self.start_recording_at(now, id)
    }

    /// Settles a pending start with what became of the capture thread.
    ///
    /// Without a pending start this is a state conflict and nothing changes.
    /// Where the thread runs, the session is held from now on and its
    /// identifier is returned. Where it does not, the engine is idle again,
    /// no session is held, and the error is handed on.
    pub fn confirm_start(&mut self, pending: PendingStart, outcome: AppResult<()>) -> (r: AppResult<
        String,
    >)
        ensures
            final(self)@ == settled_start(old(self)@, outcome is Ok),
            r is Ok <==> start_pending(old(self)@) && outcome is Ok,
            r matches Ok(id) ==> (id == pending.session.id && final(self).session() == Some(
                pending.session,
            )),
            r matches Err(e) ==> (if start_pending(old(self)@) {
                outcome == Err::<(), AppError>(e)
            } else {
                e is StateConflict && *final(self) == *old(self)
            }),
            r is Err ==> final(self).session() == old(self).session(),
            final(self).directory() == old(self).directory(),
            final(self).engine().spec_output_path() == old(self).engine().spec_output_path(),
            final(self).engine().spec_start_time() == old(self).engine().spec_start_time(),
    {
        if self.current_session.is_some() || !self.audio_capture.is_recording() {
            return Err(AppError::StateConflict { message: "No start is pending".to_owned() });
        }
        match outcome {
            Ok(()) => {
                let id = pending.session.id.clone();
                self.current_session = Some(pending.session);
                Ok(id)
            },
            Err(e) => {
                self.audio_capture.abandon_start();
                Err(e)
            },
        }
    }

    /// Ends the capture of the session, at the instant `now`. `capture` is
    /// what the capture thread ended with: the caller lets the stop flag
    /// fall and waits for the thread before it calls.
    ///
    /// Without a session this is a state conflict, and with a session whose
    /// start lies outside the calendar a configuration error; nothing
    /// changes then. Otherwise the engine is idle from now on and the
    /// session stays held. Where the capture failed, as one without samples
    /// does, its error is handed on and the session stays as it is. Where it
    /// ended well, the session is marked inactive, and the names and the
    /// length of the finished recording are handed back; the caller moves
    /// the file, stores the record and reports with `finish_stop`. Asked
    /// again after a failure, the manager hands the same names back.
    pub fn stop_recording_at(&mut self, now: i64, capture: AppResult<()>) -> (r: AppResult<
        PendingStop,
    >)
        ensures
            r is Ok <==> stop_allowed(old(self)@) && can_be_stamped(old(self).session())
                && capture is Ok,
            stop_allowed(old(self)@) && can_be_stamped(old(self).session()) ==> final(self)@
                == requested_stop(old(self)@),
            !(stop_allowed(old(self)@) && can_be_stamped(old(self).session())) ==> *final(self)
                == *old(self),
            r matches Err(e) ==> (if !stop_allowed(old(self)@) {
                e is StateConflict
            } else if !can_be_stamped(old(self).session()) {
                e is ConfigurationError
            } else {
                capture == Err::<(), AppError>(e)
            }),
            r is Err ==> final(self).session() == old(self).session(),
            r matches Ok(p) ==> ({
                &&& old(self).session() matches Some(s)
                &&& final(self).session() == Some(RecordingSession { is_active: false, ..s })
                &&& names_the_stop(p, s)
                &&& plain_name(p.final_filename@) ==> ends_with_seq(
                    p.final_path@,
                    p.final_filename@,
                )
                &&& p.duration == whole_seconds(now - s.start_time)
            }),
            final(self).directory() == old(self).directory(),
            final(self).engine().spec_output_path() == old(self).engine().spec_output_path(),
            final(self).engine().spec_start_time() == old(self).engine().spec_start_time(),
    {
        let session = match self.current_session.take() {
            Some(s) => s,
            None => {
                return Err(
                    AppError::StateConflict { message: "No active recording session".to_owned() },
                );
            },
        };
        let stamp = match format_utc(session.start_time, COMPACT_STAMP) {
            Some(s) => s,
            None => {
                self.current_session = Some(session);
                return Err(
                    AppError::ConfigurationError {
                        message: "The start of the session lies outside the calendar".to_owned(),
                    },
                );
            },
        };
        let ended = if self.audio_capture.is_recording() {
            self.audio_capture.stop_recording(capture)
        } else {
            capture
        };
        match ended {
            Ok(()) => {},
            Err(e) => {
                self.current_session = Some(session);
                return Err(e);
            },
        }
        let duration = truncated_seconds((now as i128) - (session.start_time as i128));
        let mut final_filename = "recording_".to_owned();
        final_filename.append(stamp.as_str());
        final_filename.append("_");
        final_filename.append(session.id.as_str());
        final_filename.append(".wav");
        let final_path = join_path(self.recordings_dir.as_str(), final_filename.as_str());
        let pending = PendingStop {
            session_id: session.id.clone(),
            temp_file_path: session.temp_file_path.clone(),
            final_filename,
            final_path,
            duration,
        };
        self.current_session = Some(session.stop());
        Ok(pending)
    }

    /// As `stop_recording_at`, at the instant that the clock shows. Where the
    /// clock cannot be read, a stop that is allowed is refused with a
    /// configuration error and nothing changes.
    pub fn stop_recording(&mut self, capture: AppResult<()>) -> (r: AppResult<PendingStop>)
        ensures
            r is Ok ==> stop_allowed(old(self)@) && can_be_stamped(old(self).session())
                && capture is Ok && final(self)@ == requested_stop(old(self)@),
            !stop_allowed(old(self)@) ==> (r matches Err(e) && e is StateConflict),
            r matches Err(e) ==> (*final(self) == *old(self) && (if stop_allowed(old(self)@) {
                e is ConfigurationError
            } else {
                e is StateConflict
            })) || (stop_allowed(old(self)@) && capture == Err::<(), AppError>(e) && final(self)@
                == requested_stop(old(self)@)),
            r is Err ==> final(self).session() == old(self).session(),
            r matches Ok(p) ==> ({
                &&& old(self).session() matches Some(s)
                &&& final(self).session() == Some(RecordingSession { is_active: false, ..s })
                &&& names_the_stop(p, s)
                &&& plain_name(p.final_filename@) ==> ends_with_seq(
                    p.final_path@,
                    p.final_filename@,
                )
                &&& exists|now: i64| now >= 0 && p.duration == #[trigger] length_at(s.start_time, now)
            }),
            final(self).directory() == old(self).directory(),
            final(self).engine().spec_output_path() == old(self).engine().spec_output_path(),
            final(self).engine().spec_start_time() == old(self).engine().spec_start_time(),
    {
        if self.current_session.is_none() {
            return Err(
                AppError::StateConflict { message: "No active recording session".to_owned() },
            );
        }
        match now_millis() {
            Some(now) => {
                let r = self.stop_recording_at(now, capture);
                proof {
                    if r is Ok {
                        let s = old(self).session()->Some_0;
                        assert(r->Ok_0.duration == length_at(s.start_time, now));
                    }
                }
                r
            },
            None => Err(
                AppError::ConfigurationError { message: "Failed to get system time".to_owned() },
            ),
        }
    }

    /// The record of a finished recording: its file under its final name, the
    /// length that the stop measured, and the size that the file has on disk.
    /// The identifier is fresh and the times are read from the clock. A file
    /// without a byte holds no recording: for it there is no record, and the
    /// error says that nothing was captured.
    pub fn build_recording(pending: &PendingStop, file_size: u64) -> (r: AppResult<Recording>)
        ensures
            r is Ok <==> file_size > 0,
            r matches Err(e) ==> e is ResourceUnavailable,
            r matches Ok(rec) ==> ({
                &&& rec.filename == pending.final_filename
                &&& rec.file_path == pending.final_path
                &&& rec.duration == Some(pending.duration)
                &&& rec.file_size == Some(recorded_size(file_size))
                &&& holds_sound(rec)
                &&& rec.id@.len() == 36
                &&& rec.title is None
                &&& rec.description is None
                &&& rec.category is None
                &&& rec.tags@.len() == 0
                &&& rec.sample_rate is None
                &&& rec.channels is None
            }),
    {
        if file_size == 0 {
            return Err(
                AppError::ResourceUnavailable {
                    message: "No audio data was captured".to_owned(),
                },
            );
        }
        let size: i64 = if file_size > i64::MAX as u64 {
            i64::MAX
        } else {
            file_size as i64
        };
        Ok(
            Recording::new(pending.final_filename.clone(), pending.final_path.clone()).with_duration(
                pending.duration,
            ).with_file_size(size),
        )
    }

    /// Settles a pending stop with the record and with what became of the
    /// file and the store.
    ///
    /// Without a pending stop this is a state conflict. Where the file could
    /// not be moved or the record not stored, that error is handed on. A
    /// record whose file holds no byte is refused: nothing was captured. In
    /// each of these the manager stays as it is and the session stays held,
    /// so that the stop can be tried again. Otherwise the session is let go
    /// and the record returned.
    pub fn finish_stop(&mut self, recording: Recording, outcome: AppResult<()>) -> (r: AppResult<
        Recording,
    >)
        ensures
            final(self)@ == settled_stop(old(self)@, outcome is Ok && holds_sound(recording)),
            r is Ok <==> stop_pending(old(self)@) && outcome is Ok && holds_sound(recording),
            r matches Ok(rec) ==> rec == recording && final(self).session() is None,
            r matches Err(e) ==> *final(self) == *old(self) && (if !stop_pending(old(self)@) {
                e is StateConflict
            } else if outcome is Err {
                outcome == Err::<(), AppError>(e)
            } else {
                e is ResourceUnavailable
            }),
            final(self).directory() == old(self).directory(),
            final(self).engine().spec_output_path() == old(self).engine().spec_output_path(),
            final(self).engine().spec_start_time() == old(self).engine().spec_start_time(),
    {
        if self.current_session.is_none() || self.audio_capture.is_recording() {
            return Err(AppError::StateConflict { message: "No stop is pending".to_owned() });
        }
        match outcome {
            Ok(()) => {},
            Err(e) => {
                return Err(e);
            },
        }
        let filled = match recording.file_size {
            Some(size) => size > 0,
            None => false,
        };
        if !filled {
            return Err(
                AppError::ResourceUnavailable {
                    message: "No audio data was captured".to_owned(),
                },
            );
        }
        self.current_session = None;
        Ok(recording)
    }

    /// Whether a recording is under way: a session is held and the engine
    /// captures.
    pub fn is_recording(&self) -> (b: bool)
        ensures
            b == recording_in(self@),
    {
        self.current_session.is_some() && self.audio_capture.is_recording()
    }

    /// The identifier of the session that is held.
    pub fn current_session_id(&self) -> (id: Option<String>)
        ensures
            id is Some <==> self@.has_session,
            id matches Some(i) ==> (self.session() matches Some(s) && i == s.id),
    {
        match &self.current_session {
            Some(s) => Some(s.id.clone()),
            None => None,
        }
    }

    /// The input devices to choose from. `enumerated` is what the host
    /// reported: `None` where the enumeration failed, and per device its
    /// name, or `None` where the name could not be read. The result is never
    /// an error and never empty: without a readable name it is the one
    /// placeholder.
    pub fn get_audio_devices(&self, enumerated: Option<Vec<Option<String>>>) -> (r: AppResult<
        Vec<String>,
    >)
        ensures
            r matches Ok(names) && texts(names@) == device_catalog(
                match enumerated {
                    Some(d) => Some(d@),
                    None => None,
                },
            ) && names@.len() > 0,
    {
        get_audio_devices(enumerated)
    }
}

/// One complete call on the manager, with what the outside made of it.
pub enum Call {
    /// A start. `accepted` says that the instant could be stamped and the
    /// capture thread runs.
    Start { accepted: bool },
    /// A stop. `stampable` says that the start of the session lies inside the
    /// calendar; `completed`, that the capture ended well, the file holds
    /// sound and was moved, and the record was stored.
    Stop { stampable: bool, completed: bool },
}

/// Whether the call succeeds in state `v`.
pub open spec fn call_succeeds(v: ServiceView, call: Call) -> bool {
    match call {
        Call::Start { accepted } => start_allowed(v) && accepted,
        Call::Stop { stampable, completed } => stop_allowed(v) && stampable && completed,
    }
}

/// The state after the call: the request, then the settlement with the
/// outcome; a refused request leaves the state as it is.
pub open spec fn after_call(v: ServiceView, call: Call) -> ServiceView {
    match call {
        Call::Start { accepted } => if start_allowed(v) {
            settled_start(requested_start(v), accepted)
        } else {
            v
        },
        Call::Stop { stampable, completed } => if stop_allowed(v) && stampable {
            settled_stop(requested_stop(v), completed)
        } else {
            v
        },
    }
}

/// The state after a sequence of calls on a new manager.
pub open spec fn after_calls(calls: Seq<Call>) -> ServiceView
    decreases calls.len(),
{
    if calls.len() == 0 {
        ServiceView { has_session: false, capturing: false }
    } else {
        after_call(after_calls(calls.drop_last()), calls.last())
    }
}

/// The number of starts that succeeded in a sequence of calls on a new
/// manager, less the number of stops that succeeded.
pub open spec fn open_starts(calls: Seq<Call>) -> int
    decreases calls.len(),
{
    if calls.len() == 0 {
        0
    } else {
        let before = after_calls(calls.drop_last());
        let earlier = open_starts(calls.drop_last());
        if call_succeeds(before, calls.last()) {
            if calls.last() is Start {
                earlier + 1
            } else {
                earlier - 1
            }
        } else {
            earlier
        }
    }
}

/// No stop in the sequence was interrupted between the engine and the store.
pub open spec fn no_stop_interrupted(calls: Seq<Call>) -> bool {
    forall|i: int|
        0 <= i < calls.len() ==> ((#[trigger] calls[i]) matches Call::Stop { stampable, completed }
            ==> completed || !stampable)
}

/// After any sequence of calls, a session is held exactly when one start has
/// succeeded without a stop that succeeded after it; there is never more
/// than one such start; and the engine captures only while a session is
/// held.
pub proof fn law_at_most_one_session(calls: Seq<Call>)
    ensures
        0 <= open_starts(calls) <= 1,
        after_calls(calls).has_session <==> open_starts(calls) == 1,
        after_calls(calls).capturing ==> after_calls(calls).has_session,
    decreases calls.len(),
{
    if calls.len() > 0 {
        law_at_most_one_session(calls.drop_last());
    }
}

/// After any sequence of calls in which no stop was interrupted, a recording
/// is under way exactly when one start has succeeded without a stop that
/// succeeded after it.
pub proof fn law_recording_iff_one_open_start(calls: Seq<Call>)
    requires
        no_stop_interrupted(calls),
    ensures
        recording_in(after_calls(calls)) <==> open_starts(calls) == 1,
        after_calls(calls).capturing == after_calls(calls).has_session,
    decreases calls.len(),
{
    law_at_most_one_session(calls);
    if calls.len() > 0 {
        let earlier = calls.drop_last();
        assert forall|i: int| 0 <= i < earlier.len() implies ((#[trigger] earlier[i]) matches Call::Stop {
            stampable,
            completed,
        } ==> completed || !stampable) by {
            assert(earlier[i] == calls[i]);
        }
        law_recording_iff_one_open_start(earlier);
        assert(calls.last() == calls[calls.len() - 1]);
    }
}

/// While a recording is under way, a start is refused and changes nothing,
/// whatever the outside would have made of it; and a stop that completes
/// still succeeds afterwards and ends the recording.
pub proof fn law_second_start_is_refused(v: ServiceView, accepted: bool)
    requires
        recording_in(v),
    ensures
        !call_succeeds(v, Call::Start { accepted }),
        after_call(v, Call::Start { accepted }) == v,
        call_succeeds(
            after_call(v, Call::Start { accepted }),
            Call::Stop { stampable: true, completed: true },
        ),
        !recording_in(
            after_call(
                after_call(v, Call::Start { accepted }),
                Call::Stop { stampable: true, completed: true },
            ),
        ),
{
}

/// Without a session a stop does not succeed and changes nothing.
pub proof fn law_stop_without_start_is_refused(v: ServiceView, stampable: bool, completed: bool)
    requires
        !v.has_session,
    ensures
        !stop_allowed(v),
        !call_succeeds(v, Call::Stop { stampable, completed }),
        after_call(v, Call::Stop { stampable, completed }) == v,
{
}

/// Of two starts on an idle manager, each of which the outside would accept,
/// the first succeeds and the second does not, whichever comes first; the
/// one session that results is that of the first.
pub proof fn law_one_of_two_starts_wins(v: ServiceView)
    requires
        start_allowed(v),
    ensures
        call_succeeds(v, Call::Start { accepted: true }),
        !call_succeeds(after_call(v, Call::Start { accepted: true }), Call::Start { accepted: true }),
        after_call(after_call(v, Call::Start { accepted: true }), Call::Start { accepted: true })
            == after_call(v, Call::Start { accepted: true }),
        recording_in(after_call(v, Call::Start { accepted: true })),
{
}

/// The length of a recording is the time between start and stop in whole
/// seconds: it differs from that time by less than a second, and a
/// recording that is stopped a whole number of seconds after its start has
/// exactly that length.
pub proof fn law_duration_is_elapsed_time(start: i64, now: i64)
    ensures
        -1000 < (now - start) - 1000 * whole_seconds(now - start) < 1000,
        (now - start) % 1000 == 0 ==> 1000 * whole_seconds(now - start) == now - start,
        now >= start ==> 0 <= whole_seconds(now - start) && 1000 * whole_seconds(now - start)
            <= now - start,
{
}

/// A start that fails leaves no session behind, and a stop that fails leaves
/// the session held.
pub proof fn law_failures_keep_the_session_state(v: ServiceView, call: Call)
    requires
        !call_succeeds(v, call),
    ensures
        after_call(v, call).has_session == v.has_session,
{
}

/// The name of the temporary file is a plain name: letters, digits, a sign,
/// underscores and one dot.
proof fn lemma_temp_name_is_plain(now: i64)
    ensures
        plain_name(temp_filename_at(now)),
{
    reveal_strlit("recording_temp_");
    reveal_strlit(".wav");
    let head = "recording_temp_"@;
    let tail = ".wav"@;
    let n = whole_seconds(now as int);
    let number = signed_decimal_seq(n);
    let magnitude: nat = if n < 0 {
        (-n) as nat
    } else {
        n as nat
    };
    lemma_decimal_is_digits(magnitude);
    assert forall|i: int| 0 <= i < number.len() implies (#[trigger] number[i] == '-' || ('0'
        <= number[i] <= '9')) by {
        if n < 0 {
            if i > 0 {
                assert(number[i] == decimal_seq(magnitude)[i - 1]);
            }
        } else {
            assert(number[i] == decimal_seq(magnitude)[i]);
        }
    }
    let name = temp_filename_at(now);
    assert(name == head + number + tail);
    assert(name.len() == 15 + number.len() + 4);
    assert forall|i: int| 0 <= i < name.len() implies #[trigger] name[i] != '/' && name[i] != '\\'
        && name[i] != ':' by {
        if i < 15 {
            assert(name[i] == head[i]);
        } else if i < 15 + number.len() {
            assert(name[i] == number[i - 15]);
        } else {
            assert(name[i] == tail[i - 15 - number.len()]);
        }
    }
    assert(name.len() > 2);
}

fn truncated_seconds(millis: i128) -> (secs: i64)
    requires
        -0x1_0000_0000_0000_0000 <= millis <= 0x1_0000_0000_0000_0000,
    ensures
        secs == whole_seconds(millis as int),
{
    if millis >= 0 {
        (millis / 1000) as i64
    } else {
        let magnitude: i128 = -millis;
        let q: i128 = magnitude / 1000;
        (-q) as i64
    }
}

} // verus!
