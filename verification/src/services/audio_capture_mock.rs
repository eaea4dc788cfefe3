//! A stand-in for the capture engine that needs no sound hardware: the same
//! two states, and a fixed list of devices.

use crate::errors::{AppError, AppResult};
use crate::platform::now_millis;
use crate::services::audio_capture_cpal::elapsed_millis;
use crate::text::texts;
use vstd::prelude::*;

verus! {

/// The stand-in engine. It is idle or capturing.
#[derive(Debug, Clone, PartialEq, Eq)]
pub struct AudioCapture {
    recording: bool,
    start_time: Option<i64>,
}

impl AudioCapture {
    /// Whether the engine is capturing.
    pub closed spec fn spec_is_recording(&self) -> bool {
        self.recording
    }

    /// When the last capture began, in milliseconds since the Unix epoch.
    pub closed spec fn spec_start_time(&self) -> Option<i64> {
        self.start_time
    }

    /// An idle engine.
    pub fn new() -> (r: AppResult<Self>)
        ensures
            r matches Ok(c) && !c.spec_is_recording() && c.spec_start_time() is None,
    {
        Ok(AudioCapture { recording: false, start_time: None })
    }

    /// Starts a capture at the instant `now`. A capturing engine refuses with
    /// a state conflict and stays as it is.
    pub fn start_recording_at(&mut self, now: i64) -> (r: AppResult<()>)
        ensures
            r is Ok <==> !old(self).spec_is_recording(),
            r matches Err(e) ==> e is StateConflict && *final(self) == *old(self),
            r is Ok ==> final(self).spec_is_recording() && final(self).spec_start_time() == Some(
                now,
            ),
    {
        if self.recording {
            return Err(
                AppError::StateConflict { message: "Recording is already in progress".to_owned() },
            );
        }
        self.recording = true;
        self.start_time = Some(now);
        Ok(())
    }

    /// As `start_recording_at`, at the instant that the clock shows. Where
    /// the clock cannot be read, an idle engine refuses with a configuration
    /// error and stays idle.
    pub fn start_recording(&mut self) -> (r: AppResult<()>)
        ensures
            old(self).spec_is_recording() ==> r is Err,
            r matches Err(e) ==> *final(self) == *old(self) && (if old(self).spec_is_recording() {
                e is StateConflict
            } else {
                e is ConfigurationError
            }),
            r is Ok ==> final(self).spec_is_recording() && (final(self).spec_start_time() matches Some(
                now,
            ) && now >= 0),
    {
        if self.recording {
            return Err(
                AppError::StateConflict { message: "Recording is already in progress".to_owned() },
            );
        }
        match now_millis() {
            Some(now) => self.start_recording_at(now),
            None => Err(AppError::ConfigurationError { message: "Failed to get system time".to_owned() }),
        }
    }

    /// Stops the capture. An idle engine refuses with a state conflict and
    /// stays as it is.
    pub fn stop_recording(&mut self) -> (r: AppResult<()>)
        ensures
            r is Ok <==> old(self).spec_is_recording(),
            r matches Err(e) ==> e is StateConflict && *final(self) == *old(self),
            r is Ok ==> !final(self).spec_is_recording() && final(self).spec_start_time() == old(
                self,
            ).spec_start_time(),
    {
        if !self.recording {
            return Err(AppError::StateConflict { message: "No recording in progress".to_owned() });
        }
        self.recording = false;
        Ok(())
    }

    /// Whether the engine is capturing.
    #[verifier::when_used_as_spec(spec_is_recording)]
    pub fn is_recording(&self) -> (b: bool)
        ensures
            b == self.spec_is_recording(),
    {
        self.recording
    }

    /// The milliseconds between the start of the last capture and `now`.
    pub fn recording_duration_at(&self, now: i64) -> (millis: u64)
        ensures
            millis == elapsed_millis(self.spec_start_time(), now),
    {
        match self.start_time {
            Some(start) => {
                if now <= start {
                    0
                } else {
                    ((now as i128) - (start as i128)) as u64
                }
            },
            None => 0,
        }
    }

    /// The milliseconds since the start of the last capture, by the clock;
    /// zero where nothing was ever captured or the clock cannot be read.
    pub fn get_recording_duration(&self) -> (millis: u64)
        ensures
            millis == 0 || exists|now: i64|
                now >= 0 && millis == elapsed_millis(self.spec_start_time(), now),
            self.spec_start_time() is None ==> millis == 0,
    {
        match now_millis() {
            Some(now) => self.recording_duration_at(now),
            None => 0,
        }
    }
}

/// The names of the stand-in devices.
pub open spec fn mock_devices() -> Seq<Seq<char>> {
    seq!["Default Microphone"@, "Built-in Microphone"@, "External USB Microphone"@]
}

/// The stand-in devices: always the same three names.
pub fn get_audio_devices() -> (r: AppResult<Vec<String>>)
    ensures
        r matches Ok(names) && texts(names@) == mock_devices(),
{
    let mut names: Vec<String> = Vec::new();
    names.push("Default Microphone".to_owned());
    names.push("Built-in Microphone".to_owned());
    names.push("External USB Microphone".to_owned());
    assert(texts(names@) == mock_devices());
    Ok(names)
}

} // verus!
