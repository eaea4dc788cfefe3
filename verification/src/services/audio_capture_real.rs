//! The place of a capture engine that reads the microphone by itself. It is
//! not built yet: it never captures, and says so.

use crate::errors::{AppError, AppResult};
use vstd::prelude::*;

verus! {

/// The engine that is not built yet.
#[derive(Debug, Clone, Copy, PartialEq, Eq, Structural)]
pub struct RealAudioCapture {
    _private: bool,
}

impl RealAudioCapture {
    /// The engine; making it always succeeds.
    pub fn new() -> (r: AppResult<Self>)
        ensures
            r is Ok,
    {
        Ok(RealAudioCapture { _private: false })
    }

    /// Always refused: there is nothing to capture with.
    pub fn start_recording(&self, _output_path: &str) -> (r: AppResult<()>)
        ensures
            r matches Err(e) && e is ResourceUnavailable,
    {
        Err(
            AppError::ResourceUnavailable {
                message: "Real audio capture not yet implemented. Please use mock implementation.".to_owned(),
            },
        )
    }

    /// Always refused: nothing is being captured.
    pub fn stop_recording(&self) -> (r: AppResult<()>)
        ensures
            r matches Err(e) && e is ResourceUnavailable,
    {
        Err(
            AppError::ResourceUnavailable {
                message: "Real audio capture not yet implemented.".to_owned(),
            },
        )
    }

    /// Never capturing.
    pub fn is_recording(&self) -> (b: bool)
        ensures
            !b,
    {
        false
    }

    /// The length of the capture in milliseconds: always zero.
    pub fn get_recording_duration(&self) -> (millis: u64)
        ensures
            millis == 0,
    {
        0
    }

    /// The input level in thousandths of full scale: always zero.
    pub fn get_audio_level(&self) -> (level: u16)
        ensures
            level == 0,
    {
        0
    }
}

/// The devices of the engine that is not built yet: always refused.
pub fn get_real_audio_devices() -> (r: AppResult<Vec<String>>)
    ensures
        r matches Err(e) && e is ResourceUnavailable,
{
    Err(
        AppError::ResourceUnavailable {
            message: "Real audio device detection not yet implemented.".to_owned(),
        },
    )
}

} // verus!
