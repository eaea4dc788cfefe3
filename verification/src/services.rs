//! The services of the application: audio capture, recording sessions and
//! speech recognition.

pub mod audio_capture_cpal;
pub mod audio_capture_mock;
pub mod audio_capture_real;
pub mod recording;
pub mod whisper_script;
pub mod whisper_local;
pub mod whisper;
pub mod model_downloader;
pub mod llm_manager;
pub mod model_settings;
pub mod transcript;
pub mod whisper_mock;
pub mod llm;
