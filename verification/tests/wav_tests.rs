use meeting_summarizer::services::whisper_local::WhisperService;
use meeting_summarizer::wav::silent_wav_bytes;

#[test]
fn silent_file_has_a_pcm_header_and_zero_samples() {
    let bytes = silent_wav_bytes(16000, 3);
    let expected: Vec<u8> = vec![
        b'R', b'I', b'F', b'F', 42, 0, 0, 0, b'W', b'A', b'V', b'E', // RIFF, 36 + 6
        b'f', b'm', b't', b' ', 16, 0, 0, 0, // fmt chunk of 16 bytes
        1, 0, // PCM
        1, 0, // one channel
        0x80, 0x3e, 0, 0, // 16000 Hz
        0x00, 0x7d, 0, 0, // 32000 bytes per second
        2, 0, // block align
        16, 0, // bits per sample
        b'd', b'a', b't', b'a', 6, 0, 0, 0, // data chunk of 6 bytes
        0, 0, 0, 0, 0, 0,
    ];
    assert_eq!(bytes, expected);
}

#[test]
fn silent_file_without_samples_is_the_header_alone() {
    let bytes = silent_wav_bytes(8000, 0);
    assert_eq!(bytes.len(), 44);
    assert_eq!(&bytes[4..8], &[36, 0, 0, 0]);
    assert_eq!(&bytes[24..28], &[0x40, 0x1f, 0, 0]);
    assert_eq!(&bytes[28..32], &[0x80, 0x3e, 0, 0]);
    assert_eq!(&bytes[40..44], &[0, 0, 0, 0]);
}

#[test]
fn probe_file_is_one_second_of_silence() {
    let bytes = WhisperService::create_dummy_audio_file();
    assert_eq!(bytes.len(), 44 + 32000);
    assert_eq!(&bytes[0..4], b"RIFF");
    assert_eq!(&bytes[4..8], &32036u32.to_le_bytes());
    assert_eq!(&bytes[8..16], b"WAVEfmt ");
    assert_eq!(&bytes[24..28], &16000u32.to_le_bytes());
    assert_eq!(&bytes[36..40], b"data");
    assert_eq!(&bytes[40..44], &32000u32.to_le_bytes());
    assert!(bytes[44..].iter().all(|b| *b == 0));
}
