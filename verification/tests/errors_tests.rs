use meeting_summarizer::errors::{
    validate_audio_extension, validate_file_size, validate_filename, AppError, ErrorKind,
};

#[test]
fn filename_with_slash_is_rejected() {
    let r = validate_filename("a/b.wav");
    assert!(matches!(r, Err(AppError::ValidationError { .. })));
    assert_eq!(r.unwrap_err().kind(), ErrorKind::ValidationError);
}

#[test]
fn plain_filename_is_accepted() {
    assert_eq!(validate_filename("recording.wav"), Ok(()));
    assert_eq!(validate_filename("録音_2024.wav"), Ok(()));
}

#[test]
fn empty_filename_is_rejected() {
    assert_eq!(
        validate_filename(""),
        Err(AppError::ValidationError { message: "Filename cannot be empty".to_string() })
    );
}

#[test]
fn filename_length_is_counted_in_bytes() {
    let ok = "a".repeat(255);
    assert_eq!(validate_filename(&ok), Ok(()));
    let long = "a".repeat(256);
    assert_eq!(
        validate_filename(&long),
        Err(AppError::ValidationError { message: "Filename too long".to_string() })
    );
    // 86 characters of three bytes each are 258 bytes.
    let wide = "録".repeat(86);
    assert!(validate_filename(&wide).is_err());
    let wide_ok = "録".repeat(85);
    assert_eq!(validate_filename(&wide_ok), Ok(()));
}

#[test]
fn every_forbidden_character_is_rejected() {
    for c in ['<', '>', ':', '"', '|', '?', '*', '\0', '/', '\\'] {
        let name = format!("a{}b", c);
        assert_eq!(
            validate_filename(&name),
            Err(AppError::ValidationError {
                message: "Filename contains invalid characters".to_string()
            }),
            "character {:?}",
            c
        );
    }
}

#[test]
fn reserved_device_names_are_rejected_in_any_case() {
    for name in ["CON", "con", "Con.txt", "nul.wav", "COM1", "lpt9.log", "aux.tar.gz"] {
        assert_eq!(
            validate_filename(name),
            Err(AppError::ValidationError { message: "Filename is reserved".to_string() }),
            "name {:?}",
            name
        );
    }
    assert_eq!(validate_filename("console.txt"), Ok(()));
    assert_eq!(validate_filename("COM10"), Ok(()));
    assert_eq!(validate_filename("my.con"), Ok(()));
}

#[test]
fn audio_extensions_are_matched_without_case() {
    for ext in ["wav", "WAV", "Mp3", "m4a", "FLAC", "ogg"] {
        assert_eq!(validate_audio_extension(Some(ext)), Ok(()), "extension {:?}", ext);
    }
    assert_eq!(
        validate_audio_extension(Some("txt")),
        Err(AppError::ValidationError { message: "Unsupported audio format: txt".to_string() })
    );
    assert_eq!(
        validate_audio_extension(Some("wave")),
        Err(AppError::ValidationError { message: "Unsupported audio format: wave".to_string() })
    );
    assert_eq!(
        validate_audio_extension(None),
        Err(AppError::ValidationError { message: "File has no extension".to_string() })
    );
}

#[test]
fn file_size_limit_is_inclusive() {
    assert_eq!(validate_file_size("a.wav", true, 25 * 1024 * 1024, 25), Ok(()));
    assert_eq!(validate_file_size("a.wav", true, 0, 25), Ok(()));
    assert_eq!(
        validate_file_size("a.wav", true, 25 * 1024 * 1024 + 1, 25),
        Err(AppError::ValidationError {
            message: "File too large: 25 MB (max: 25 MB)".to_string()
        })
    );
    assert_eq!(
        validate_file_size("a.wav", true, 100 * 1024 * 1024, 25),
        Err(AppError::ValidationError {
            message: "File too large: 100 MB (max: 25 MB)".to_string()
        })
    );
}

#[test]
fn file_size_of_a_missing_file_is_file_not_found() {
    assert_eq!(
        validate_file_size("/tmp/none.wav", false, 0, 25),
        Err(AppError::FileNotFound { path: "/tmp/none.wav".to_string() })
    );
}

#[test]
fn file_size_limit_does_not_overflow() {
    assert_eq!(validate_file_size("a.wav", true, u64::MAX, u64::MAX), Ok(()));
}

#[test]
fn every_error_has_one_class() {
    let m = || "m".to_string();
    let cases = [
        (AppError::StateConflict { message: m() }, ErrorKind::StateConflict),
        (AppError::ResourceUnavailable { message: m() }, ErrorKind::ResourceUnavailable),
        (AppError::ValidationError { message: m() }, ErrorKind::ValidationError),
        (AppError::ExecutionFailure { message: m() }, ErrorKind::ExecutionFailure),
        (AppError::ConnectivityError { message: m() }, ErrorKind::ConnectivityError),
        (AppError::ConfigurationError { message: m() }, ErrorKind::ConfigurationError),
        (AppError::FileNotFound { path: m() }, ErrorKind::ValidationError),
        (AppError::InvalidPath { message: m() }, ErrorKind::ConfigurationError),
        (AppError::PermissionDenied { message: m() }, ErrorKind::ConfigurationError),
        (AppError::NotInitialized { message: m() }, ErrorKind::StateConflict),
        (AppError::Io { message: m() }, ErrorKind::ResourceUnavailable),
        (AppError::Storage { message: m() }, ErrorKind::ResourceUnavailable),
    ];
    for (error, kind) in cases {
        assert_eq!(error.kind(), kind, "{:?}", error);
    }
}

#[test]
fn descriptions_carry_label_and_detail() {
    assert_eq!(
        AppError::StateConflict { message: "Recording is already in progress".to_string() }
            .to_string(),
        "State conflict: Recording is already in progress"
    );
    assert_eq!(
        AppError::FileNotFound { path: "/x/y.wav".to_string() }.to_string(),
        "File not found: /x/y.wav"
    );
    assert_eq!(AppError::Io { message: "disk".to_string() }.to_string(), "IO error: disk");
    assert_eq!(
        AppError::Storage { message: "locked".to_string() }.to_string(),
        "Database error: locked"
    );
}

#[test]
fn public_messages_hide_paths_and_permissions() {
    assert_eq!(
        AppError::InvalidPath { message: "/home/user/secret".to_string() }.public_message(),
        "Invalid file path"
    );
    assert_eq!(
        AppError::PermissionDenied { message: "/home/user/secret".to_string() }.public_message(),
        "Access denied"
    );
    assert_eq!(
        AppError::ValidationError { message: "Filename too long".to_string() }.public_message(),
        "Validation error: Filename too long"
    );
}
