use koii_sequencer::error::AppError;
use std::io;

#[test]
fn test_error_display() {
    let err = AppError::Audio("Failed to initialize audio".to_string());
    assert_eq!(err.to_string(), "Audio error: Failed to initialize audio");

    let err = AppError::Command("Invalid command".to_string());
    assert_eq!(err.to_string(), "Command error: Invalid command");

    let err = AppError::Config("Missing configuration".to_string());
    assert_eq!(err.to_string(), "Configuration error: Missing configuration");

    let err = AppError::Sample("Sample not found".to_string());
    assert_eq!(err.to_string(), "Sample error: Sample not found");
}

#[test]
fn test_io_error_conversion() {
    let io_err = io::Error::new(io::ErrorKind::NotFound, "File not found");
    let app_err: AppError = io_err.into();

    match app_err {
        AppError::Io(_) => assert!(true),
        _ => assert!(false, "Expected Io variant"),
    }
}

#[test]
fn io_error_message_names_the_cause() {
    let err = AppError::Io(io::Error::new(io::ErrorKind::NotFound, "File not found"));
    assert_eq!(err.to_string(), "I/O error: File not found");
}
