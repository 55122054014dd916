use std::io;
use supervisely_format::{FormatError, SchemaError};

fn denied() -> io::Error {
    io::Error::new(io::ErrorKind::PermissionDenied, "denied")
}

#[test]
fn failures_keep_their_path_and_cause() {
    match FormatError::open_file_error("a/b.json", denied()) {
        FormatError::OpenFileError { path, error } => {
            assert_eq!(path, "a/b.json");
            assert_eq!(error.kind(), io::ErrorKind::PermissionDenied);
        }
        other => panic!("unexpected: {:?}", other),
    }
    match FormatError::read_dir_error("a", denied()) {
        FormatError::ReadDirError { path, error } => {
            assert_eq!(path, "a");
            assert_eq!(error.kind(), io::ErrorKind::PermissionDenied);
        }
        other => panic!("unexpected: {:?}", other),
    }
    match FormatError::resolve_path_error("a/link", denied()) {
        FormatError::ResolvePathError { path, error } => {
            assert_eq!(path, "a/link");
            assert_eq!(error.kind(), io::ErrorKind::PermissionDenied);
        }
        other => panic!("unexpected: {:?}", other),
    }
}

#[test]
fn failures_without_a_cause() {
    assert!(matches!(
        FormatError::expect_single_media_folder("ds"),
        FormatError::ExpectSingleMediaDirectory(path) if path == "ds"
    ));
    assert!(matches!(
        FormatError::expect_utf8_file_name("ds/x"),
        FormatError::ExpectUtf8FileName(path) if path == "ds/x"
    ));
    assert!(matches!(
        FormatError::schema_error("f.json", SchemaError::FrameIndexMismatch),
        FormatError::SchemaError { path, kind: SchemaError::FrameIndexMismatch } if path == "f.json"
    ));
}

#[test]
fn parse_failure_keeps_the_parser_report() {
    let cause = serde_json::from_str::<serde_json::Value>("{").unwrap_err();
    let line = cause.line();
    match FormatError::parse_json_file_error("f.json", cause) {
        FormatError::ParseJsonFileError { path, error } => {
            assert_eq!(path, "f.json");
            assert_eq!(error.line(), line);
            assert!(error.is_eof());
        }
        other => panic!("unexpected: {:?}", other),
    }
}
