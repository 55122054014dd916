//! The failures that opening, resolving and decoding can report.

use vstd::prelude::*;
use vstd::string::StringExecFns;

verus! {

/// The operating system's report of a failed read, carried as it came.
#[verifier::external_type_specification]
#[verifier::external_body]
pub struct ExIoError(std::io::Error);

/// Why a document that is well-formed JSON does not have the expected shape.
#[derive(Clone, Copy, Debug, PartialEq, Eq, Structural)]
pub enum SchemaError {
    /// The geometry discriminator is none of the six known strings.
    UnknownGeometryKind,
    /// A required member is absent from its object.
    MissingField,
    /// A value is present but of the wrong JSON kind, or out of the range of
    /// the integer type that holds it.
    InvalidType,
    /// A coordinate is not a finite number.
    NonFiniteCoordinate,
    /// A frame of an episode does not stand at the position its index names.
    FrameIndexMismatch,
    /// A colour is not written as a hexadecimal triplet.
    InvalidColor,
}

/// Which of the two steps of unpacking a bitmap payload failed.
#[derive(Clone, Copy, Debug, PartialEq, Eq, Structural)]
pub enum CodecError {
    /// The payload is not standard base64.
    BadBase64,
    /// The bytes under the base64 are not a complete zlib stream.
    BadCompression,
}

/// Every failure of the library.
#[derive(Debug)]
pub enum FormatError {
    /// A file could not be opened or read.
    OpenFileError { path: String, error: std::io::Error },
    /// A directory could not be listed.
    ReadDirError { path: String, error: std::io::Error },
    /// A directory entry could not be resolved to its target.
    ResolvePathError { path: String, error: std::io::Error },
    /// The name of a file or directory is not valid text.
    ExpectUtf8FileName(String),
    /// A file does not hold JSON text.
    ParseJsonFileError { error: serde_json::Error, path: String },
    /// A JSON document does not have the expected shape.
    SchemaError { path: String, kind: SchemaError },
    /// A dataset directory holds none, or more than one, of the media folders.
    ExpectSingleMediaDirectory(String),
    /// A bitmap payload could not be unpacked.
    DecodeDataError(CodecError),
}

impl FormatError {
    /// The failure to open the file at `path`.
    pub fn open_file_error(path: &str, error: std::io::Error) -> (r: Self)
        ensures
            r matches FormatError::OpenFileError { path: p, error: e } && p@ == path@ && e == error,
    {
        FormatError::OpenFileError { path: String::from_str(path), error }
    }

    /// The failure to list the directory `dir`.
    pub fn read_dir_error(dir: &str, error: std::io::Error) -> (r: Self)
        ensures
            r matches FormatError::ReadDirError { path: p, error: e } && p@ == dir@ && e == error,
    {
        FormatError::ReadDirError { path: String::from_str(dir), error }
    }

    /// The failure to resolve `path` to its target.
    pub fn resolve_path_error(path: &str, error: std::io::Error) -> (r: Self)
        ensures
            r matches FormatError::ResolvePathError { path: p, error: e } && p@ == path@ && e == error,
    {
        FormatError::ResolvePathError { path: String::from_str(path), error }
    }

    /// The failure to read the file at `path` as JSON text.
    pub fn parse_json_file_error(path: &str, error: serde_json::Error) -> (r: Self)
        ensures
            r matches FormatError::ParseJsonFileError { path: p, error: e } && p@ == path@ && e == error,
    {
        FormatError::ParseJsonFileError { path: String::from_str(path), error }
    }

    /// The document at `path` is JSON, but not of the expected shape.
    pub fn schema_error(path: &str, kind: SchemaError) -> (r: Self)
        ensures
            r matches FormatError::SchemaError { path: p, kind: k } && p@ == path@ && k == kind,
    {
        FormatError::SchemaError { path: String::from_str(path), kind }
    }

    /// `dir` holds none, or more than one, of the media folders.
    pub fn expect_single_media_folder(dir: &str) -> (r: Self)
        ensures
            r matches FormatError::ExpectSingleMediaDirectory(p) && p@ == dir@,
    {
        FormatError::ExpectSingleMediaDirectory(String::from_str(dir))
    }

    /// The name of the entry at `path` is not valid text.
    pub fn expect_utf8_file_name(path: &str) -> (r: Self)
        ensures
            r matches FormatError::ExpectUtf8FileName(p) && p@ == path@,
    {
        FormatError::ExpectUtf8FileName(String::from_str(path))
    }
}

} // verus!
