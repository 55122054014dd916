//! From the bytes of a file to a typed document.

use crate::error::{FormatError, SchemaError};
use crate::json::{parse_tree, parsed_json, Json, JsonView};
use crate::wire::Decode;
use vstd::prelude::*;

verus! {

/// Whether `r` is what reading the tree `tree`, found at `path`, as a `T`
/// gives: the document, or the schema failure with the path.
pub open spec fn reads_as<T: Decode>(
    r: Result<T, FormatError>,
    path: Seq<char>,
    tree: JsonView,
) -> bool {
    match T::read(tree) {
        Ok(document) => r matches Ok(d) && d.deep_view() == document,
        Err(kind) => r matches Err(FormatError::SchemaError { path: p, kind: k }) && p@ == path
            && k == kind,
    }
}

/// Whether `r` is what loading the file at `path`, which holds `contents`,
/// as a `T` gives: a parse failure with the path where the contents are not
/// JSON, else what reading the tree gives.
pub open spec fn loads_as<T: Decode>(
    r: Result<T, FormatError>,
    path: Seq<char>,
    contents: Seq<u8>,
) -> bool {
    match parsed_json(contents) {
        Some(tree) => reads_as(r, path, tree),
        None => r matches Err(FormatError::ParseJsonFileError { path: p, error: _ }) && p@ == path,
    }
}

/// Reads a document from the tree that was parsed from the file at `path`.
pub fn from_tree<T: Decode>(path: &str, tree: &Json) -> (r: Result<T, FormatError>)
    ensures
        reads_as(r, path@, tree.deep_view()),
{
    match T::decode(tree) {
        Ok(document) => Ok(document),
        Err(kind) => Err(FormatError::schema_error(path, kind)),
    }
}

/// Reads a document from the contents of the file at `path`: parses them as
/// JSON, then reads the tree.
pub fn load_json<T: Decode>(path: &str, contents: &[u8]) -> (r: Result<T, FormatError>)
    ensures
        loads_as(r, path@, contents@),
{
    match parse_tree(contents) {
        Ok(tree) => from_tree::<T>(path, &tree),
        Err(error) => Err(FormatError::parse_json_file_error(path, error)),
    }
}

/// Parses the contents of the file at `path` as JSON.
pub fn parse_json(path: &str, contents: &[u8]) -> (r: Result<Json, FormatError>)
    ensures
        match r {
            Ok(tree) => parsed_json(contents@) == Some(tree.deep_view()),
            Err(e) => {
                &&& parsed_json(contents@) is None
                &&& e matches FormatError::ParseJsonFileError { path: p, error: _ }
                &&& p@ == path@
            },
        },
{
    match parse_tree(contents) {
        Ok(tree) => Ok(tree),
        Err(error) => Err(FormatError::parse_json_file_error(path, error)),
    }
}

} // verus!
