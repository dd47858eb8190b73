//! Errors of the engine and of the local store.
use vstd::prelude::*;

verus! {

#[verifier::external_type_specification]
#[verifier::external_body]
pub struct ExPathBuf(std::path::PathBuf);

#[verifier::external_type_specification]
#[verifier::external_body]
pub struct ExIoError(std::io::Error);

#[verifier::external_type_specification]
#[verifier::external_body]
pub struct ExSqliteError(rusqlite::Error);

/// Errors of decoding and analysis.
pub enum AppError {
    /// The file at the path could not be opened; the text says why.
    OpenFile(std::path::PathBuf, String),
    /// The file at the path holds no decodable audio track.
    UnsupportedFormat(std::path::PathBuf),
    Decode(String),
    Analysis(String),
    Io(std::io::Error),
    Other(String),
}

/// Errors of the local store.
pub enum StorageError {
    Sqlite(rusqlite::Error),
    Io(std::io::Error),
    /// The text was to be stored as JSON but does not parse as JSON.
    InvalidJson(String),
}

} // verus!
