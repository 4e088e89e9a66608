//! Errors of the cleaner and their messages.
use vstd::prelude::*;
use vstd::string::*;

use crate::text::{joined, joined4};

verus! {

/// What can go wrong while resolving a path or cleaning a file.
#[derive(Debug, Clone)]
pub enum CleanerError {
    /// The path does not exist.
    PathNotFound(String),
    /// A file was expected, a directory was found.
    NotAFile(String),
    /// A directory was expected, a file was found.
    NotADirectory(String),
    /// Access to the path was refused.
    PermissionDenied(String),
    /// A directory could not be listed.
    DirectoryReadError { path: String, source: String },
    /// A cleaning step failed.
    CleaningFailed { path: String, reason: String },
    /// A platform call failed.
    WindowsApiError { path: String, message: String },
    /// Any other I/O failure.
    IoError(String),
    /// The named streams of a file could not be listed.
    StreamEnumerationFailed(String),
}

/// The message of an error, in characters.
pub open spec fn error_text(e: CleanerError) -> Seq<char> {
    match e {
        CleanerError::PathNotFound(p) => "Path does not exist: "@ + p@,
        CleanerError::NotAFile(p) => "Expected a file but found a directory: "@ + p@,
        CleanerError::NotADirectory(p) => "Expected a directory but found a file: "@ + p@,
        CleanerError::PermissionDenied(p) => "Permission denied: "@ + p@,
        CleanerError::DirectoryReadError { path, source } => "Failed to read directory '"@ + path@
            + "': "@ + source@,
        CleanerError::CleaningFailed { path, reason } => "Failed to clean metadata for '"@ + path@
            + "': "@ + reason@,
        CleanerError::WindowsApiError { path, message } => "Windows API error for '"@ + path@
            + "': "@ + message@,
        CleanerError::IoError(m) => "I/O error: "@ + m@,
        CleanerError::StreamEnumerationFailed(p) => "Failed to enumerate data streams for '"@ + p@
            + "'"@,
    }
}

impl CleanerError {
    /// A failed cleaning step for `path`, with `reason`.
    pub fn cleaning_failed(path: String, reason: String) -> (r: Self)
        ensures
            r == (CleanerError::CleaningFailed { path, reason }),
    {
        CleanerError::CleaningFailed { path, reason }
    }

    /// A failed platform call for `path`, with `message`.
    pub fn windows_api_error(path: String, message: String) -> (r: Self)
        ensures
            r == (CleanerError::WindowsApiError { path, message }),
    {
        CleanerError::WindowsApiError { path, message }
    }

    /// The message of this error; it names the path or cause involved.
    pub fn message(&self) -> (r: String)
        ensures
            r@ == error_text(*self),
            r@.len() > 0,
    {
        let r = match self {
            CleanerError::PathNotFound(p) => joined("Path does not exist: ", p.as_str()),
            CleanerError::NotAFile(p) => joined(
                "Expected a file but found a directory: ",
                p.as_str(),
            ),
            CleanerError::NotADirectory(p) => joined(
                "Expected a directory but found a file: ",
                p.as_str(),
            ),
            CleanerError::PermissionDenied(p) => joined("Permission denied: ", p.as_str()),
            CleanerError::DirectoryReadError { path, source } => joined4(
                "Failed to read directory '",
                path.as_str(),
                "': ",
                source.as_str(),
            ),
            CleanerError::CleaningFailed { path, reason } => joined4(
                "Failed to clean metadata for '",
                path.as_str(),
                "': ",
                reason.as_str(),
            ),
            CleanerError::WindowsApiError { path, message } => joined4(
                "Windows API error for '",
                path.as_str(),
                "': ",
                message.as_str(),
            ),
            CleanerError::IoError(m) => joined("I/O error: ", m.as_str()),
            CleanerError::StreamEnumerationFailed(p) => joined4(
                "Failed to enumerate data streams for '",
                p.as_str(),
                "'",
                "",
            ),
        };
        proof {
            reveal_strlit("Path does not exist: ");
            reveal_strlit("Expected a file but found a directory: ");
            reveal_strlit("Expected a directory but found a file: ");
            reveal_strlit("Permission denied: ");
            reveal_strlit("Failed to read directory '");
            reveal_strlit("Failed to clean metadata for '");
            reveal_strlit("Windows API error for '");
            reveal_strlit("I/O error: ");
            reveal_strlit("Failed to enumerate data streams for '");
            reveal_strlit("");
            reveal_strlit("'");
            reveal_strlit("': ");
            if let CleanerError::StreamEnumerationFailed(p) = self {
                assert("'"@ + ""@ =~= "'"@);
                assert("Failed to enumerate data streams for '"@ + p@ + "'"@ + ""@
                    =~= "Failed to enumerate data streams for '"@ + p@ + "'"@);
            }
        }
        r
    }
}

/// Every error's message says something.
pub proof fn lemma_error_text_nonempty(e: CleanerError)
    ensures
        error_text(e).len() > 0,
{
    reveal_strlit("Path does not exist: ");
    reveal_strlit("Expected a file but found a directory: ");
    reveal_strlit("Expected a directory but found a file: ");
    reveal_strlit("Permission denied: ");
    reveal_strlit("Failed to read directory '");
    reveal_strlit("Failed to clean metadata for '");
    reveal_strlit("Windows API error for '");
    reveal_strlit("I/O error: ");
    reveal_strlit("Failed to enumerate data streams for '");
}

} // verus!
