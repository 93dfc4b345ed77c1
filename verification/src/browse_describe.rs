//! Browse's errors, in words for the user.

use vstd::prelude::*;
use crate::error::{CoreError, error_code, code_message, describe_code};
use crate::text::{owned, same, join3};

verus! {

/// Why a device's files couldn't be listed or changed.
#[derive(Debug, Clone)]
pub enum BrowseError {
    /// The device doesn't share its files, with its reason if it gave one.
    Unavailable { reason: Option<String> },
    NotFound,
    Exists,
    PermissionDenied,
    NotADirectory,
    IsADirectory,
    InvalidPath,
    Failed,
    TimedOut,
    HostKeyMismatch,
    Core(CoreError),
}

/// Why an upload didn't start: the device's answer, or the local file
/// (with the reason the system gave).
#[derive(Debug, Clone)]
pub enum UploadPathError {
    Browse(BrowseError),
    File(String),
}

/// The code each error is reported by.
pub open spec fn browse_code(error: BrowseError) -> Seq<char> {
    match error {
        BrowseError::Unavailable { .. } => "files_unavailable"@,
        BrowseError::NotFound => "file_not_found"@,
        BrowseError::Exists => "file_exists"@,
        BrowseError::PermissionDenied => "file_permission_denied"@,
        BrowseError::NotADirectory => "not_a_directory"@,
        BrowseError::IsADirectory => "is_a_directory"@,
        BrowseError::InvalidPath => "invalid_path"@,
        BrowseError::Failed => "files_failed"@,
        BrowseError::TimedOut => "files_timed_out"@,
        BrowseError::HostKeyMismatch => "files_host_key_mismatch"@,
        BrowseError::Core(error) => error_code(error),
    }
}

impl BrowseError {
    /// The error's code, as the HTTP API reports it.
    pub fn code(&self) -> (code: &'static str)
        ensures
            code@ == browse_code(*self),
    {
        match self {
            BrowseError::Unavailable { .. } => "files_unavailable",
            BrowseError::NotFound => "file_not_found",
            BrowseError::Exists => "file_exists",
            BrowseError::PermissionDenied => "file_permission_denied",
            BrowseError::NotADirectory => "not_a_directory",
            BrowseError::IsADirectory => "is_a_directory",
            BrowseError::InvalidPath => "invalid_path",
            BrowseError::Failed => "files_failed",
            BrowseError::TimedOut => "files_timed_out",
            BrowseError::HostKeyMismatch => "files_host_key_mismatch",
            BrowseError::Core(error) => error.code(),
        }
    }
}

/// This feature's sentence for `code`, with the peer's `reason` where it
/// gives one; other codes are worded as the core words them.
pub open spec fn browse_message(code: Seq<char>, reason: Option<Seq<char>>) -> Seq<char> {
    if code == "files_unavailable"@ {
        let why = match reason {
            Some(reason) => " ("@ + reason + ")"@,
            None => Seq::empty(),
        };
        "The device isn’t sharing its files"@ + why
            + ". In KDE Connect on the device, allow access to files in the Filesystem expose plugin."@
    } else if code == "file_not_found"@ {
        "That file or folder no longer exists."@
    } else if code == "file_exists"@ {
        "There is already a file or folder with that name."@
    } else if code == "file_permission_denied"@ {
        "The device doesn’t allow that."@
    } else if code == "not_a_directory"@ {
        "That isn’t a folder."@
    } else if code == "is_a_directory"@ {
        "Folders can’t be downloaded, only files."@
    } else if code == "invalid_path"@ {
        "That name or location can’t be used."@
    } else if code == "files_failed"@ {
        "The device’s files couldn’t be reached."@
    } else if code == "files_timed_out"@ {
        "The device took too long to answer."@
    } else if code == "files_host_key_mismatch"@ {
        "The device’s file server didn’t prove it is the paired device, so MyConnect didn’t connect to it."@
    } else {
        code_message(code)
    }
}

/// The reason the peer gave, for an error that carries one.
pub open spec fn browse_reason(error: BrowseError) -> Option<Seq<char>> {
    match error {
        BrowseError::Unavailable { reason: Some(reason) } => Some(reason@),
        _ => None,
    }
}

/// A sentence for the user about `error`.
pub fn describe_error(error: &BrowseError) -> (sentence: String)
    ensures
        sentence@ == browse_message(browse_code(*error), browse_reason(*error)),
{
    let reason = match error {
        BrowseError::Unavailable { reason: Some(reason) } => Some(reason.as_str()),
        _ => None,
    };
    describe(error.code(), reason)
}

/// A sentence for the user about why an upload didn't start.
pub fn describe_upload_error(error: &UploadPathError) -> (sentence: String)
    ensures
        sentence@ == match *error {
            UploadPathError::Browse(error) => browse_message(browse_code(error), browse_reason(error)),
            UploadPathError::File(_) => "The file couldn’t be read."@,
        },
{
    match error {
        UploadPathError::Browse(error) => describe_error(error),
        UploadPathError::File(_) => owned("The file couldn’t be read."),
    }
}

/// Words this feature's codes, with the peer's `reason` where it gives one,
/// and leaves the rest to the core's wording.
pub fn describe(code: &str, reason: Option<&str>) -> (sentence: String)
    ensures
        sentence@ == browse_message(code@, match reason { Some(r) => Some(r@), None => None }),
{
    if same(code, "files_unavailable") {
        let mut sentence = owned("The device isn’t sharing its files");
        match reason {
            Some(reason) => {
                let why = join3(" (", reason, ")");
                sentence.append(why.as_str());
            }
            None => {}
        }
        sentence.append(". In KDE Connect on the device, allow access to files in the Filesystem expose plugin.");
        return sentence;
    }
    if same(code, "file_not_found") {
        owned("That file or folder no longer exists.")
    } else if same(code, "file_exists") {
        owned("There is already a file or folder with that name.")
    } else if same(code, "file_permission_denied") {
        owned("The device doesn’t allow that.")
    } else if same(code, "not_a_directory") {
        owned("That isn’t a folder.")
    } else if same(code, "is_a_directory") {
        owned("Folders can’t be downloaded, only files.")
    } else if same(code, "invalid_path") {
        owned("That name or location can’t be used.")
    } else if same(code, "files_failed") {
        owned("The device’s files couldn’t be reached.")
    } else if same(code, "files_timed_out") {
        owned("The device took too long to answer.")
    } else if same(code, "files_host_key_mismatch") {
        owned("The device’s file server didn’t prove it is the paired device, so MyConnect didn’t connect to it.")
    } else {
        describe_code(code)
    }
}

} // verus!
