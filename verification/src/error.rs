//! Errors in words the user reads.
//!
//! Messages are keyed by the error's code ([`CoreError::code`]), the same
//! code the HTTP API reports, so the UI and the CLI name a failure the same
//! way. A feature with its own error type words its own codes and hands the
//! rest to [`describe_code`].

use vstd::prelude::*;
use crate::text::{owned, same, join3, decimal, decimal_string};
use crate::words::{Words, WordsView, ArgView, Arg, plain, with_arg, with_args, message, with_text, with_two};

verus! {

/// Why the core refused or failed a request.
#[derive(Debug, Clone, Copy, PartialEq, Eq, Structural)]
pub enum CoreError {
    DaemonUnavailable,
    Unauthorized,
    DeviceNotFound,
    DeviceNotConnected,
    AlreadyPaired,
    PairingInProgress,
    PairingNotFound,
    InvalidPairingState,
    InvalidPairingDirection,
    DeviceNotPaired,
    UnsupportedByPeer,
    InvalidFileName,
    TransferTooLarge,
    TransferNotFound,
    InvalidTransferState,
    RequestTimeout,
    InvalidDeviceName,
    InvalidDownloadDir,
    InvalidDiscoveryAddress,
    InvalidSettings,
    Internal,
}

/// The code each error is reported by.
pub open spec fn error_code(error: CoreError) -> Seq<char> {
    match error {
        CoreError::DaemonUnavailable => "daemon_unavailable"@,
        CoreError::Unauthorized => "unauthorized"@,
        CoreError::DeviceNotFound => "device_not_found"@,
        CoreError::DeviceNotConnected => "device_not_connected"@,
        CoreError::AlreadyPaired => "already_paired"@,
        CoreError::PairingInProgress => "pairing_in_progress"@,
        CoreError::PairingNotFound => "pairing_not_found"@,
        CoreError::InvalidPairingState => "invalid_pairing_state"@,
        CoreError::InvalidPairingDirection => "invalid_pairing_direction"@,
        CoreError::DeviceNotPaired => "device_not_paired"@,
        CoreError::UnsupportedByPeer => "unsupported_by_peer"@,
        CoreError::InvalidFileName => "invalid_file_name"@,
        CoreError::TransferTooLarge => "transfer_too_large"@,
        CoreError::TransferNotFound => "transfer_not_found"@,
        CoreError::InvalidTransferState => "invalid_transfer_state"@,
        CoreError::RequestTimeout => "request_timeout"@,
        CoreError::InvalidDeviceName => "invalid_device_name"@,
        CoreError::InvalidDownloadDir => "invalid_download_dir"@,
        CoreError::InvalidDiscoveryAddress => "invalid_address"@,
        CoreError::InvalidSettings => "invalid_settings"@,
        CoreError::Internal => "internal_error"@,
    }
}

impl CoreError {
    /// The error's code, as the HTTP API reports it.
    pub fn code(&self) -> (code: &'static str)
        ensures
            code@ == error_code(*self),
    {
        match self {
            CoreError::DaemonUnavailable => "daemon_unavailable",
            CoreError::Unauthorized => "unauthorized",
            CoreError::DeviceNotFound => "device_not_found",
            CoreError::DeviceNotConnected => "device_not_connected",
            CoreError::AlreadyPaired => "already_paired",
            CoreError::PairingInProgress => "pairing_in_progress",
            CoreError::PairingNotFound => "pairing_not_found",
            CoreError::InvalidPairingState => "invalid_pairing_state",
            CoreError::InvalidPairingDirection => "invalid_pairing_direction",
            CoreError::DeviceNotPaired => "device_not_paired",
            CoreError::UnsupportedByPeer => "unsupported_by_peer",
            CoreError::InvalidFileName => "invalid_file_name",
            CoreError::TransferTooLarge => "transfer_too_large",
            CoreError::TransferNotFound => "transfer_not_found",
            CoreError::InvalidTransferState => "invalid_transfer_state",
            CoreError::RequestTimeout => "request_timeout",
            CoreError::InvalidDeviceName => "invalid_device_name",
            CoreError::InvalidDownloadDir => "invalid_download_dir",
            CoreError::InvalidDiscoveryAddress => "invalid_address",
            CoreError::InvalidSettings => "invalid_settings",
            CoreError::Internal => "internal_error",
        }
    }
}

/// The sentence for a failure with this code; an unknown code is named in
/// a generic sentence.
pub open spec fn code_message(code: Seq<char>) -> Seq<char> {
    if code == "daemon_unavailable"@ {
        "Ferry is not responding."@
    } else if code == "unauthorized"@ {
        "Ferry rejected this app’s access token."@
    } else if code == "device_not_found"@ {
        "That device is no longer known."@
    } else if code == "device_not_connected"@ {
        "The device is not connected right now."@
    } else if code == "already_paired"@ {
        "The device is already paired."@
    } else if code == "pairing_in_progress"@ {
        "A pairing with this device is already running."@
    } else if code == "pairing_not_found"@ {
        "That pairing request no longer exists."@
    } else if code == "invalid_pairing_state"@ || code == "invalid_pairing_direction"@ {
        "That pairing request is no longer active."@
    } else if code == "device_not_paired"@ {
        "The device is not paired."@
    } else if code == "unsupported_by_peer"@ {
        "The device doesn’t support that."@
    } else if code == "invalid_file_name"@ {
        "That file name can’t be sent."@
    } else if code == "transfer_too_large"@ || code == "payload_too_large"@ {
        "The file is too large to send."@
    } else if code == "transfer_not_found"@ {
        "That transfer no longer exists."@
    } else if code == "invalid_transfer_state"@ {
        "That transfer has already finished."@
    } else if code == "request_timeout"@ {
        "Ferry took too long to respond."@
    } else if code == "invalid_device_name"@ {
        "Use 1 to 32 characters, without . , : ; ! ? ( ) [ ] < > or quotes."@
    } else if code == "invalid_download_dir"@ {
        "That folder can’t be used for downloads."@
    } else if code == "invalid_address"@ {
        "Enter an IPv4 address, like 192.168.1.20."@
    } else {
        "Something went wrong ("@ + code + ")."@
    }
}

/// A sentence for the user about `error`.
pub fn describe_error(error: &CoreError) -> (sentence: String)
    ensures
        sentence@ == code_message(error_code(*error)),
{
    describe_code(error.code())
}

/// A sentence for the user about a failure with this code.
pub fn describe_code(code: &str) -> (sentence: String)
    ensures
        sentence@ == code_message(code@),
{
    if same(code, "daemon_unavailable") {
        owned("Ferry is not responding.")
    } else if same(code, "unauthorized") {
        owned("Ferry rejected this app’s access token.")
    } else if same(code, "device_not_found") {
        owned("That device is no longer known.")
    } else if same(code, "device_not_connected") {
        owned("The device is not connected right now.")
    } else if same(code, "already_paired") {
        owned("The device is already paired.")
    } else if same(code, "pairing_in_progress") {
        owned("A pairing with this device is already running.")
    } else if same(code, "pairing_not_found") {
        owned("That pairing request no longer exists.")
    } else if same(code, "invalid_pairing_state") || same(code, "invalid_pairing_direction") {
        owned("That pairing request is no longer active.")
    } else if same(code, "device_not_paired") {
        owned("The device is not paired.")
    } else if same(code, "unsupported_by_peer") {
        owned("The device doesn’t support that.")
    } else if same(code, "invalid_file_name") {
        owned("That file name can’t be sent.")
    } else if same(code, "transfer_too_large") || same(code, "payload_too_large") {
        owned("The file is too large to send.")
    } else if same(code, "transfer_not_found") {
        owned("That transfer no longer exists.")
    } else if same(code, "invalid_transfer_state") {
        owned("That transfer has already finished.")
    } else if same(code, "request_timeout") {
        owned("Ferry took too long to respond.")
    } else if same(code, "invalid_device_name") {
        owned("Use 1 to 32 characters, without . , : ; ! ? ( ) [ ] < > or quotes.")
    } else if same(code, "invalid_download_dir") {
        owned("That folder can’t be used for downloads.")
    } else if same(code, "invalid_address") {
        owned("Enter an IPv4 address, like 192.168.1.20.")
    } else {
        join3("Something went wrong (", code, ").")
    }
}

/// The message for a failure with this code, in the app's `.ftl` files.
pub open spec fn code_words_of(code: Seq<char>) -> WordsView {
    if code == "daemon_unavailable"@ {
        plain("error-daemon_unavailable"@)
    } else if code == "unauthorized"@ {
        plain("error-unauthorized"@)
    } else if code == "device_not_found"@ {
        plain("error-device_not_found"@)
    } else if code == "device_not_connected"@ {
        plain("error-device_not_connected"@)
    } else if code == "already_paired"@ {
        plain("error-already_paired"@)
    } else if code == "pairing_in_progress"@ {
        plain("error-pairing_in_progress"@)
    } else if code == "pairing_not_found"@ {
        plain("error-pairing_not_found"@)
    } else if code == "invalid_pairing_state"@ || code == "invalid_pairing_direction"@ {
        plain("error-invalid_pairing_state"@)
    } else if code == "device_not_paired"@ {
        plain("error-device_not_paired"@)
    } else if code == "unsupported_by_peer"@ {
        plain("error-unsupported_by_peer"@)
    } else if code == "invalid_file_name"@ {
        plain("error-invalid_file_name"@)
    } else if code == "transfer_too_large"@ || code == "payload_too_large"@ {
        plain("error-transfer_too_large"@)
    } else if code == "transfer_not_found"@ {
        plain("error-transfer_not_found"@)
    } else if code == "invalid_transfer_state"@ {
        plain("error-invalid_transfer_state"@)
    } else if code == "request_timeout"@ {
        plain("error-request_timeout"@)
    } else if code == "invalid_device_name"@ {
        plain("error-invalid_device_name"@)
    } else if code == "invalid_download_dir"@ {
        plain("error-invalid_download_dir"@)
    } else if code == "invalid_address"@ {
        plain("error-invalid_address"@)
    } else {
        with_arg("error-unknown"@, "code"@, ArgView::Text(code))
    }
}

/// The message for a failure with this code, for the shell to put in the
/// user's language.
pub fn code_words(code: &str) -> (w: Words)
    ensures
        w@ == code_words_of(code@),
{
    if same(code, "daemon_unavailable") {
        message("error-daemon_unavailable")
    } else if same(code, "unauthorized") {
        message("error-unauthorized")
    } else if same(code, "device_not_found") {
        message("error-device_not_found")
    } else if same(code, "device_not_connected") {
        message("error-device_not_connected")
    } else if same(code, "already_paired") {
        message("error-already_paired")
    } else if same(code, "pairing_in_progress") {
        message("error-pairing_in_progress")
    } else if same(code, "pairing_not_found") {
        message("error-pairing_not_found")
    } else if same(code, "invalid_pairing_state") || same(code, "invalid_pairing_direction") {
        message("error-invalid_pairing_state")
    } else if same(code, "device_not_paired") {
        message("error-device_not_paired")
    } else if same(code, "unsupported_by_peer") {
        message("error-unsupported_by_peer")
    } else if same(code, "invalid_file_name") {
        message("error-invalid_file_name")
    } else if same(code, "transfer_too_large") || same(code, "payload_too_large") {
        message("error-transfer_too_large")
    } else if same(code, "transfer_not_found") {
        message("error-transfer_not_found")
    } else if same(code, "invalid_transfer_state") {
        message("error-invalid_transfer_state")
    } else if same(code, "request_timeout") {
        message("error-request_timeout")
    } else if same(code, "invalid_device_name") {
        message("error-invalid_device_name")
    } else if same(code, "invalid_download_dir") {
        message("error-invalid_download_dir")
    } else if same(code, "invalid_address") {
        message("error-invalid_address")
    } else {
        with_text("error-unknown", "code", code)
    }
}

/// The message for `error`.
pub fn error_words(error: &CoreError) -> (w: Words)
    ensures
        w@ == code_words_of(error_code(*error)),
{
    code_words(error.code())
}

/// What was being done to a batch of files, for [`describe_file_failures`].
#[derive(Debug, Clone, Copy, PartialEq, Eq, Structural)]
pub enum FileBatch {
    /// Sending files to a device.
    Send,
    /// Uploading files to a folder on a device.
    Upload,
}

/// The sentence about the failures of a batch: the one file by name, or
/// how many failed; and the first reason.
pub open spec fn failures_message(batch: FileBatch, failures: Seq<(Seq<char>, Seq<char>)>) -> Option<Seq<char>> {
    if failures.len() == 0 {
        None
    } else {
        let verb = match batch {
            FileBatch::Send => "Couldn’t send "@,
            FileBatch::Upload => "Couldn’t upload "@,
        };
        let what = if failures.len() == 1 {
            file_name_of(failures[0].0)
        } else {
            decimal(failures.len()) + " files"@
        };
        Some(verb + what + ": "@ + failures[0].1)
    }
}

/// The paths and reasons of `failures`.
pub open spec fn failure_views(failures: Seq<(String, String)>) -> Seq<(Seq<char>, Seq<char>)> {
    failures.map_values(|f: (String, String)| (f.0@, f.1@))
}

/// One sentence about the files among a batch that failed, if any: each
/// failure is a file (its path) and why. Only the first reason is given.
pub fn describe_file_failures(batch: FileBatch, failures: &[(String, String)]) -> (sentence: Option<String>)
    ensures
        sentence matches Some(s) ==> failures_message(batch, failure_views(failures@)) == Some(s@),
        sentence is None <==> failures_message(batch, failure_views(failures@)) is None,
{
    if failures.len() == 0 {
        return None;
    }
    let verb = match batch {
        FileBatch::Send => "Couldn’t send ",
        FileBatch::Upload => "Couldn’t upload ",
    };
    let (path, reason) = &failures[0];
    let what = if failures.len() == 1 {
        file_name(path.as_str())
    } else {
        let mut count = decimal_string(failures.len() as u64);
        count.append(" files");
        count
    };
    let mut sentence = owned(verb);
    sentence.append(what.as_str());
    sentence.append(": ");
    sentence.append(reason.as_str());
    Some(sentence)
}

/// The message about the failures of a batch, if any failed: the one
/// file by name, or how many failed; and the first reason.
pub open spec fn failures_words_of(batch: FileBatch, failures: Seq<(Seq<char>, Seq<char>)>) -> Option<WordsView> {
    if failures.len() == 0 {
        None
    } else {
        let reason = ("reason"@, ArgView::Text(failures[0].1));
        Some(if failures.len() == 1 {
            let file = ("file"@, ArgView::Text(file_name_of(failures[0].0)));
            match batch {
                FileBatch::Send => with_args("error-send-file-failed"@, file, reason),
                FileBatch::Upload => with_args("error-upload-file-failed"@, file, reason),
            }
        } else {
            let count = ("count"@, ArgView::Number(failures.len() as u64));
            match batch {
                FileBatch::Send => with_args("error-send-files-failed"@, count, reason),
                FileBatch::Upload => with_args("error-upload-files-failed"@, count, reason),
            }
        })
    }
}

/// The message about the files among a batch that failed, if any: each
/// failure is a file (its path) and why. Only the first reason is given.
pub fn file_failures_words(batch: FileBatch, failures: &[(String, String)]) -> (w: Option<Words>)
    ensures
        match failures_words_of(batch, failure_views(failures@)) {
            Some(v) => w matches Some(x) && x@ == v,
            None => w is None,
        },
{
    if failures.len() == 0 {
        return None;
    }
    let (path, reason) = &failures[0];
    let why = ("reason", Arg::Text(owned(reason.as_str())));
    Some(if failures.len() == 1 {
        let file = ("file", Arg::Text(file_name(path.as_str())));
        match batch {
            FileBatch::Send => with_two("error-send-file-failed", file, why),
            FileBatch::Upload => with_two("error-upload-file-failed", file, why),
        }
    } else {
        let count = ("count", Arg::Number(failures.len() as u64));
        match batch {
            FileBatch::Send => with_two("error-send-files-failed", count, why),
            FileBatch::Upload => with_two("error-upload-files-failed", count, why),
        }
    })
}

/// The position of the last `/` in `s`, or -1.
pub open spec fn last_slash(s: Seq<char>) -> int
    decreases s.len(),
{
    if s.len() == 0 {
        -1
    } else if s.last() == '/' {
        s.len() - 1
    } else {
        last_slash(s.drop_last())
    }
}

/// The last component of a path: its last part between slashes that isn't
/// empty or `.`; none if there is no such part or it is `..`.
pub open spec fn path_file_name(s: Seq<char>) -> Option<Seq<char>>
    decreases s.len(),
{
    let k = last_slash(s);
    let segment = s.subrange(k + 1, s.len() as int);
    if segment.len() == 0 || segment == "."@ {
        if k < 0 {
            None
        } else {
            proof { lemma_last_slash_bounds(s); }
            path_file_name(s.subrange(0, k))
        }
    } else if segment == ".."@ {
        None
    } else {
        Some(segment)
    }
}

/// The name shown for a path: its file name, or the whole path if it has
/// none.
pub open spec fn file_name_of(s: Seq<char>) -> Seq<char> {
    match path_file_name(s) {
        Some(name) => name,
        None => s,
    }
}

/// The last slash's place is within `s` (or -1), with no slash after it.
pub proof fn lemma_last_slash_bounds(s: Seq<char>)
    ensures
        -1 <= last_slash(s) < s.len(),
        last_slash(s) >= 0 ==> s[last_slash(s)] == '/',
        forall|j: int| last_slash(s) < j < s.len() ==> s[j] != '/',
    decreases s.len(),
{
    if s.len() > 0 && s.last() != '/' {
        lemma_last_slash_bounds(s.drop_last());
        assert forall|j: int| last_slash(s) < j < s.len() implies s[j] != '/' by {
            if j < s.len() - 1 {
                assert(s[j] == s.drop_last()[j]);
            }
        }
    }
}

/// The position of the last `/` among the first `end` characters of `s`.
fn find_last_slash(s: &str, end: usize) -> (k: Option<usize>)
    requires
        end <= s@.len(),
    ensures
        match k {
            Some(k) => k < end && last_slash(s@.subrange(0, end as int)) == k,
            None => last_slash(s@.subrange(0, end as int)) == -1,
        },
{
    let mut i = end;
    while i > 0
        invariant
            i <= end <= s@.len(),
            last_slash(s@.subrange(0, end as int)) == last_slash(s@.subrange(0, i as int)),
        decreases i,
    {
        let ghost prefix = s@.subrange(0, i as int);
        if s.get_char(i - 1) == '/' {
            return Some(i - 1);
        }
        assert(prefix.drop_last() =~= s@.subrange(0, i - 1));
        i = i - 1;
    }
    None
}

/// The last part of `path`, for the user.
pub fn file_name(path: &str) -> (name: String)
    ensures
        name@ == file_name_of(path@),
{
    let n = path.unicode_len();
    let mut end = n;
    assert(path@.subrange(0, n as int) =~= path@);
    loop
        invariant
            end <= n == path@.len(),
            path_file_name(path@) == path_file_name(path@.subrange(0, end as int)),
        decreases end,
    {
        let ghost s = path@.subrange(0, end as int);
        let k = find_last_slash(path, end);
        let start = match k {
            Some(k) => k + 1,
            None => 0,
        };
        let segment = path.substring_char(start, end);
        assert(segment@ =~= s.subrange(last_slash(s) + 1, s.len() as int));
        if segment.unicode_len() == 0 || same(segment, ".") {
            match k {
                None => return owned(path),
                Some(k) => {
                    assert(s.subrange(0, k as int) =~= path@.subrange(0, k as int));
                    end = k;
                }
            }
        } else if same(segment, "..") {
            return owned(path);
        } else {
            return owned(segment);
        }
    }
}

} // verus!
