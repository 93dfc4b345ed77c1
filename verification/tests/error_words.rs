use myconnect::error::{describe_code, describe_error, describe_file_failures, file_name, CoreError, FileBatch};

/// Every code the Flutter app worded that isn't a plugin's, worded the same.
#[test]
fn error_codes_read_like_the_flutter_app() {
    for (code, message) in [
        ("daemon_unavailable", "Ferry is not responding."),
        ("unauthorized", "Ferry rejected this app’s access token."),
        ("device_not_found", "That device is no longer known."),
        ("device_not_connected", "The device is not connected right now."),
        ("already_paired", "The device is already paired."),
        ("pairing_in_progress", "A pairing with this device is already running."),
        ("pairing_not_found", "That pairing request no longer exists."),
        ("invalid_pairing_state", "That pairing request is no longer active."),
        ("invalid_pairing_direction", "That pairing request is no longer active."),
        ("device_not_paired", "The device is not paired."),
        ("unsupported_by_peer", "The device doesn’t support that."),
        ("invalid_file_name", "That file name can’t be sent."),
        ("transfer_too_large", "The file is too large to send."),
        ("payload_too_large", "The file is too large to send."),
        ("transfer_not_found", "That transfer no longer exists."),
        ("invalid_transfer_state", "That transfer has already finished."),
        ("request_timeout", "Ferry took too long to respond."),
        (
            "invalid_device_name",
            "Use 1 to 32 characters, without . , : ; ! ? ( ) [ ] < > or quotes.",
        ),
        ("invalid_download_dir", "That folder can’t be used for downloads."),
        ("invalid_address", "Enter an IPv4 address, like 192.168.1.20."),
        ("teapot", "Something went wrong (teapot)."),
    ] {
        assert_eq!(describe_code(code), message, "{code}");
    }
}

#[test]
fn core_errors_are_worded_by_their_code() {
    assert_eq!(
        describe_error(&CoreError::DeviceNotConnected),
        "The device is not connected right now."
    );
    assert_eq!(
        describe_error(&CoreError::InvalidDiscoveryAddress),
        "Enter an IPv4 address, like 192.168.1.20."
    );
    assert_eq!(
        describe_error(&CoreError::Internal),
        "Something went wrong (internal_error)."
    );
}

#[test]
fn failed_files_are_summed_up_in_one_sentence() {
    let failed = |name: &str, reason: &str| (format!("/tmp/{name}"), reason.to_string());
    assert_eq!(describe_file_failures(FileBatch::Send, &[]), None);
    assert_eq!(
        describe_file_failures(FileBatch::Send, &[failed("photo.jpg", "It broke.")]).unwrap(),
        "Couldn’t send photo.jpg: It broke."
    );
    assert_eq!(
        describe_file_failures(FileBatch::Upload, &[failed("a.txt", "First."), failed("b.txt", "Second.")]).unwrap(),
        "Couldn’t upload 2 files: First."
    );
    assert_eq!(
        describe_file_failures(FileBatch::Upload, &[failed("a.txt", "Gone.")]).unwrap(),
        "Couldn’t upload a.txt: Gone."
    );
    assert_eq!(
        describe_file_failures(FileBatch::Send, &[failed("a.txt", "First."), failed("b.txt", "Second.")]).unwrap(),
        "Couldn’t send 2 files: First."
    );
}

#[test]
fn a_file_name_is_the_last_part_of_its_path() {
    assert_eq!(file_name("/tmp/photo.jpg"), "photo.jpg");
    assert_eq!(file_name("/tmp/album/"), "album");
    assert_eq!(file_name("/tmp/album/."), "album");
    assert_eq!(file_name("/"), "/");
    assert_eq!(file_name("/tmp/.."), "/tmp/..");
    assert_eq!(file_name("notes.txt"), "notes.txt");
}

#[test]
fn many_failures_are_counted() {
    let failures: Vec<(String, String)> =
        (0..12).map(|i| (format!("/tmp/{i}.txt"), "Gone.".to_string())).collect();
    assert_eq!(
        describe_file_failures(FileBatch::Send, &failures).unwrap(),
        "Couldn’t send 12 files: Gone."
    );
}
