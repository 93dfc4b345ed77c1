use myconnect::browse::{crumbs, folder_name, FileEntry, FileKind, invalid_name_reason, can_preview, extension, parent_of};
use myconnect::browse_describe::{describe, describe_error, BrowseError};
use myconnect::error::CoreError;

const INTERNAL: &str = "/storage/emulated/0";

fn directory(path: &str, name: Option<&str>) -> FileEntry {
    FileEntry {
        name: name.unwrap_or_else(|| path.rsplit('/').next().unwrap()).into(),
        path: path.into(),
        kind: FileKind::Directory,
        size: None,
        modified_at: None,
    }
}

fn file(path: &str, size: u64) -> FileEntry {
    FileEntry {
        name: path.rsplit('/').next().unwrap().into(),
        path: path.into(),
        kind: FileKind::File,
        size: Some(size),
        modified_at: None,
    }
}

fn check_crumbs() {
    let roots = [directory(INTERNAL, Some("All files"))];
    assert_eq!(
        crumbs(Some(&format!("{INTERNAL}/DCIM/Camera")), &roots),
        [
            ("Storage".to_owned(), None),
            ("All files".into(), Some(INTERNAL.into())),
            ("DCIM".into(), Some(format!("{INTERNAL}/DCIM"))),
            ("Camera".into(), Some(format!("{INTERNAL}/DCIM/Camera"))),
        ]
    );
    // Outside every root, the path's own folders.
    assert_eq!(
        crumbs(Some("/sdcard/Music"), &roots),
        [
            ("Storage".to_owned(), None),
            ("sdcard".into(), Some("/sdcard".into())),
            ("Music".into(), Some("/sdcard/Music".into())),
        ]
    );
    // A root's name isn't mistaken for a prefix of another folder.
    assert_eq!(folder_name(&format!("{INTERNAL}0/x"), &roots), "x", "{INTERNAL}0 isn't inside {INTERNAL}");
}

#[test]
fn browse_crumbs_follow_the_root_then_each_folder() {
    check_crumbs();
}

#[test]
fn view_crumbs_follow_the_root_then_each_folder() {
    check_crumbs();
}

fn check_codes() {
    for (code, message) in [
        ("file_not_found", "That file or folder no longer exists."),
        ("file_exists", "There is already a file or folder with that name."),
        ("file_permission_denied", "The device doesn’t allow that."),
        ("not_a_directory", "That isn’t a folder."),
        ("is_a_directory", "Folders can’t be downloaded, only files."),
        ("invalid_path", "That name or location can’t be used."),
        ("files_failed", "The device’s files couldn’t be reached."),
        ("files_timed_out", "The device took too long to answer."),
        (
            "files_host_key_mismatch",
            "The device’s file server didn’t prove it is the paired device, so \
             MyConnect didn’t connect to it.",
        ),
    ] {
        assert_eq!(describe(code, None), message, "{code}");
    }
}

#[test]
fn browse_codes_read_like_the_flutter_app() {
    check_codes();
}

#[test]
fn describe_codes_read_like_the_flutter_app() {
    check_codes();
}

fn check_unavailable() {
    assert_eq!(
        describe_error(&BrowseError::Unavailable { reason: Some("No storage access".into()) }),
        "The device isn’t sharing its files (No storage access). In KDE Connect on \
         the device, allow access to files in the Filesystem expose plugin."
    );
    assert_eq!(
        describe_error(&BrowseError::Unavailable { reason: None }),
        "The device isn’t sharing its files. In KDE Connect on the device, allow \
         access to files in the Filesystem expose plugin."
    );
}

#[test]
fn browse_unavailable_says_why_when_the_device_does() {
    check_unavailable();
}

#[test]
fn describe_unavailable_says_why_when_the_device_does() {
    check_unavailable();
}

fn check_core_errors() {
    assert_eq!(
        describe_error(&BrowseError::Core(CoreError::DeviceNotConnected)),
        "The device is not connected right now."
    );
}

#[test]
fn browse_core_errors_read_as_the_core_words_them() {
    check_core_errors();
}

#[test]
fn describe_core_errors_read_as_the_core_words_them() {
    check_core_errors();
}

#[test]
fn names_are_refused_before_asking_the_device() {
    assert_eq!(invalid_name_reason("a/b").as_deref(), Some("Names can’t contain “/”."));
    assert_eq!(invalid_name_reason("  ").as_deref(), Some("Enter a name."));
    assert_eq!(invalid_name_reason("").as_deref(), Some("Enter a name."));
    assert_eq!(invalid_name_reason("..").as_deref(), Some("That name is reserved."));
    assert_eq!(invalid_name_reason("."), Some("That name is reserved.".to_string()));
    assert_eq!(invalid_name_reason("Trip"), None);
}

#[test]
fn small_images_preview_and_the_rest_download() {
    assert!(can_preview(&file("/a/photo.PNG", 10)));
    assert!(!can_preview(&file("/a/notes.txt", 10)));
    assert!(!can_preview(&file("/a/huge.jpg", 33 * 1024 * 1024)));
    assert!(can_preview(&file("/a/edge.jpg", 32 * 1024 * 1024)));
    assert!(!can_preview(&directory("/a/pics.jpg", None)));
    assert_eq!(extension(".nomedia"), None);
    assert_eq!(extension("archive.tar.GZ").as_deref(), Some("gz"));
    assert_eq!(extension("README"), None);
}

#[test]
fn a_folder_is_in_its_parent() {
    assert_eq!(parent_of("/storage/emulated/0/DCIM").as_deref(), Some("/storage/emulated/0"));
    assert_eq!(parent_of("/sdcard").as_deref(), Some("/"));
    assert_eq!(parent_of("/"), None);
}
