use myconnect::browse::{FileEntry, FileKind, REQUEST_PACKET_TYPE};
use myconnect::browse_ui::{BrowseUi, Change, Fetch, Message, PreviewImage};
use myconnect::browse_update::{Effect, Naming};
use myconnect::device::{DeviceReachability, DeviceSnapshot, DeviceType};
use myconnect::route::Route;

const INTERNAL: &str = "/storage/emulated/0";
const SD_CARD: &str = "/storage/sdcard";

fn pixel() -> DeviceSnapshot {
    DeviceSnapshot {
        device_id: "740bd4b9b4184ee497d6caf1da8151be".to_string(),
        device_name: "Pixel".to_string(),
        device_type: DeviceType::Phone,
        paired: true,
        reachability: DeviceReachability::Connected,
        incoming_capabilities: vec![REQUEST_PACKET_TYPE.to_string()],
        outgoing_capabilities: Vec::new(),
        battery: None,
    }
}

fn directory(path: &str, name: Option<&str>) -> FileEntry {
    FileEntry {
        name: name.unwrap_or_else(|| path.rsplit('/').next().unwrap()).to_string(),
        path: path.to_string(),
        kind: FileKind::Directory,
        size: None,
        modified_at: None,
    }
}

fn file(path: &str, size: u64) -> FileEntry {
    FileEntry {
        name: path.rsplit('/').next().unwrap().to_string(),
        path: path.to_string(),
        kind: FileKind::File,
        size: Some(size),
        modified_at: Some(1_790_258_580_000),
    }
}

/// What the phone answers for a folder.
fn listing(folder: Option<&str>) -> Vec<FileEntry> {
    match folder {
        None => vec![directory(INTERNAL, Some("All files")), directory(SD_CARD, Some("SD card"))],
        Some(INTERNAL) => vec![
            file(&format!("{INTERNAL}/notes.txt"), 2048),
            directory(&format!("{INTERNAL}/DCIM"), None),
            file(&format!("{INTERNAL}/photo.png"), 100),
        ],
        _ => Vec::new(),
    }
}

fn route(folder: Option<&str>) -> Route {
    Route::Browse { device: pixel().device_id, folder: folder.map(str::to_string) }
}

/// Answer each fetch as the phone would.
fn answer(ui: &mut BrowseUi, fetches: Vec<Fetch>) -> Vec<Option<String>> {
    let mut asked = Vec::new();
    for fetch in fetches {
        asked.push(fetch.folder.clone());
        let result = Ok(listing(fetch.folder.as_deref()));
        ui.update(Message::Listed { device_id: fetch.device_id, folder: fetch.folder, request: fetch.request, result });
    }
    asked
}

fn go(ui: &mut BrowseUi, folder: Option<&str>) -> Vec<Option<String>> {
    let fetches = ui.on_route(&route(folder), Some(&pixel()));
    answer(ui, fetches)
}

#[test]
fn storage_then_folders_with_a_breadcrumb_back_up() {
    let mut ui = BrowseUi::new();
    let Effect::Navigate(to) = ui.update(Message::Browse { device_id: pixel().device_id }) else {
        panic!("browsing opens the storage");
    };
    assert!(matches!(&to, Route::Browse { folder: None, .. }));
    assert_eq!(go(&mut ui, None), [None]);
    assert_eq!(ui.roots().len(), 2);

    assert_eq!(go(&mut ui, Some(INTERNAL)), [Some(INTERNAL.to_string())], "the storage is held");
    let Effect::Navigate(Route::Browse { folder, .. }) = ui.update(Message::Up) else {
        panic!("up from a root goes to the storage");
    };
    assert_eq!(folder, None);

    let Effect::Navigate(Route::Device(id)) = ui.update(Message::Back) else {
        panic!("back goes to the device");
    };
    assert_eq!(id, pixel().device_id);
    assert!(ui.on_route(&Route::Device(id), Some(&pixel())).is_empty());
    assert!(ui.listings.is_empty(), "leaving lets go of the files");
    assert!(ui.open.is_none());
}

#[test]
fn a_folder_opened_directly_still_names_its_root() {
    let mut ui = BrowseUi::new();
    let dcim = format!("{INTERNAL}/DCIM");
    assert_eq!(go(&mut ui, Some(&dcim)), [Some(dcim.clone()), None]);
    let Effect::Navigate(Route::Browse { folder, .. }) = ui.update(Message::Up) else {
        panic!("up goes to the parent");
    };
    assert_eq!(folder.as_deref(), Some(INTERNAL));
}

#[test]
fn opening_a_file_downloads_it() {
    let mut ui = BrowseUi::new();
    go(&mut ui, Some(INTERNAL));
    let Effect::Download { path, name, .. } = ui.update(Message::Activate(file(&format!("{INTERNAL}/notes.txt"), 2048)))
    else {
        panic!("a download");
    };
    assert_eq!(path, format!("{INTERNAL}/notes.txt"));
    let Effect::Toast { text, action } = ui.update(Message::Downloading(Ok(name))) else {
        panic!("a toast");
    };
    assert_eq!(text, "Downloading notes.txt");
    assert!(matches!(action, Some((label, Route::Transfers)) if label == "Transfers"));
}

#[test]
fn opening_a_small_image_previews_it() {
    let mut ui = BrowseUi::new();
    go(&mut ui, Some(INTERNAL));
    let photo = file(&format!("{INTERNAL}/photo.png"), 100);
    let Effect::Read { path, .. } = ui.update(Message::Activate(photo)) else {
        panic!("a preview reads the image");
    };
    assert!(matches!(ui.preview.as_ref().map(|p| &p.image), Some(PreviewImage::Loading)));
    ui.update(Message::Previewed { path: path.clone(), result: Err("This image can’t be shown.".to_string()) });
    assert!(matches!(&ui.preview.as_ref().unwrap().image, PreviewImage::Failed(e) if e == "This image can’t be shown."));
    ui.update(Message::ClosePreview);
    assert!(ui.preview.is_none());
}

#[test]
fn renaming_moves_the_file_within_its_folder() {
    let mut ui = BrowseUi::new();
    go(&mut ui, Some(INTERNAL));
    let notes = file(&format!("{INTERNAL}/notes.txt"), 2048);
    let Effect::Prompt(prompt) = ui.update(Message::Rename(notes.clone())) else {
        panic!("a prompt");
    };
    assert_eq!((prompt.title.as_str(), prompt.confirm_label.as_str()), ("Rename", "Rename"));
    assert_eq!(prompt.initial, "notes.txt");
    assert_eq!(prompt.selection, Some((0, 5)), "the name without its extension");
    assert!(matches!(prompt.naming, Naming::Rename(_)));

    let Message::Change { change: Change::Move { from, to }, .. } = prompt.answer("todo.txt".to_string()) else {
        panic!("a move");
    };
    assert_eq!((from, to), (format!("{INTERNAL}/notes.txt"), format!("{INTERNAL}/todo.txt")));
    // The same name changes nothing.
    assert!(matches!(prompt.answer("notes.txt".to_string()), Message::Changed { error: None, .. }));
}

#[test]
fn new_folders_are_created_in_the_open_folder() {
    let mut ui = BrowseUi::new();
    go(&mut ui, Some(INTERNAL));
    let Effect::Prompt(prompt) = ui.update(Message::NewFolder) else {
        panic!("a prompt");
    };
    assert_eq!((prompt.title.as_str(), prompt.confirm_label.as_str()), ("New folder", "Create"));
    assert_eq!((prompt.initial.as_str(), prompt.selection), ("", None));
    let Message::Change { change: Change::CreateDirectory(path), .. } = prompt.answer("Trip".to_string()) else {
        panic!("a new folder");
    };
    assert_eq!(path, format!("{INTERNAL}/Trip"));
}

#[test]
fn deleting_asks_first_and_warns_about_folder_contents() {
    let mut ui = BrowseUi::new();
    go(&mut ui, Some(INTERNAL));
    let Effect::Confirm { title, body, confirm_label, then } =
        ui.update(Message::Delete(directory(&format!("{INTERNAL}/DCIM"), None)))
    else {
        panic!("a confirmation");
    };
    assert_eq!(title, "Delete folder?");
    assert!(body.starts_with("“DCIM” and everything in it"), "{body}");
    assert_eq!(confirm_label, "Delete");
    assert!(matches!(then, Message::Change { change: Change::Delete(ref path), .. } if *path == format!("{INTERNAL}/DCIM")));

    let Effect::Confirm { title, body, .. } = ui.update(Message::Delete(file(&format!("{INTERNAL}/notes.txt"), 1)))
    else {
        panic!("a confirmation");
    };
    assert_eq!(title, "Delete file?");
    assert_eq!(body, "“notes.txt” will be deleted from the device. This can’t be undone.");
}

#[test]
fn a_failed_change_is_reported_and_the_folder_listed_again() {
    let mut ui = BrowseUi::new();
    go(&mut ui, Some(INTERNAL));
    let Effect::Relist { fetch: Some(fetch), error } = ui.update(Message::Changed {
        device_id: pixel().device_id,
        folder: INTERNAL.to_string(),
        error: Some("There is already a file or folder with that name.".to_string()),
    }) else {
        panic!("the folder is listed again");
    };
    assert_eq!(fetch.folder.as_deref(), Some(INTERNAL));
    assert_eq!(error.as_deref(), Some("There is already a file or folder with that name."));
    // A folder no longer held isn't listed.
    assert!(matches!(
        ui.update(Message::Changed { device_id: pixel().device_id, folder: "/elsewhere".to_string(), error: None }),
        Effect::Relist { fetch: None, error: None }
    ));
}

#[test]
fn upload_files_picks_files_for_the_open_folder() {
    let mut ui = BrowseUi::new();
    go(&mut ui, Some(SD_CARD));
    let Effect::PickFiles { title, folder, .. } = ui.update(Message::PickUploads) else {
        panic!("a picker");
    };
    assert_eq!(title, "Upload files to SD card");
    assert_eq!(folder, SD_CARD);
    // Only inside a folder.
    go(&mut ui, None);
    assert!(matches!(ui.update(Message::PickUploads), Effect::Nothing));
    assert!(matches!(ui.update(Message::NewFolder), Effect::Nothing));
}

#[test]
fn browsing_needs_a_device_that_shares_its_files() {
    let mut away = pixel();
    away.reachability = DeviceReachability::Discovered;
    let mut ui = BrowseUi::new();
    assert!(ui.on_route(&route(None), Some(&away)).is_empty(), "nothing asked");
    assert!(!ui.shares);
}

#[test]
fn the_files_are_listed_again_once_the_device_is_back() {
    let mut ui = BrowseUi::new();
    go(&mut ui, Some(INTERNAL));
    let mut away = pixel();
    away.reachability = DeviceReachability::Discovered;
    assert!(ui.on_event(Some(&away)).is_empty());
    let again = ui.on_event(Some(&pixel()));
    let folders: Vec<_> = again.iter().map(|f| f.folder.clone()).collect();
    assert_eq!(folders, [None, Some(INTERNAL.to_string())]);
    // Nothing changed: nothing listed.
    assert!(ui.on_event(Some(&pixel())).is_empty());
}

#[test]
fn only_the_newest_listing_of_a_folder_counts() {
    let mut ui = BrowseUi::new();
    go(&mut ui, Some(INTERNAL));
    let Effect::List(fetches) = ui.update(Message::Refresh) else {
        panic!("refresh lists the folder");
    };
    let stale = Message::Listed {
        device_id: pixel().device_id,
        folder: Some(INTERNAL.to_string()),
        request: 0,
        result: Err("stale".to_string()),
    };
    ui.update(stale);
    let held = ui.listings.iter().find(|l| l.folder.as_deref() == Some(INTERNAL)).unwrap();
    assert!(matches!(&held.answer, Some(Ok(entries)) if entries.len() == 3));
    assert_eq!(held.request, fetches[0].request);
}
