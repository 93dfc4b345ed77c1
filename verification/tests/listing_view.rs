use myconnect::browse::{FileEntry, FileKind, REQUEST_PACKET_TYPE};
use myconnect::browse_order::{Column, Sort};
use myconnect::browse_page::{
    file_icon, header_actions, page_title, row_actions, sort_arrow, sorted, unavailable, FileIcon, Listed, RowAction,
};
use myconnect::browse_ui::{BrowseUi, Listing};
use myconnect::device::{DeviceReachability, DeviceSnapshot, DeviceType};

fn phone(reachability: DeviceReachability, shares: bool) -> DeviceSnapshot {
    DeviceSnapshot {
        device_id: "740bd4b9b4184ee497d6caf1da8151be".to_string(),
        device_name: "Pixel".to_string(),
        device_type: DeviceType::Phone,
        paired: true,
        reachability,
        incoming_capabilities: if shares { vec![REQUEST_PACKET_TYPE.to_string()] } else { Vec::new() },
        outgoing_capabilities: Vec::new(),
        battery: None,
    }
}

fn entry(name: &str, kind: FileKind, size: Option<u64>, modified_at: Option<u64>) -> FileEntry {
    FileEntry { path: format!("/sdcard/{name}"), name: name.to_string(), kind, size, modified_at }
}

fn folder(name: &str) -> FileEntry {
    entry(name, FileKind::Directory, None, None)
}

fn file(name: &str, size: u64, modified_at: u64) -> FileEntry {
    entry(name, FileKind::File, Some(size), Some(modified_at))
}

fn names(entries: &[FileEntry], order: &[usize]) -> Vec<String> {
    order.iter().map(|&k| entries[k].name.clone()).collect()
}

fn browser(folder: Option<&str>, answer: Option<Result<Vec<FileEntry>, String>>) -> BrowseUi {
    let mut ui = BrowseUi::new();
    ui.listings.push(Listing { folder: folder.map(str::to_string), request: 1, answer });
    ui
}

#[test]
fn the_title_names_the_device() {
    assert_eq!(page_title(&phone(DeviceReachability::Connected, true)), "Files on Pixel");
}

#[test]
fn a_device_that_cannot_be_browsed_says_why() {
    assert_eq!(unavailable(&phone(DeviceReachability::Connected, true)), None);
    assert_eq!(
        unavailable(&phone(DeviceReachability::Connected, false)).as_deref(),
        Some("Pixel doesn’t share its files.")
    );
    assert_eq!(
        unavailable(&phone(DeviceReachability::Unavailable, false)).as_deref(),
        Some("Connect Pixel to browse its files.")
    );
}

#[test]
fn folders_come_first_then_names_ignoring_case() {
    let entries = vec![file("b.txt", 1, 1), folder("Zed"), file("A.txt", 1, 1), folder("alpha")];
    let order = sorted(&entries, false, Sort::default());
    assert_eq!(names(&entries, &order), ["alpha", "Zed", "A.txt", "b.txt"]);
    let order = sorted(&entries, false, Sort { by: Column::Name, ascending: false });
    assert_eq!(names(&entries, &order), ["Zed", "alpha", "b.txt", "A.txt"], "folders stay first");
}

#[test]
fn sorting_by_size_or_date_falls_back_to_the_name() {
    let entries = vec![file("c", 30, 3), file("a", 10, 9), file("b", 10, 1)];
    let by_size = sorted(&entries, false, Sort { by: Column::Size, ascending: true });
    assert_eq!(names(&entries, &by_size), ["a", "b", "c"]);
    let by_date = sorted(&entries, false, Sort { by: Column::Modified, ascending: false });
    assert_eq!(names(&entries, &by_date), ["a", "c", "b"]);
}

#[test]
fn files_that_tie_keep_their_order() {
    let entries = vec![file("same", 1, 1), file("other", 2, 2), file("same", 1, 1)];
    assert_eq!(sorted(&entries, false, Sort::default()), [1, 0, 2]);
}

#[test]
fn hidden_files_show_only_when_asked() {
    let entries = vec![file(".nomedia", 0, 1), file("photo.png", 5, 1)];
    assert_eq!(sorted(&entries, false, Sort::default()), [1]);
    assert_eq!(sorted(&entries, true, Sort::default()), [0, 1]);
}

#[test]
fn a_listing_loads_fails_or_shows_its_files() {
    let ui = BrowseUi::new();
    assert!(matches!(ui.listing(&Some("/sdcard".to_string())), Listed::Loading(t) if t == "Loading the folder…"));
    assert!(matches!(ui.listing(&None), Listed::Loading(t) if t == "Connecting to the device…"));

    let ui = browser(Some("/sdcard"), Some(Err("The device stopped answering.".to_string())));
    assert!(matches!(ui.listing(&Some("/sdcard".to_string())), Listed::Failed(t) if t == "The device stopped answering."));

    let ui = browser(Some("/sdcard"), Some(Ok(vec![file(".hidden", 1, 1)])));
    assert!(matches!(
        ui.listing(&Some("/sdcard".to_string())),
        Listed::Empty(t) if t == "This folder is empty. Drop files here to upload them."
    ));

    let ui = browser(None, Some(Ok(Vec::new())));
    assert!(matches!(ui.listing(&None), Listed::Empty(t) if t == "The device isn’t sharing any storage."));

    let ui = browser(None, Some(Ok(vec![folder("SD card"), folder("All files")])));
    assert!(matches!(ui.listing(&None), Listed::Roots(p) if p == [0, 1]), "roots keep the device's order");

    let ui = browser(Some("/sdcard"), Some(Ok(vec![file("b", 1, 1), folder("a")])));
    assert!(matches!(ui.listing(&Some("/sdcard".to_string())), Listed::Files(p) if p == [1, 0]));
}

#[test]
fn a_row_offers_what_fits_the_file() {
    assert_eq!(
        row_actions(&file("photo.png", 100, 1)),
        [RowAction::Preview, RowAction::Download, RowAction::Rename, RowAction::Delete]
    );
    assert_eq!(row_actions(&file("notes.txt", 100, 1)), [RowAction::Download, RowAction::Rename, RowAction::Delete]);
    assert_eq!(row_actions(&folder("DCIM")), [RowAction::Rename, RowAction::Delete]);
}

#[test]
fn only_the_sorted_column_shows_an_arrow() {
    let sort = Sort { by: Column::Size, ascending: false };
    assert_eq!(sort_arrow(sort, Column::Size), Some(false));
    assert_eq!(sort_arrow(sort, Column::Name), None);
    assert_eq!(sort_arrow(Sort::default(), Column::Name), Some(true));
}

#[test]
fn the_header_offers_uploads_only_inside_a_folder() {
    let actions = header_actions(true, false, false);
    assert_eq!(actions[0], ("Upload files".to_string(), false));
    assert_eq!(actions[1], ("New folder".to_string(), false));
    assert_eq!(actions[2], ("Refresh".to_string(), true));
    assert_eq!(actions[3], ("Show hidden files".to_string(), true));
    let actions = header_actions(true, true, true);
    assert!(actions[0].1 && actions[1].1);
    assert_eq!(actions[3].0, "Hide hidden files");
    assert!(!header_actions(false, true, false)[2].1);
}

#[test]
fn each_file_gets_its_icon() {
    assert_eq!(file_icon(&folder("DCIM")), FileIcon::Folder);
    assert_eq!(file_icon(&file("IMG.JPG", 1, 1)), FileIcon::Image);
    assert_eq!(file_icon(&file("clip.mp4", 1, 1)), FileIcon::Film);
    assert_eq!(file_icon(&file("song.flac", 1, 1)), FileIcon::Music);
    assert_eq!(file_icon(&file("paper.pdf", 1, 1)), FileIcon::Text);
    assert_eq!(file_icon(&file("backup.tar", 1, 1)), FileIcon::Archive);
    assert_eq!(file_icon(&file("app.apk", 1, 1)), FileIcon::Package);
    assert_eq!(file_icon(&file("README", 1, 1)), FileIcon::File);
}
