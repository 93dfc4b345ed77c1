//! What the file browser's page shows: its title, why a device can't be
//! browsed, the listing (loading, failed, empty, or the files in order),
//! the actions in its header and under a file, and each file's icon.

use vstd::prelude::*;
use crate::browse::{FileEntry, FileKind, shares, shares_files, extension, extension_of, lowercase,
    previews, can_preview};
use crate::browse_order::{Sort, Column, goes_after, ties, after, lemma_goes_after_flips};
use crate::browse_ui::{BrowseUi, Listing, lookup, position_of, lemma_listing_from};
use crate::device::{DeviceSnapshot, connected, is_connected};
use crate::route::opt_text;
use crate::text::{owned, same, join2, join3};

verus! {

/// The page's title.
pub fn page_title(device: &DeviceSnapshot) -> (title: String)
    ensures
        title@ == "Files on "@ + device.device_name@,
{
    join2("Files on ", device.device_name.as_str())
}

/// Why `device`'s files can't be browsed now, if they can't: it isn't
/// connected, or doesn't share them.
pub fn unavailable(device: &DeviceSnapshot) -> (reason: Option<String>)
    ensures
        shares(*device) ==> reason is None,
        !shares(*device) && connected(*device) ==> (reason matches Some(r) && r@ == device.device_name@ + " doesn’t share its files."@),
        !shares(*device) && !connected(*device) ==> (reason matches Some(r) && r@ == "Connect "@ + device.device_name@ + " to browse its files."@),
{
    if shares_files(device) {
        None
    } else if is_connected(device) {
        Some(join2(device.device_name.as_str(), " doesn’t share its files."))
    } else {
        Some(join3("Connect ", device.device_name.as_str(), " to browse its files."))
    }
}

/// Whether a file is hidden: its name starts with a dot.
pub open spec fn hidden(file: FileEntry) -> bool {
    file.name@.len() > 0 && file.name@[0] == '.'
}

fn is_hidden(file: &FileEntry) -> (r: bool)
    ensures
        r == hidden(*file),
{
    file.name.unicode_len() > 0 && file.name.get_char(0) == '.'
}

/// The places of the files of `entries` that show, in order: all of them,
/// or those not hidden.
pub open spec fn shown_places(entries: Seq<FileEntry>, show_hidden: bool) -> Seq<usize>
    decreases entries.len(),
{
    if entries.len() == 0 {
        Seq::empty()
    } else {
        let rest = shown_places(entries.drop_last(), show_hidden);
        if show_hidden || !hidden(entries.last()) { rest.push((entries.len() - 1) as usize) } else { rest }
    }
}

/// Each place in `order` is one of `entries`', each file goes no later
/// than the next one in the listing's order, and two files that go in the
/// same place keep the order they came in.
pub open spec fn in_order(entries: Seq<FileEntry>, order: Seq<usize>, sort: Sort) -> bool {
    &&& forall|k: int| 0 <= k < order.len() ==> (#[trigger] order[k]) < entries.len()
    &&& forall|k: int| 0 <= k < order.len() - 1 ==> !goes_after(entries[order[k] as int], entries[#[trigger] order[k + 1] as int], sort)
    &&& forall|k: int| 0 <= k < order.len() - 1 && ties(entries[order[k] as int], entries[#[trigger] order[k + 1] as int], sort)
        ==> order[k] < order[k + 1]
}

/// The places of the files of `entries` that show, in order.
pub fn shown(entries: &Vec<FileEntry>, show_hidden: bool) -> (places: Vec<usize>)
    ensures
        places@ == shown_places(entries@, show_hidden),
        forall|k: int| 0 <= k < places@.len() ==> (#[trigger] places@[k]) < entries@.len(),
        forall|a: int, b: int| 0 <= a < b < places@.len() ==> (#[trigger] places@[a]) < (#[trigger] places@[b]),
{
    let mut places: Vec<usize> = Vec::new();
    let mut i: usize = 0;
    assert(entries@.take(0) =~= Seq::<FileEntry>::empty());
    while i < entries.len()
        invariant
            i <= entries@.len(),
            places@ == shown_places(entries@.take(i as int), show_hidden),
            forall|k: int| 0 <= k < places@.len() ==> (#[trigger] places@[k]) < i,
            forall|a: int, b: int| 0 <= a < b < places@.len() ==> (#[trigger] places@[a]) < (#[trigger] places@[b]),
        decreases entries@.len() - i,
    {
        assert(entries@.take(i + 1).drop_last() =~= entries@.take(i as int));
        assert(entries@.take(i + 1).last() == entries@[i as int]);
        if show_hidden || !is_hidden(&entries[i]) {
            places.push(i);
        }
        i = i + 1;
    }
    assert(entries@.take(entries@.len() as int) =~= entries@);
    places
}

/// The files of `entries` that show, sorted by `sort`: folders first, then
/// by the column, then by name; files in the same place keep their order.
pub fn sorted(entries: &Vec<FileEntry>, show_hidden: bool, sort: Sort) -> (order: Vec<usize>)
    ensures
        order@.to_multiset() == shown_places(entries@, show_hidden).to_multiset(),
        in_order(entries@, order@, sort),
{
    broadcast use vstd::seq_lib::group_to_multiset_ensures;
    let places = shown(entries, show_hidden);
    let mut order: Vec<usize> = Vec::new();
    let mut i: usize = 0;
    assert(places@.take(0) =~= Seq::<usize>::empty());
    while i < places.len()
        invariant
            i <= places@.len(),
            forall|k: int| 0 <= k < places@.len() ==> (#[trigger] places@[k]) < entries@.len(),
            forall|a: int, b: int| 0 <= a < b < places@.len() ==> (#[trigger] places@[a]) < (#[trigger] places@[b]),
            forall|m: int, a: int| 0 <= m < order@.len() && i <= a < places@.len() ==> (#[trigger] order@[m]) < (#[trigger] places@[a]),
            order@.to_multiset() == places@.take(i as int).to_multiset(),
            in_order(entries@, order@, sort),
        decreases places@.len() - i,
    {
        let x = places[i];
        let mut j: usize = order.len();
        loop
            invariant
                x < entries@.len(),
                j <= order@.len(),
                in_order(entries@, order@, sort),
                forall|m: int| j <= m < order@.len() ==> goes_after(entries@[#[trigger] order@[m] as int], entries@[x as int], sort),
            ensures
                j == 0 || !goes_after(entries@[order@[j - 1] as int], entries@[x as int], sort),
            decreases j,
        {
            if j == 0 {
                break;
            }
            if !after(&entries[order[j - 1]], &entries[x], sort) {
                break;
            }
            j = j - 1;
        }
        let ghost before = order@;
        order.insert(j, x);
        proof {
            assert(order@ == before.insert(j as int, x));
            assert(places@.take(i + 1) =~= places@.take(i as int).push(x));
            vstd::seq_lib::to_multiset_build(places@.take(i as int), x);
            vstd::seq_lib::to_multiset_insert(before, j as int, x);
            assert forall|k: int| 0 <= k < order@.len() implies (#[trigger] order@[k]) < entries@.len() by {
                if k < j { assert(order@[k] == before[k]); }
                else if k > j { assert(order@[k] == before[k - 1]); }
            }
            assert forall|k: int| 0 <= k < order@.len() - 1 implies
                !goes_after(entries@[order@[k] as int], entries@[#[trigger] order@[k + 1] as int], sort) by {
                if k + 1 < j {
                    assert(order@[k] == before[k] && order@[k + 1] == before[k + 1]);
                } else if k + 1 == j {
                    assert(order@[k] == before[k] && order@[k + 1] == x);
                } else if k == j {
                    assert(order@[k] == x && order@[k + 1] == before[k]);
                    lemma_goes_after_flips(entries@[before[k] as int], entries@[x as int], sort);
                } else {
                    assert(order@[k] == before[k - 1] && order@[k + 1] == before[k]);
                    assert(before[(k - 1) + 1] == before[k]);
                }
            }
            assert forall|k: int| 0 <= k < order@.len() - 1 && ties(entries@[order@[k] as int], entries@[#[trigger] order@[k + 1] as int], sort)
                implies order@[k] < order@[k + 1] by {
                if k + 1 < j {
                    assert(order@[k] == before[k] && order@[k + 1] == before[k + 1]);
                } else if k + 1 == j {
                    assert(order@[k] == before[k] && order@[k + 1] == x);
                    assert(before[k] < places@[i as int]);
                } else if k == j {
                    assert(order@[k] == x && order@[k + 1] == before[k]);
                    lemma_goes_after_flips(entries@[before[k] as int], entries@[x as int], sort);
                } else {
                    assert(order@[k] == before[k - 1] && order@[k + 1] == before[k]);
                    assert(before[(k - 1) + 1] == before[k]);
                }
            }
            assert forall|m: int, a: int| 0 <= m < order@.len() && i + 1 <= a < places@.len()
                implies (#[trigger] order@[m]) < (#[trigger] places@[a]) by {
                if m < j { assert(order@[m] == before[m]); }
                else if m > j { assert(order@[m] == before[m - 1]); }
                else { assert(places@[i as int] < places@[a]); }
            }
        }
        i = i + 1;
    }
    assert(places@.take(places@.len() as int) =~= places@);
    order
}

/// In a sorted listing folders come first, whichever the column and the
/// way: no folder comes anywhere after a file.
pub proof fn folders_come_first(entries: Seq<FileEntry>, order: Seq<usize>, sort: Sort, i: int, j: int)
    requires
        in_order(entries, order, sort),
        0 <= i < j < order.len(),
        entries[order[i] as int].kind != FileKind::Directory,
    ensures
        entries[order[j] as int].kind != FileKind::Directory,
    decreases j - i,
{
    let a = entries[order[i] as int];
    let b = entries[order[i + 1] as int];
    assert(!goes_after(a, b, sort));
    if b.kind != FileKind::Directory && i + 1 < j {
        folders_come_first(entries, order, sort, i + 1, j);
    }
}

/// What the listing of a folder (or the storage) shows.
#[derive(Debug)]
pub enum Listed {
    /// Its first answer is on its way.
    Loading(String),
    /// Why it couldn't be listed; Retry lists it again.
    Failed(String),
    /// Nothing to show.
    Empty(String),
    /// The storage roots that show, by their places in the answer.
    Roots(Vec<usize>),
    /// The files that show, sorted, by their places in the answer.
    Files(Vec<usize>),
}

/// What the listing of `folder` shows, from what the browser holds.
pub open spec fn listed_as(ui: BrowseUi, folder: Option<Seq<char>>, shown: Listed) -> bool {
    match lookup(ui.listings@, folder) {
        Some((_, Some(Ok(entries)))) => {
            if folder is None {
                let places = shown_places(entries@, ui.show_hidden);
                if places.len() == 0 {
                    shown matches Listed::Empty(t) && t@ == "The device isn’t sharing any storage."@
                } else {
                    shown matches Listed::Roots(p) && p@ == places
                }
            } else if shown_places(entries@, ui.show_hidden).len() == 0 {
                shown matches Listed::Empty(t) && t@ == "This folder is empty. Drop files here to upload them."@
            } else {
                shown matches Listed::Files(order) && order@.to_multiset() == shown_places(entries@, ui.show_hidden).to_multiset()
                    && in_order(entries@, order@, ui.sort)
            }
        },
        Some((_, Some(Err(error)))) => shown matches Listed::Failed(t) && t@ == error@,
        _ => if folder is Some {
            shown matches Listed::Loading(t) && t@ == "Loading the folder…"@
        } else {
            shown matches Listed::Loading(t) && t@ == "Connecting to the device…"@
        },
    }
}

impl BrowseUi {
    /// What the listing of `folder` (`None`: the storage) shows.
    pub fn listing(&self, folder: &Option<String>) -> (shown: Listed)
        ensures
            listed_as(*self, opt_text(*folder), shown),
    {
        proof { lemma_listing_from(self.listings@, opt_text(*folder), 0); }
        let answer = match position_of(&self.listings, folder) {
            Some(k) => match &self.listings[k].answer {
                Some(answer) => Some(answer),
                None => None,
            },
            None => None,
        };
        match answer {
            None => if folder.is_some() {
                Listed::Loading(owned("Loading the folder…"))
            } else {
                Listed::Loading(owned("Connecting to the device…"))
            },
            Some(Err(error)) => Listed::Failed(owned(error.as_str())),
            Some(Ok(entries)) => {
                if folder.is_none() {
                    let places = shown(entries, self.show_hidden);
                    if places.len() == 0 {
                        Listed::Empty(owned("The device isn’t sharing any storage."))
                    } else {
                        Listed::Roots(places)
                    }
                } else {
                    let order = sorted(entries, self.show_hidden, self.sort);
                    proof {
                        broadcast use vstd::seq_lib::group_to_multiset_ensures;
                        assert(order@.len() == shown_places(entries@, self.show_hidden).len()) by {
                            vstd::seq_lib::to_multiset_len(order@);
                            vstd::seq_lib::to_multiset_len(shown_places(entries@, self.show_hidden));
                        }
                    }
                    if order.len() == 0 {
                        Listed::Empty(owned("This folder is empty. Drop files here to upload them."))
                    } else {
                        Listed::Files(order)
                    }
                }
            }
        }
    }
}

/// Something to do with a file, under its row.
#[derive(Debug, Clone, Copy, PartialEq, Eq, Structural)]
pub enum RowAction {
    Preview,
    Download,
    Rename,
    Delete,
}

/// The actions under `file`'s row: Preview for a small image, Download
/// for anything but a folder, then Rename and Delete.
pub open spec fn row_actions_of(file: FileEntry) -> Seq<RowAction> {
    let preview = if previews(file) { seq![RowAction::Preview] } else { Seq::empty() };
    let download = if file.kind != FileKind::Directory { seq![RowAction::Download] } else { Seq::empty() };
    preview + download + seq![RowAction::Rename, RowAction::Delete]
}

/// The actions under `file`'s row.
pub fn row_actions(file: &FileEntry) -> (actions: Vec<RowAction>)
    ensures
        actions@ == row_actions_of(*file),
{
    let mut actions = Vec::new();
    if can_preview(file) {
        actions.push(RowAction::Preview);
    }
    if file.kind != FileKind::Directory {
        actions.push(RowAction::Download);
    }
    actions.push(RowAction::Rename);
    actions.push(RowAction::Delete);
    assert(actions@ =~= row_actions_of(*file));
    actions
}

/// The arrow on column `by`'s header: up when sorted by it ascending, down
/// when descending, none for the other columns.
pub fn sort_arrow(sort: Sort, by: Column) -> (arrow: Option<bool>)
    ensures
        sort.by == by ==> arrow == Some(sort.ascending),
        sort.by != by ==> arrow is None,
{
    if sort.by == by { Some(sort.ascending) } else { None }
}

/// The header's actions, each with whether it can be pressed: Upload files
/// and New folder inside a folder of a device that shares its files,
/// Refresh while it does, and the switch for hidden files.
pub fn header_actions(available: bool, in_folder: bool, show_hidden: bool) -> (actions: Vec<(String, bool)>)
    ensures
        actions@.len() == 4,
        actions@[0].0@ == "Upload files"@ && actions@[0].1 == (available && in_folder),
        actions@[1].0@ == "New folder"@ && actions@[1].1 == (available && in_folder),
        actions@[2].0@ == "Refresh"@ && actions@[2].1 == available,
        actions@[3].0@ == (if show_hidden { "Hide hidden files"@ } else { "Show hidden files"@ }) && actions@[3].1,
{
    let toggle = if show_hidden { owned("Hide hidden files") } else { owned("Show hidden files") };
    vec![
        (owned("Upload files"), available && in_folder),
        (owned("New folder"), available && in_folder),
        (owned("Refresh"), available),
        (toggle, true),
    ]
}

/// A file's icon in the listing.
#[derive(Debug, Clone, Copy, PartialEq, Eq, Structural)]
pub enum FileIcon {
    Folder,
    Image,
    Film,
    Music,
    Text,
    Archive,
    Package,
    File,
}

/// The icon for a file with extension `e` (lowercase).
pub open spec fn icon_for(e: Seq<char>) -> FileIcon {
    if e == "jpg"@ || e == "jpeg"@ || e == "png"@ || e == "gif"@ || e == "webp"@ || e == "bmp"@ || e == "heic"@ {
        FileIcon::Image
    } else if e == "mp4"@ || e == "mkv"@ || e == "mov"@ || e == "webm"@ || e == "3gp"@ {
        FileIcon::Film
    } else if e == "mp3"@ || e == "m4a"@ || e == "ogg"@ || e == "opus"@ || e == "flac"@ || e == "wav"@ {
        FileIcon::Music
    } else if e == "pdf"@ {
        FileIcon::Text
    } else if e == "zip"@ || e == "tar"@ || e == "gz"@ || e == "7z"@ || e == "rar"@ {
        FileIcon::Archive
    } else if e == "apk"@ {
        FileIcon::Package
    } else {
        FileIcon::File
    }
}

/// A file's icon: a folder's, or by its extension.
pub open spec fn file_icon_of(file: FileEntry) -> FileIcon {
    if file.kind == FileKind::Directory {
        FileIcon::Folder
    } else {
        match extension_of(file.name@) {
            Some(e) => icon_for(lowercase(e)),
            None => FileIcon::File,
        }
    }
}

/// A file's icon in the listing.
pub fn file_icon(file: &FileEntry) -> (icon: FileIcon)
    ensures
        icon == file_icon_of(*file),
{
    if file.kind == FileKind::Directory {
        return FileIcon::Folder;
    }
    let e = match extension(file.name.as_str()) {
        Some(e) => e,
        None => return FileIcon::File,
    };
    let e = e.as_str();
    if same(e, "jpg") || same(e, "jpeg") || same(e, "png") || same(e, "gif") || same(e, "webp") || same(e, "bmp") || same(e, "heic") {
        FileIcon::Image
    } else if same(e, "mp4") || same(e, "mkv") || same(e, "mov") || same(e, "webm") || same(e, "3gp") {
        FileIcon::Film
    } else if same(e, "mp3") || same(e, "m4a") || same(e, "ogg") || same(e, "opus") || same(e, "flac") || same(e, "wav") {
        FileIcon::Music
    } else if same(e, "pdf") {
        FileIcon::Text
    } else if same(e, "zip") || same(e, "tar") || same(e, "gz") || same(e, "7z") || same(e, "rar") {
        FileIcon::Archive
    } else if same(e, "apk") {
        FileIcon::Package
    } else {
        FileIcon::File
    }
}

} // verus!
