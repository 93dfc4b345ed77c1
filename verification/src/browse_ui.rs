//! Browse's UI state: which device and folder the browser shows, the
//! folders as last listed, and which listing answers still count.
//!
//! A folder is listed when it opens, again after every change made here,
//! on Refresh, and when the device can share its files again after it
//! couldn't. Each listing request is numbered, and only a folder's newest
//! request's answer is kept: an older one arriving late is dropped.

use vstd::prelude::*;
use crate::browse::{FileEntry, FileKind, shares, advertises, shares_files, advertises_browse,
    folder_label, folder_name, parent_of, under, root_index};
use crate::browse_order::{Column, Sort, toggled};
use crate::device::DeviceSnapshot;
use crate::features::{Feature, FeatureView, DeviceAction, DeviceActionView, Icon, actions_view,
    DropTarget, DropTargetView, DropAction, DropActionView};
use crate::paths::{split_remote, join_remote, join_remote_path};
use crate::route::{Route, RouteView, opt_text, copy_opt};
use crate::text::{owned, same, join2};

verus! {

#[derive(Debug)]
pub enum Message {
    /// Open a device's files, at its storage.
    Browse { device_id: String },
    /// Back to the device.
    Back,
    /// Show a folder of the open device, or its storage (`None`).
    Open(Option<String>),
    /// Up a folder; from a storage root, to the storage.
    Up,
    /// The answer to listing request `request` of `folder` on the device.
    Listed { device_id: String, folder: Option<String>, request: u64, result: Result<Vec<FileEntry>, String> },
    Refresh,
    ToggleHidden,
    Sort(Column),
    /// Show or hide a file's actions, by its path.
    Menu(String),
    /// A file's row was clicked: a folder opens, a small image previews,
    /// anything else downloads.
    Activate(FileEntry),
    Download(FileEntry),
    /// The download started (the file's name), or why it didn't.
    Downloading(Result<String, String>),
    Preview(FileEntry),
    /// The image at `path` was decoded for the preview, or why it can't
    /// show.
    Previewed { path: String, result: Result<(), String> },
    ClosePreview,
    NewFolder,
    /// Ask for a file's new name.
    Rename(FileEntry),
    /// Ask before deleting a file or a folder.
    Delete(FileEntry),
    /// Change something in `folder` on the device, then list it again.
    Change { device_id: String, folder: String, change: Change },
    /// A change or upload in `folder` finished, or failed with this
    /// sentence.
    Changed { device_id: String, folder: String, error: Option<String> },
    /// Pick files to upload to the open folder.
    PickUploads,
    /// Upload these files into `folder`, one at a time.
    Upload { device_id: String, folder: String, paths: Vec<String> },
}

impl Clone for Message {
    fn clone(&self) -> (copy: Self) {
        match self {
            Message::Browse { device_id } => Message::Browse { device_id: device_id.clone() },
            Message::Back => Message::Back,
            Message::Open(folder) => Message::Open(folder.clone()),
            Message::Up => Message::Up,
            Message::Listed { device_id, folder, request, result } => Message::Listed {
                device_id: device_id.clone(),
                folder: folder.clone(),
                request: *request,
                result: match result {
                    Ok(entries) => Ok(entries.clone()),
                    Err(error) => Err(error.clone()),
                },
            },
            Message::Refresh => Message::Refresh,
            Message::ToggleHidden => Message::ToggleHidden,
            Message::Sort(column) => Message::Sort(*column),
            Message::Menu(path) => Message::Menu(path.clone()),
            Message::Activate(file) => Message::Activate(file.clone()),
            Message::Download(file) => Message::Download(file.clone()),
            Message::Downloading(result) => Message::Downloading(match result {
                Ok(name) => Ok(name.clone()),
                Err(error) => Err(error.clone()),
            }),
            Message::Preview(file) => Message::Preview(file.clone()),
            Message::Previewed { path, result } => Message::Previewed {
                path: path.clone(),
                result: match result {
                    Ok(()) => Ok(()),
                    Err(error) => Err(error.clone()),
                },
            },
            Message::ClosePreview => Message::ClosePreview,
            Message::NewFolder => Message::NewFolder,
            Message::Rename(file) => Message::Rename(file.clone()),
            Message::Delete(file) => Message::Delete(file.clone()),
            Message::Change { device_id, folder, change } => Message::Change {
                device_id: device_id.clone(),
                folder: folder.clone(),
                change: change.clone(),
            },
            Message::Changed { device_id, folder, error } => Message::Changed {
                device_id: device_id.clone(),
                folder: folder.clone(),
                error: error.clone(),
            },
            Message::PickUploads => Message::PickUploads,
            Message::Upload { device_id, folder, paths } => Message::Upload {
                device_id: device_id.clone(),
                folder: folder.clone(),
                paths: paths.clone(),
            },
        }
    }
}

/// A change to a device's files.
#[derive(Debug, Clone)]
pub enum Change {
    CreateDirectory(String),
    Move { from: String, to: String },
    Delete(String),
}

pub enum ChangeView {
    CreateDirectory(Seq<char>),
    Move { from: Seq<char>, to: Seq<char> },
    Delete(Seq<char>),
}

impl View for Change {
    type V = ChangeView;

    open spec fn view(&self) -> ChangeView {
        match *self {
            Change::CreateDirectory(p) => ChangeView::CreateDirectory(p@),
            Change::Move { from, to } => ChangeView::Move { from: from@, to: to@ },
            Change::Delete(p) => ChangeView::Delete(p@),
        }
    }
}

pub enum MessageView {
    Browse { device_id: Seq<char> },
    Back,
    Open(Option<Seq<char>>),
    Up,
    Listed { device_id: Seq<char>, folder: Option<Seq<char>>, request: u64, result: Result<Vec<FileEntry>, String> },
    Refresh,
    ToggleHidden,
    Sort(Column),
    Menu(Seq<char>),
    Activate(FileEntry),
    Download(FileEntry),
    Downloading(Result<Seq<char>, Seq<char>>),
    Preview(FileEntry),
    Previewed { path: Seq<char>, result: Result<(), Seq<char>> },
    ClosePreview,
    NewFolder,
    Rename(FileEntry),
    Delete(FileEntry),
    Change { device_id: Seq<char>, folder: Seq<char>, change: ChangeView },
    Changed { device_id: Seq<char>, folder: Seq<char>, error: Option<Seq<char>> },
    PickUploads,
    Upload { device_id: Seq<char>, folder: Seq<char>, paths: Seq<Seq<char>> },
}

impl View for Message {
    type V = MessageView;

    open spec fn view(&self) -> MessageView {
        match *self {
            Message::Browse { device_id } => MessageView::Browse { device_id: device_id@ },
            Message::Back => MessageView::Back,
            Message::Open(folder) => MessageView::Open(opt_text(folder)),
            Message::Up => MessageView::Up,
            Message::Listed { device_id, folder, request, result } =>
                MessageView::Listed { device_id: device_id@, folder: opt_text(folder), request, result },
            Message::Refresh => MessageView::Refresh,
            Message::ToggleHidden => MessageView::ToggleHidden,
            Message::Sort(c) => MessageView::Sort(c),
            Message::Menu(p) => MessageView::Menu(p@),
            Message::Activate(f) => MessageView::Activate(f),
            Message::Download(f) => MessageView::Download(f),
            Message::Downloading(r) => MessageView::Downloading(match r { Ok(n) => Ok(n@), Err(e) => Err(e@) }),
            Message::Preview(f) => MessageView::Preview(f),
            Message::Previewed { path, result } =>
                MessageView::Previewed { path: path@, result: match result { Ok(()) => Ok(()), Err(e) => Err(e@) } },
            Message::ClosePreview => MessageView::ClosePreview,
            Message::NewFolder => MessageView::NewFolder,
            Message::Rename(f) => MessageView::Rename(f),
            Message::Delete(f) => MessageView::Delete(f),
            Message::Change { device_id, folder, change } => MessageView::Change { device_id: device_id@, folder: folder@, change: change@ },
            Message::Changed { device_id, folder, error } => MessageView::Changed { device_id: device_id@, folder: folder@, error: opt_text(error) },
            Message::PickUploads => MessageView::PickUploads,
            Message::Upload { device_id, folder, paths } => MessageView::Upload {
                device_id: device_id@,
                folder: folder@,
                paths: paths@.map_values(|p: String| p@),
            },
        }
    }
}

/// The action: listed for every device, enabled while it shares its files;
/// the tray lists it only for a device that can share files.
pub open spec fn actions(device: DeviceSnapshot) -> Seq<DeviceActionView> {
    seq![DeviceActionView {
        id: "browse-files"@,
        label: "Browse files"@,
        icon: Icon::FolderOpen,
        enabled: shares(device),
        visible_in_tray: advertises(device),
        message: FeatureView::Browse(MessageView::Browse { device_id: device.device_id@ }),
    }]
}

/// The *Browse files* action for `device`.
pub fn device_actions(device: &DeviceSnapshot) -> (r: Vec<DeviceAction>)
    ensures
        actions_view(r@) == actions(*device),
{
    let action = DeviceAction {
        id: "browse-files",
        label: owned("Browse files"),
        icon: Icon::FolderOpen,
        enabled: shares_files(device),
        visible_in_tray: advertises_browse(device),
        message: Feature::Browse(Message::Browse { device_id: owned(device.device_id.as_str()) }),
    };
    let r = vec![action];
    assert(actions_view(r@) =~= actions(*device));
    r
}

/// Where the browser is: a device, and a folder of it or its storage.
#[derive(Debug, Clone)]
pub struct Place {
    pub device_id: String,
    pub folder: Option<String>,
}

/// A folder (`None`: the storage) as last listed.
#[derive(Debug)]
pub struct Listing {
    pub folder: Option<String>,
    /// The request whose answer is awaited or held.
    pub request: u64,
    /// The last answer; kept on show while a new one is on its way.
    pub answer: Option<Result<Vec<FileEntry>, String>>,
}

/// A listing to ask the device for, numbered.
#[derive(Debug, Clone)]
pub struct Fetch {
    pub device_id: String,
    pub folder: Option<String>,
    pub request: u64,
}

/// The browser's state.
pub struct BrowseUi {
    /// Where the window is, while it shows the browser's page.
    pub open: Option<Place>,
    /// Whether the open device could share its files when last seen.
    pub shares: bool,
    /// The open device's folders as last listed; the first for a folder
    /// counts.
    pub listings: Vec<Listing>,
    /// Counts listing requests, so only a folder's newest answer counts.
    pub requests: u64,
    pub show_hidden: bool,
    pub sort: Sort,
    /// The file whose actions show under its row, by path.
    pub menu: Option<String>,
    /// The image previewed over the page.
    pub preview: Option<Preview>,
}

/// What the preview of an image shows.
#[derive(Debug, Clone)]
pub enum PreviewImage {
    /// Its bytes are on their way.
    Loading,
    /// It decoded; the shell holds the picture.
    Shown,
    /// Why it can't be shown.
    Failed(String),
}

/// An image from the device, shown over the page.
#[derive(Debug, Clone)]
pub struct Preview {
    pub file: FileEntry,
    pub image: PreviewImage,
}

/// The place of the listing for `folder` among `listings`: the first.
pub open spec fn listing_from(listings: Seq<Listing>, folder: Option<Seq<char>>, start: int) -> Option<int>
    decreases listings.len() - start,
{
    if start < 0 || start >= listings.len() {
        None
    } else if opt_text(listings[start].folder) == folder {
        Some(start)
    } else {
        listing_from(listings, folder, start + 1)
    }
}

/// The listing for `folder`, if one is held.
pub open spec fn lookup(listings: Seq<Listing>, folder: Option<Seq<char>>) -> Option<(u64, Option<Result<Vec<FileEntry>, String>>)> {
    match listing_from(listings, folder, 0) {
        Some(i) => Some((listings[i].request, listings[i].answer)),
        None => None,
    }
}

pub(crate) proof fn lemma_listing_from(listings: Seq<Listing>, folder: Option<Seq<char>>, start: int)
    ensures
        listing_from(listings, folder, start) matches Some(i) ==>
            0 <= start <= i < listings.len() && opt_text(listings[i].folder) == folder
            && forall|j: int| start <= j < i ==> opt_text(#[trigger] listings[j].folder) != folder,
        listing_from(listings, folder, start) is None && 0 <= start ==>
            forall|j: int| start <= j < listings.len() ==> opt_text(#[trigger] listings[j].folder) != folder,
    decreases listings.len() - start,
{
    if 0 <= start < listings.len() && opt_text(listings[start].folder) != folder {
        lemma_listing_from(listings, folder, start + 1);
    }
}

/// The first listing for `folder` is at `k` when `k` holds it and none
/// before does.
proof fn lemma_listing_at(listings: Seq<Listing>, folder: Option<Seq<char>>, k: int, start: int)
    requires
        0 <= start <= k < listings.len(),
        opt_text(listings[k].folder) == folder,
        forall|j: int| start <= j < k ==> opt_text(#[trigger] listings[j].folder) != folder,
    ensures
        listing_from(listings, folder, start) == Some(k),
    decreases k - start,
{
    if start < k {
        lemma_listing_at(listings, folder, k, start + 1);
    }
}

/// Looking folders up gives the same before and after when the folders
/// are the same and each listing is the same but at `k`.
proof fn lemma_lookup_other(before: Seq<Listing>, after: Seq<Listing>, k: int, folder: Option<Seq<char>>)
    requires
        before.len() == after.len(),
        0 <= k < before.len(),
        forall|j: int| 0 <= j < before.len() ==> opt_text(#[trigger] after[j].folder) == opt_text(before[j].folder),
        forall|j: int| 0 <= j < before.len() && j != k ==> (#[trigger] after[j]).request == before[j].request
            && after[j].answer == before[j].answer,
        opt_text(before[k].folder) != folder,
    ensures
        lookup(after, folder) == lookup(before, folder),
{
    lemma_listing_from(before, folder, 0);
    lemma_listing_from(after, folder, 0);
    match listing_from(before, folder, 0) {
        Some(i) => { lemma_listing_at(after, folder, i, 0); }
        None => {
            if let Some(i) = listing_from(after, folder, 0) {
                assert(opt_text(before[i].folder) == folder);
            }
        }
    }
}

/// Looking up a folder after a listing for another was added at the end
/// gives what it gave before.
proof fn lemma_lookup_pushed(before: Seq<Listing>, after: Seq<Listing>, folder: Option<Seq<char>>)
    requires
        after.len() == before.len() + 1,
        forall|j: int| 0 <= j < before.len() ==> #[trigger] after[j] == before[j],
        opt_text(after.last().folder) != folder,
    ensures
        lookup(after, folder) == lookup(before, folder),
{
    lemma_listing_from(before, folder, 0);
    lemma_listing_from(after, folder, 0);
    match listing_from(before, folder, 0) {
        Some(i) => { lemma_listing_at(after, folder, i, 0); }
        None => {
            if let Some(i) = listing_from(after, folder, 0) {
                assert(opt_text(before[i].folder) == folder);
            }
        }
    }
}

/// The request number after `requests`, wrapping round.
pub open spec fn next_request(requests: u64) -> u64 {
    if requests == u64::MAX { 0 } else { (requests + 1) as u64 }
}

/// What fetching `folder` did to the browser: numbered the request, and
/// made the folder's listing await it, keeping its last answer on show.
pub open spec fn fetched(before: BrowseUi, folder: Option<Seq<char>>, after: BrowseUi, fetch: Option<Fetch>) -> bool {
    match before.open {
        None => fetch is None && after.requests == before.requests
            && forall|f: Option<Seq<char>>| #[trigger] lookup(after.listings@, f) == lookup(before.listings@, f),
        Some(place) => {
            let request = next_request(before.requests);
            &&& after.requests == request
            &&& fetch matches Some(f) && f.device_id@ == place.device_id@ && opt_text(f.folder) == folder
                && f.request == request
            &&& lookup(after.listings@, folder) == Some((request, match lookup(before.listings@, folder) {
                    Some((_, answer)) => answer,
                    None => None,
                }))
            &&& forall|f: Option<Seq<char>>| f != folder ==> #[trigger] lookup(after.listings@, f) == lookup(before.listings@, f)
        },
    }
}

/// What an answer to listing request `request` of `folder` did: kept if it
/// is for the open device and the folder's newest request, else dropped.
pub open spec fn listed(before: BrowseUi, device_id: Seq<char>, folder: Option<Seq<char>>, request: u64,
    result: Result<Vec<FileEntry>, String>, after: BrowseUi) -> bool
{
    let counts = (before.open matches Some(place) && place.device_id@ == device_id)
        && (lookup(before.listings@, folder) matches Some((held, _)) && held == request);
    &&& counts ==> lookup(after.listings@, folder) == Some((request, Some(result)))
    &&& !counts ==> lookup(after.listings@, folder) == lookup(before.listings@, folder)
    &&& forall|f: Option<Seq<char>>| f != folder ==> #[trigger] lookup(after.listings@, f) == lookup(before.listings@, f)
}

/// The storage roots as last listed: the storage listing's files, or none.
pub open spec fn roots_in(listings: Seq<Listing>) -> Seq<FileEntry> {
    match lookup(listings, None) {
        Some((_, Some(Ok(entries)))) => entries@,
        _ => Seq::empty(),
    }
}

/// Whether `device`, open at `folder`, takes drops: upload into the folder.
pub open spec fn upload_target(ui: BrowseUi, device: DeviceSnapshot, route: RouteView) -> Option<DropTargetView> {
    match route {
        RouteView::Browse { device: id, folder: Some(folder) } =>
            if id == device.device_id@ && shares(device) {
                Some(DropTargetView {
                    label: "Drop to upload to "@ + folder_label(folder, roots_in(ui.listings@)),
                    action: DropActionView::Upload { device_id: id, folder },
                })
            } else {
                None
            },
        _ => None,
    }
}

/// Where Up goes from where `ui` is: from a storage root to the storage,
/// else to the folder's parent; nowhere from the storage or with nothing
/// open.
pub open spec fn up_of(ui: BrowseUi) -> Option<RouteView> {
    match ui.open {
        Some(Place { device_id, folder: Some(folder) }) => Some(RouteView::Browse {
            device: device_id@,
            folder: if exists|i: int| 0 <= i < roots_in(ui.listings@).len()
                && (#[trigger] roots_in(ui.listings@)[i]).path@ == folder@ { None } else {
                match split_remote(folder@) { Some(split) => Some(split.0), None => None } },
        }),
        _ => None,
    }
}

/// A copy of a listing's answer, by its files and error.
pub(crate) fn position_of(listings: &Vec<Listing>, folder: &Option<String>) -> (k: Option<usize>)
    ensures
        match k {
            Some(k) => listing_from(listings@, opt_text(*folder), 0) == Some(k as int),
            None => listing_from(listings@, opt_text(*folder), 0) is None,
        },
{
    let mut i: usize = 0;
    while i < listings.len()
        invariant
            i <= listings@.len(),
            listing_from(listings@, opt_text(*folder), 0) == listing_from(listings@, opt_text(*folder), i as int),
        decreases listings@.len() - i,
    {
        if same_folder(&listings[i].folder, folder) {
            return Some(i);
        }
        i = i + 1;
    }
    None
}

/// Whether two folders (`None`: the storage) are the same.
pub(crate) fn same_folder(a: &Option<String>, b: &Option<String>) -> (r: bool)
    ensures
        r == (opt_text(*a) == opt_text(*b)),
{
    match (a, b) {
        (Some(a), Some(b)) => same(a.as_str(), b.as_str()),
        (None, None) => true,
        _ => false,
    }
}

impl BrowseUi {
    /// Nothing open, nothing listed.
    pub open spec fn is_initial(self) -> bool {
        &&& self.open is None
        &&& !self.shares
        &&& self.listings@.len() == 0
        &&& self.requests == 0
        &&& !self.show_hidden
        &&& self.sort == (Sort { by: Column::Name, ascending: true })
        &&& self.menu is None
        &&& self.preview is None
    }

    /// The browser before anything was opened.
    pub fn new() -> (ui: Self)
        ensures
            ui.is_initial(),
    {
        BrowseUi {
            open: None,
            shares: false,
            listings: Vec::new(),
            requests: 0,
            show_hidden: false,
            sort: Sort { by: Column::Name, ascending: true },
            menu: None,
            preview: None,
        }
    }

    /// The device whose files show, if any.
    pub fn open_device(&self) -> (r: Option<String>)
        ensures
            opt_text(r) == match self.open { Some(p) => Some(p.device_id@), None => None },
    {
        match &self.open {
            Some(place) => Some(owned(place.device_id.as_str())),
            None => None,
        }
    }

    /// The folder that shows (`None`: the storage, or nothing open).
    pub fn open_folder(&self) -> (r: Option<String>)
        ensures
            opt_text(r) == match self.open { Some(p) => opt_text(p.folder), None => None },
    {
        match &self.open {
            Some(place) => copy_opt(&place.folder),
            None => None,
        }
    }

    /// The storage roots, as last listed.
    pub fn roots(&self) -> (r: &[FileEntry])
        ensures
            r@ == roots_in(self.listings@),
    {
        let none: Option<String> = None;
        proof { lemma_listing_from(self.listings@, None, 0); }
        match position_of(&self.listings, &none) {
            Some(k) => {
                match &self.listings[k].answer {
                    Some(Ok(entries)) => entries.as_slice(),
                    _ => &[],
                }
            }
            None => &[],
        }
    }

    /// Number the next request for `folder` of the open device, and have
    /// the folder's listing await it, keeping what it held on show.
    pub fn fetch(&mut self, folder: Option<String>) -> (fetch: Option<Fetch>)
        ensures
            fetched(*old(self), opt_text(folder), *final(self), fetch),
            final(self).open == old(self).open,
            final(self).shares == old(self).shares,
            final(self).show_hidden == old(self).show_hidden,
            final(self).sort == old(self).sort,
            final(self).menu == old(self).menu,
            final(self).preview == old(self).preview,
    {
        let device_id = match &self.open {
            None => return None,
            Some(place) => owned(place.device_id.as_str()),
        };
        let request = self.requests.wrapping_add(1);
        self.requests = request;
        let ghost before = self.listings@;
        match position_of(&self.listings, &folder) {
            Some(k) => {
                proof { lemma_listing_from(before, opt_text(folder), 0); }
                let old_listing = self.listings.remove(k);
                let listing = Listing { folder: old_listing.folder, request, answer: old_listing.answer };
                self.listings.insert(k, listing);
                proof {
                    let after = self.listings@;
                    assert(after.len() == before.len());
                    assert forall|j: int| 0 <= j < before.len() && j != k as int implies
                        #[trigger] after[j] == before[j] by {}
                    lemma_listing_at(after, opt_text(folder), k as int, 0);
                    assert forall|f: Option<Seq<char>>| f != opt_text(folder) implies
                        #[trigger] lookup(after, f) == lookup(before, f) by {
                        lemma_lookup_other(before, after, k as int, f);
                    }
                }
            }
            None => {
                proof { lemma_listing_from(before, opt_text(folder), 0); }
                let kept = copy_opt(&folder);
                self.listings.push(Listing { folder: kept, request, answer: None });
                proof {
                    let after = self.listings@;
                    lemma_listing_at(after, opt_text(folder), before.len() as int, 0);
                    assert forall|f: Option<Seq<char>>| f != opt_text(folder) implies
                        #[trigger] lookup(after, f) == lookup(before, f) by {
                        lemma_lookup_pushed(before, after, f);
                    }
                }
            }
        }
        Some(Fetch { device_id, folder, request })
    }

    /// The answer to listing request `request` of `folder` on `device_id`:
    /// kept only if it is the folder's newest request on the open device.
    pub fn listed(&mut self, device_id: &str, folder: Option<String>, request: u64, result: Result<Vec<FileEntry>, String>)
        ensures
            listed(*old(self), device_id@, opt_text(folder), request, result, *final(self)),
            final(self).open == old(self).open,
            final(self).requests == old(self).requests,
            final(self).shares == old(self).shares,
            final(self).show_hidden == old(self).show_hidden,
            final(self).sort == old(self).sort,
            final(self).menu == old(self).menu,
            final(self).preview == old(self).preview,
    {
        let open = match &self.open {
            Some(place) => same(place.device_id.as_str(), device_id),
            None => false,
        };
        let ghost before = self.listings@;
        proof { lemma_listing_from(before, opt_text(folder), 0); }
        if !open {
            return;
        }
        match position_of(&self.listings, &folder) {
            Some(k) => {
                if self.listings[k].request != request {
                    return;
                }
                let old_listing = self.listings.remove(k);
                let listing = Listing { folder: old_listing.folder, request, answer: Some(result) };
                self.listings.insert(k, listing);
                proof {
                    let after = self.listings@;
                    assert forall|j: int| 0 <= j < before.len() && j != k as int implies
                        #[trigger] after[j] == before[j] by {}
                    lemma_listing_at(after, opt_text(folder), k as int, 0);
                    assert forall|f: Option<Seq<char>>| f != opt_text(folder) implies
                        #[trigger] lookup(after, f) == lookup(before, f) by {
                        lemma_lookup_other(before, after, k as int, f);
                    }
                }
            }
            None => {}
        }
    }

    /// Show or hide hidden files.
    pub fn toggle_hidden(&mut self)
        ensures
            final(self).show_hidden == !old(self).show_hidden,
            final(self).open == old(self).open,
            final(self).shares == old(self).shares,
            final(self).requests == old(self).requests,
            final(self).listings@ == old(self).listings@,
            final(self).preview == old(self).preview,
            final(self).sort == old(self).sort,
            final(self).menu == old(self).menu,
    {
        self.show_hidden = !self.show_hidden;
    }

    /// Sort by `by`: the other way round if it already was, ascending if not.
    pub fn sort_by(&mut self, by: Column)
        ensures
            final(self).sort == toggled(old(self).sort, by),
            final(self).open == old(self).open,
            final(self).shares == old(self).shares,
            final(self).requests == old(self).requests,
            final(self).listings@ == old(self).listings@,
            final(self).preview == old(self).preview,
            final(self).show_hidden == old(self).show_hidden,
            final(self).menu == old(self).menu,
    {
        self.sort = self.sort.toggle(by);
    }

    /// Show `path`'s actions, or hide them if they show.
    pub fn toggle_menu(&mut self, path: String)
        ensures
            opt_text(final(self).menu) == if opt_text(old(self).menu) == Some(path@) { None } else { Some(path@) },
            final(self).open == old(self).open,
            final(self).shares == old(self).shares,
            final(self).requests == old(self).requests,
            final(self).listings@ == old(self).listings@,
            final(self).preview == old(self).preview,
            final(self).show_hidden == old(self).show_hidden,
            final(self).sort == old(self).sort,
    {
        let showing = match &self.menu {
            Some(menu) => same(menu.as_str(), path.as_str()),
            None => false,
        };
        self.menu = if showing { None } else { Some(path) };
    }

    /// Where Up goes: from a storage root to the storage, else to the
    /// folder's parent; nowhere from the storage or with nothing open.
    pub fn up(&self) -> (r: Option<Route>)
        ensures
            match r {
                Some(route) => up_of(*self) == Some(route@),
                None => up_of(*self) is None,
            },
    {
        let (device_id, folder) = match &self.open {
            Some(Place { device_id, folder: Some(folder) }) => (device_id, folder),
            _ => return None,
        };
        let roots = self.roots();
        let mut i: usize = 0;
        let mut is_root = false;
        while i < roots.len()
            invariant
                i <= roots@.len(),
                roots@ == roots_in(self.listings@),
                is_root == exists|j: int| 0 <= j < i && (#[trigger] roots@[j]).path@ == folder@,
            decreases roots@.len() - i,
        {
            if same(roots[i].path.as_str(), folder.as_str()) {
                is_root = true;
            }
            i = i + 1;
        }
        let up = if is_root { None } else { parent_of(folder.as_str()) };
        Some(Route::Browse { device: owned(device_id.as_str()), folder: up })
    }

    /// The open folder takes dropped files, uploading them into it.
    pub open spec fn drop_target_of(self, device: DeviceSnapshot, route: RouteView) -> Option<DropTargetView> {
        upload_target(self, device, route)
    }

    /// Files dropped on an open folder are uploaded into it.
    pub fn drop_target(&self, device: &DeviceSnapshot, route: &Route) -> (r: Option<DropTarget>)
        ensures
            crate::features::target_view(r) == self.drop_target_of(*device, route@),
    {
        let (device_id, folder) = match route {
            Route::Browse { device: device_id, folder: Some(folder) } => (device_id, folder),
            _ => return None,
        };
        if !same(device_id.as_str(), device.device_id.as_str()) || !shares_files(device) {
            return None;
        }
        let name = folder_name(folder.as_str(), self.roots());
        Some(DropTarget {
            label: join2("Drop to upload to ", name.as_str()),
            action: DropAction::Upload { device_id: owned(device_id.as_str()), folder: owned(folder.as_str()) },
        })
    }
}

/// Only a folder's newest listing request counts: after two requests for
/// the same folder, the first one's answer leaves the folder as it was.
pub proof fn only_the_newest_listing_counts(s0: BrowseUi, s1: BrowseUi, s2: BrowseUi, s3: BrowseUi,
    folder: Option<Seq<char>>, first: Option<Fetch>, second: Option<Fetch>, device_id: Seq<char>,
    result: Result<Vec<FileEntry>, String>)
    requires
        s0.open is Some,
        s0.requests < u64::MAX - 1,
        fetched(s0, folder, s1, first),
        s1.open == s0.open,
        fetched(s1, folder, s2, second),
        listed(s2, device_id, folder, first.unwrap().request, result, s3),
    ensures
        lookup(s3.listings@, folder) == lookup(s2.listings@, folder),
        second.unwrap().request != first.unwrap().request,
{
}

/// The newest request's answer is kept.
pub proof fn the_newest_listing_is_kept(s0: BrowseUi, s1: BrowseUi, s2: BrowseUi,
    folder: Option<Seq<char>>, fetch: Option<Fetch>, result: Result<Vec<FileEntry>, String>)
    requires
        s0.open is Some,
        fetched(s0, folder, s1, fetch),
        s1.open == s0.open,
        listed(s1, fetch.unwrap().device_id@, folder, fetch.unwrap().request, result, s2),
    ensures
        lookup(s2.listings@, folder) == Some((fetch.unwrap().request, Some(result))),
{
}

} // verus!
