//! What the file browser does with each thing the user or the device does:
//! its state after, and the work it leaves to the shell (listing, opening a
//! page, downloading, asking for a name, changing the device's files).

use vstd::prelude::*;
use crate::browse::{FileEntry, FileKind, can_preview, previews, parent_of, folder_name, folder_label,
    shares, shares_files, last_dot, find_last_dot, lemma_last_dot_bounds};
use crate::browse_order::{Sort, Column, toggled};
use crate::browse_ui::{BrowseUi, Change, ChangeView, Fetch, Listing, Message, MessageView, Place,
    Preview, PreviewImage, fetched, listed, lookup, roots_in, up_of, next_request, position_of,
    lemma_listing_from};
use crate::device::DeviceSnapshot;
use crate::paths::{split_remote, join_remote, join_remote_path};
use crate::route::{Route, RouteView, opt_text, copy_opt};
use crate::text::{owned, same, join2, join3};

verus! {

/// What a name the user typed is for.
#[derive(Debug, Clone)]
pub enum Naming {
    /// A new folder in the prompt's folder.
    NewFolder,
    /// This file's new name, in the prompt's folder.
    Rename(FileEntry),
}

/// A name to ask for: the dialog's words, what it starts with, and where
/// the answer goes.
#[derive(Debug, Clone)]
pub struct NamePrompt {
    pub title: String,
    pub confirm_label: String,
    /// The field's label.
    pub label: String,
    pub initial: String,
    /// The characters of `initial` selected when it opens.
    pub selection: Option<(usize, usize)>,
    pub device_id: String,
    pub folder: String,
    pub naming: Naming,
}

/// The work the browser leaves to the shell.
#[derive(Debug)]
pub enum Effect {
    Nothing,
    /// Show this page.
    Navigate(Route),
    /// Ask the device for these listings; each answer comes back as
    /// [`Message::Listed`].
    List(Vec<Fetch>),
    /// Download the file at `path`, then report [`Message::Downloading`]
    /// with its `name`.
    Download { device_id: String, path: String, name: String },
    /// Read the image at `path` for the preview, then report
    /// [`Message::Previewed`].
    Read { device_id: String, path: String },
    /// Say this, with a button going somewhere.
    Toast { text: String, action: Option<(String, Route)> },
    /// Ask for a name; [`NamePrompt::answer`] makes the message of it.
    Prompt(NamePrompt),
    /// Ask before sending `then`.
    Confirm { title: String, body: String, confirm_label: String, then: Message },
    /// Make the change on the device, then report [`Message::Changed`].
    Change { device_id: String, folder: String, change: Change },
    /// List a folder again, if it is held, and say why a change failed.
    Relist { fetch: Option<Fetch>, error: Option<String> },
    /// Pick files to upload into `folder`.
    PickFiles { title: String, device_id: String, folder: String },
    /// Upload the files one at a time, then report [`Message::Changed`]
    /// with the sentence about those that failed.
    Upload { device_id: String, folder: String, paths: Vec<String> },
}

/// The characters of a name before its extension: up to its last `.`,
/// unless that dot starts the name.
pub open spec fn stem_len(name: Seq<char>) -> int {
    if last_dot(name) > 0 { last_dot(name) } else { name.len() as int }
}

/// What answering `prompt` with `name` asks for.
pub open spec fn answer_of(prompt: NamePrompt, name: Seq<char>) -> MessageView {
    match prompt.naming {
        Naming::NewFolder => MessageView::Change {
            device_id: prompt.device_id@,
            folder: prompt.folder@,
            change: ChangeView::CreateDirectory(join_remote(prompt.folder@, name)),
        },
        Naming::Rename(file) => if name == file.name@ {
            MessageView::Changed { device_id: prompt.device_id@, folder: prompt.folder@, error: None }
        } else {
            MessageView::Change {
                device_id: prompt.device_id@,
                folder: prompt.folder@,
                change: ChangeView::Move { from: file.path@, to: join_remote(prompt.folder@, name) },
            }
        },
    }
}

impl NamePrompt {
    /// The message for the name typed: the change it makes, or, for a
    /// file renamed to its own name, nothing to change (listing the folder
    /// again is harmless).
    pub fn answer(&self, name: String) -> (message: Message)
        ensures
            message@ == answer_of(*self, name@),
    {
        let device_id = owned(self.device_id.as_str());
        let folder = owned(self.folder.as_str());
        match &self.naming {
            Naming::NewFolder => {
                let path = join_remote_path(self.folder.as_str(), name.as_str());
                Message::Change { device_id, folder, change: Change::CreateDirectory(path) }
            }
            Naming::Rename(file) => {
                if same(name.as_str(), file.name.as_str()) {
                    Message::Changed { device_id, folder, error: None }
                } else {
                    let to = join_remote_path(self.folder.as_str(), name.as_str());
                    Message::Change { device_id, folder, change: Change::Move { from: owned(file.path.as_str()), to } }
                }
            }
        }
    }
}

/// The name's characters before its extension, selected when renaming.
fn stem(name: &str) -> (n: usize)
    ensures
        n == stem_len(name@),
{
    proof { lemma_last_dot_bounds(name@); }
    match find_last_dot(name) {
        Some(dot) => if dot > 0 { dot } else { name.unicode_len() },
        None => name.unicode_len(),
    }
}

/// The answer `folder`'s listing holds, if any.
pub open spec fn held(listings: Seq<Listing>, folder: Option<Seq<char>>) -> Option<Result<Vec<FileEntry>, String>> {
    match lookup(listings, folder) {
        Some((_, answer)) => answer,
        None => None,
    }
}

/// The request number `n` requests after `requests`.
pub open spec fn advance(requests: u64, n: nat) -> u64
    decreases n,
{
    if n == 0 { requests } else { next_request(advance(requests, (n - 1) as nat)) }
}

/// What asking `device_id` for the listings of `folders` (each different)
/// did: numbered the requests in order, and made each folder's listing
/// await its request, keeping its last answer on show; the other folders'
/// listings stay as they were.
pub open spec fn awaited(device_id: Seq<char>, requests: u64, before: Seq<Listing>, folders: Seq<Option<Seq<char>>>,
    requests_after: u64, after: Seq<Listing>, fetches: Seq<Fetch>) -> bool
{
    &&& fetches.len() == folders.len()
    &&& requests_after == advance(requests, folders.len())
    &&& forall|i: int| 0 <= i < folders.len() ==> {
        &&& (#[trigger] fetches[i]).device_id@ == device_id
        &&& opt_text(fetches[i].folder) == folders[i]
        &&& fetches[i].request == advance(requests, (i + 1) as nat)
        &&& lookup(after, folders[i]) == Some((fetches[i].request, held(before, folders[i])))
    }
    &&& forall|f: Option<Seq<char>>| !folders.contains(f) ==> #[trigger] lookup(after, f) == lookup(before, f)
}

/// The browser's state other than its listings is the same.
pub open spec fn same_view(a: BrowseUi, b: BrowseUi) -> bool {
    &&& a.open == b.open
    &&& a.shares == b.shares
    &&& a.show_hidden == b.show_hidden
    &&& a.sort == b.sort
    &&& a.menu == b.menu
    &&& a.preview == b.preview
}

/// Nothing about the browser changed.
pub open spec fn unchanged(a: BrowseUi, b: BrowseUi) -> bool {
    same_view(a, b) && a.requests == b.requests && a.listings@ == b.listings@
}

/// The folders to list when the window opens `folder`: the folder, and the
/// storage too while its listing isn't held, for the breadcrumbs.
pub open spec fn to_list_on_open(folder: Option<Seq<char>>, listings: Seq<Listing>) -> Seq<Option<Seq<char>>> {
    if folder is Some && !(held(listings, None) matches Some(Ok(_))) { seq![folder, None] } else { seq![folder] }
}

/// The sort a device's files start with: by name, ascending.
pub open spec fn first_sort() -> Sort {
    Sort { by: Column::Name, ascending: true }
}

/// What the window showing `route` did to the browser, with `shares_now`
/// whether the route's device can share its files: on its own page it
/// opens the device's folder (starting afresh for another device) and lists
/// what the page needs; on any other page it lets go of the files.
pub open spec fn routed(before: BrowseUi, route: RouteView, shares_now: bool, after: BrowseUi, fetches: Seq<Fetch>) -> bool {
    match route {
        RouteView::Browse { device, folder } => {
            let same_device = before.open matches Some(p) && p.device_id@ == device;
            let kept = if same_device { before.listings@ } else { Seq::empty() };
            &&& after.open matches Some(p) && p.device_id@ == device && opt_text(p.folder) == folder
            &&& after.shares == shares_now
            &&& after.menu is None
            &&& if same_device {
                    after.show_hidden == before.show_hidden && after.sort == before.sort && after.preview == before.preview
                } else {
                    !after.show_hidden && after.sort == first_sort() && after.preview is None
                }
            &&& if shares_now {
                    awaited(device, before.requests, kept, to_list_on_open(folder, kept), after.requests, after.listings@, fetches)
                } else {
                    fetches.len() == 0 && after.requests == before.requests && after.listings@ == kept
                }
        },
        _ => {
            &&& after.open is None
            &&& after.listings@.len() == 0
            &&& after.menu is None
            &&& after.preview is None
            &&& after.shares == before.shares && after.show_hidden == before.show_hidden && after.sort == before.sort
            &&& after.requests == before.requests
            &&& fetches.len() == 0
        },
    }
}

/// What news about the open device did, with `shares_now` whether it can
/// share its files now: once it can again, its storage and open folder are
/// listed again; otherwise nothing but the note of whether it can changes.
pub open spec fn reconnected(before: BrowseUi, shares_now: bool, after: BrowseUi, fetches: Seq<Fetch>) -> bool {
    match before.open {
        None => unchanged(before, after) && fetches.len() == 0,
        Some(place) => if shares_now == before.shares {
            unchanged(before, after) && fetches.len() == 0
        } else {
            &&& after.shares == shares_now
            &&& after.open == before.open
            &&& after.show_hidden == before.show_hidden && after.sort == before.sort
            &&& after.menu == before.menu && after.preview == before.preview
            &&& if shares_now {
                    awaited(place.device_id@, before.requests, before.listings@,
                        if place.folder is Some { seq![None, opt_text(place.folder)] } else { seq![None] },
                        after.requests, after.listings@, fetches)
                } else {
                    fetches.len() == 0 && after.requests == before.requests && after.listings@ == before.listings@
                }
        },
    }
}

/// The effect is showing `target`, or nothing without one.
pub open spec fn goes(effect: Effect, target: Option<RouteView>) -> bool {
    match target {
        Some(r) => effect matches Effect::Navigate(route) && route@ == r,
        None => effect is Nothing,
    }
}

/// The open device's `folder` (`None`: its storage), with a device open.
pub open spec fn browse_to(ui: BrowseUi, folder: Option<Seq<char>>) -> Option<RouteView> {
    match ui.open {
        Some(p) => Some(RouteView::Browse { device: p.device_id@, folder }),
        None => None,
    }
}

/// The effect downloads `file` of the open device, or is nothing without
/// one.
pub open spec fn downloads(ui: BrowseUi, file: FileEntry, effect: Effect) -> bool {
    match ui.open {
        Some(p) => effect matches Effect::Download { device_id, path, name }
            && device_id@ == p.device_id@ && path@ == file.path@ && name@ == file.name@,
        None => effect is Nothing,
    }
}

/// Previewing `file` of the open device: it shows, loading, while its
/// bytes are read.
pub open spec fn previewing(before: BrowseUi, file: FileEntry, after: BrowseUi, effect: Effect) -> bool {
    match before.open {
        Some(p) => after.preview == Some(Preview { file, image: PreviewImage::Loading })
            && (effect matches Effect::Read { device_id, path } && device_id@ == p.device_id@ && path@ == file.path@),
        None => after.preview == before.preview && effect is Nothing,
    }
}

/// The prompt asks for a name with these words, starting from `initial`
/// with its first `selected` characters selected (or the cursor at the
/// end), for `folder` of `device_id`.
pub open spec fn asks_name(prompt: NamePrompt, title: Seq<char>, confirm_label: Seq<char>, initial: Seq<char>,
    selected: Option<int>, device_id: Seq<char>, folder: Seq<char>) -> bool
{
    &&& prompt.title@ == title
    &&& prompt.confirm_label@ == confirm_label
    &&& prompt.label@ == "Name"@
    &&& prompt.initial@ == initial
    &&& match (prompt.selection, selected) {
        (Some((start, end)), Some(n)) => start == 0 && end == n,
        (None, None) => true,
        _ => false,
    }
    &&& prompt.device_id@ == device_id
    &&& prompt.folder@ == folder
}

/// What deleting `file` asks: its title and why it can't be undone.
pub open spec fn deletion_words(file: FileEntry) -> (Seq<char>, Seq<char>) {
    if file.kind == FileKind::Directory {
        ("Delete folder?"@, "“"@ + file.name@ + "” and everything in it will be deleted from the device. This can’t be undone."@)
    } else {
        ("Delete file?"@, "“"@ + file.name@ + "” will be deleted from the device. This can’t be undone."@)
    }
}

/// The browser's place, listings and settings are the same; its menu and
/// preview may differ.
pub open spec fn same_place(a: BrowseUi, b: BrowseUi) -> bool {
    &&& a.open == b.open
    &&& a.shares == b.shares
    &&& a.show_hidden == b.show_hidden
    &&& a.sort == b.sort
    &&& a.requests == b.requests
    &&& a.listings@ == b.listings@
}

/// What the browser did with a message about where it is and what it lists.
pub open spec fn updated_listing(before: BrowseUi, message: Message, after: BrowseUi, effect: Effect) -> bool {
    match message {
        Message::Listed { device_id, folder, request, result } => {
            &&& listed(before, device_id@, opt_text(folder), request, result, after)
            &&& same_view(before, after)
            &&& after.requests == before.requests
            &&& effect is Nothing
        },
        Message::Refresh => match before.open {
            None => unchanged(before, after) && effect is Nothing,
            Some(p) => {
                &&& same_view(before, after)
                &&& effect matches Effect::List(fetches) && awaited(p.device_id@, before.requests, before.listings@,
                    seq![opt_text(p.folder)], after.requests, after.listings@, fetches@)
            },
        },
        Message::Changed { device_id, folder, error } => {
            let refetch = (before.open matches Some(p) && p.device_id@ == device_id@)
                && lookup(before.listings@, Some(folder@)) is Some;
            &&& same_view(before, after)
            &&& if refetch {
                    effect matches Effect::Relist { fetch: Some(f), error: e } && e == error
                        && awaited(device_id@, before.requests, before.listings@, seq![Some(folder@)],
                            after.requests, after.listings@, seq![f])
                } else {
                    after.requests == before.requests && after.listings@ == before.listings@
                        && effect == (Effect::Relist { fetch: None, error })
                }
        },
        _ => true,
    }
}

/// What the browser did with a message about its files.
pub open spec fn updated_files(before: BrowseUi, message: Message, after: BrowseUi, effect: Effect) -> bool {
    match message {
        Message::Activate(file) => {
            &&& same_place(before, after) && after.menu is None
            &&& if file.kind == FileKind::Directory {
                    after.preview == before.preview && goes(effect, browse_to(before, Some(file.path@)))
                } else if previews(file) {
                    previewing(before, file, after, effect)
                } else {
                    after.preview == before.preview && downloads(before, file, effect)
                }
        },
        Message::Download(file) => same_place(before, after) && after.menu is None
            && after.preview == before.preview && downloads(before, file, effect),
        Message::Downloading(result) => unchanged(before, after) && match result {
            Ok(name) => effect matches Effect::Toast { text, action: Some((label, route)) }
                && text@ == "Downloading "@ + name@ && label@ == "Transfers"@ && route@ == RouteView::Transfers,
            Err(error) => effect matches Effect::Toast { text, action: None } && text@ == error@,
        },
        Message::Preview(file) => same_place(before, after) && after.menu is None && previewing(before, file, after, effect),
        Message::Previewed { path, result } => {
            &&& same_place(before, after) && after.menu == before.menu && effect is Nothing
            &&& if before.preview matches Some(shown) && shown.file.path@ == path@ {
                    after.preview == Some(Preview {
                        file: before.preview->Some_0.file,
                        image: match result { Ok(()) => PreviewImage::Shown, Err(e) => PreviewImage::Failed(e) },
                    })
                } else {
                    after.preview == before.preview
                }
        },
        Message::ClosePreview => same_place(before, after) && after.menu == before.menu
            && after.preview is None && effect is Nothing,
        Message::NewFolder => unchanged(before, after) && match before.open {
            Some(Place { device_id, folder: Some(folder) }) => effect matches Effect::Prompt(prompt)
                && asks_name(prompt, "New folder"@, "Create"@, Seq::empty(), None, device_id@, folder@)
                && prompt.naming is NewFolder,
            _ => effect is Nothing,
        },
        Message::Rename(file) => same_place(before, after) && after.menu is None && after.preview == before.preview
            && match (before.open, split_remote(file.path@)) {
                (Some(p), Some((parent, _))) => effect matches Effect::Prompt(prompt)
                    && asks_name(prompt, "Rename"@, "Rename"@, file.name@,
                        if file.name@.len() == 0 { None } else { Some(stem_len(file.name@)) }, p.device_id@, parent)
                    && prompt.naming == Naming::Rename(file),
                _ => effect is Nothing,
            },
        Message::Delete(file) => same_place(before, after) && after.menu is None && after.preview == before.preview
            && match (before.open, split_remote(file.path@)) {
                (Some(p), Some((parent, _))) => effect matches Effect::Confirm { title, body, confirm_label, then }
                    && title@ == deletion_words(file).0 && body@ == deletion_words(file).1 && confirm_label@ == "Delete"@
                    && then@ == MessageView::Change { device_id: p.device_id@, folder: parent, change: ChangeView::Delete(file.path@) },
                _ => effect is Nothing,
            },
        Message::Change { device_id, folder, change } => unchanged(before, after)
            && effect == (Effect::Change { device_id, folder, change }),
        Message::PickUploads => unchanged(before, after) && match before.open {
            Some(Place { device_id, folder: Some(folder) }) => effect matches Effect::PickFiles { title, device_id: d, folder: f }
                && title@ == "Upload files to "@ + folder_label(folder@, roots_in(before.listings@))
                && d@ == device_id@ && f@ == folder@,
            _ => effect is Nothing,
        },
        Message::Upload { device_id, folder, paths } => unchanged(before, after)
            && effect == (Effect::Upload { device_id, folder, paths }),
        _ => true,
    }
}

/// What the browser did with `message`: its state after, and the work it
/// leaves to the shell.
pub open spec fn updated(before: BrowseUi, message: Message, after: BrowseUi, effect: Effect) -> bool {
    match message {
        Message::Browse { device_id } => unchanged(before, after)
            && goes(effect, Some(RouteView::Browse { device: device_id@, folder: None })),
        Message::Back => unchanged(before, after)
            && goes(effect, match before.open { Some(p) => Some(RouteView::Device(p.device_id@)), None => None }),
        Message::Open(folder) => unchanged(before, after) && goes(effect, browse_to(before, opt_text(folder))),
        Message::Up => unchanged(before, after) && goes(effect, up_of(before)),
        Message::ToggleHidden => {
            &&& after.show_hidden == !before.show_hidden
            &&& after.open == before.open && after.shares == before.shares && after.sort == before.sort
            &&& after.menu == before.menu && after.preview == before.preview
            &&& after.requests == before.requests && after.listings@ == before.listings@
            &&& effect is Nothing
        },
        Message::Sort(by) => {
            &&& after.sort == toggled(before.sort, by)
            &&& after.open == before.open && after.shares == before.shares && after.show_hidden == before.show_hidden
            &&& after.menu == before.menu && after.preview == before.preview
            &&& after.requests == before.requests && after.listings@ == before.listings@
            &&& effect is Nothing
        },
        Message::Menu(path) => {
            &&& opt_text(after.menu) == if opt_text(before.menu) == Some(path@) { None } else { Some(path@) }
            &&& same_place(before, after) && after.preview == before.preview
            &&& effect is Nothing
        },
        Message::Listed { .. } | Message::Refresh | Message::Changed { .. } => updated_listing(before, message, after, effect),
        _ => updated_files(before, message, after, effect),
    }
}

impl BrowseUi {
    /// List `folder` of the open device.
    fn fetch_one(&mut self, folder: Option<String>) -> (fetches: Vec<Fetch>)
        requires
            old(self).open matches Some(place),
        ensures
            awaited(old(self).open->Some_0.device_id@, old(self).requests, old(self).listings@,
                seq![opt_text(folder)], final(self).requests, final(self).listings@, fetches@),
            same_view(*old(self), *final(self)),
    {
        let ghost f = opt_text(folder);
        let fetch = self.fetch(folder);
        let fetch = fetch.unwrap();
        let fetches = vec![fetch];
        proof {
            assert(fetches@[0] == fetch);
            reveal_with_fuel(advance, 2);
            assert forall|g: Option<Seq<char>>| !seq![f].contains(g) implies
                #[trigger] lookup(self.listings@, g) == lookup(old(self).listings@, g) by {
                assert(seq![f][0] == f);
            }
        }
        fetches
    }

    /// List `first` then `second`, two different folders of the open
    /// device.
    fn fetch_two(&mut self, first: Option<String>, second: Option<String>) -> (fetches: Vec<Fetch>)
        requires
            old(self).open matches Some(place),
            opt_text(first) != opt_text(second),
        ensures
            awaited(old(self).open->Some_0.device_id@, old(self).requests, old(self).listings@,
                seq![opt_text(first), opt_text(second)], final(self).requests, final(self).listings@, fetches@),
            same_view(*old(self), *final(self)),
    {
        let ghost a = opt_text(first);
        let ghost b = opt_text(second);
        let ghost s0 = *self;
        let one = self.fetch(first).unwrap();
        let ghost s1 = *self;
        let two = self.fetch(second).unwrap();
        let fetches = vec![one, two];
        proof {
            let folders = seq![a, b];
            assert(fetches@[0] == one && fetches@[1] == two);
            reveal_with_fuel(advance, 3);
            assert(lookup(self.listings@, a) == lookup(s1.listings@, a));
            assert(held(s1.listings@, b) == held(s0.listings@, b));
            assert forall|i: int| 0 <= i < 2 implies {
                &&& (#[trigger] fetches@[i]).device_id@ == s0.open->Some_0.device_id@
                &&& opt_text(fetches@[i].folder) == folders[i]
                &&& fetches@[i].request == advance(s0.requests, (i + 1) as nat)
                &&& lookup(self.listings@, folders[i]) == Some((fetches@[i].request, held(s0.listings@, folders[i])))
            } by {
                if i == 0 { assert(folders[0] == a); } else { assert(folders[1] == b); }
            }
            assert forall|g: Option<Seq<char>>| !folders.contains(g) implies
                #[trigger] lookup(self.listings@, g) == lookup(s0.listings@, g) by {
                assert(folders[0] == a && folders[1] == b);
                assert(g != a && g != b);
                assert(lookup(s1.listings@, g) == lookup(s0.listings@, g));
            }
        }
        fetches
    }

    /// Whether the storage's listing holds files.
    fn roots_held(&self) -> (r: bool)
        ensures
            r == (held(self.listings@, None) matches Some(Ok(_))),
    {
        let none: Option<String> = None;
        proof { lemma_listing_from(self.listings@, None, 0); }
        match position_of(&self.listings, &none) {
            Some(k) => match &self.listings[k].answer {
                Some(Ok(_)) => true,
                _ => false,
            },
            None => false,
        }
    }

    /// List the open folder, and the storage too when it isn't held.
    fn fetch_open(&mut self) -> (fetches: Vec<Fetch>)
        requires
            old(self).open matches Some(place),
        ensures
            awaited(old(self).open->Some_0.device_id@, old(self).requests, old(self).listings@,
                to_list_on_open(opt_text(old(self).open->Some_0.folder), old(self).listings@),
                final(self).requests, final(self).listings@, fetches@),
            same_view(*old(self), *final(self)),
    {
        let folder = match &self.open {
            Some(place) => copy_opt(&place.folder),
            None => None,
        };
        let held_roots = self.roots_held();
        if folder.is_some() && !held_roots {
            self.fetch_two(folder, None)
        } else {
            self.fetch_one(folder)
        }
    }

    /// The window now shows `route`; `device` is the route's device as the
    /// core knows it, if it does. On the browser's own page the browser
    /// opens the folder and returns the listings its page needs; on any
    /// other page it lets go of the device's files.
    pub fn on_route(&mut self, route: &Route, device: Option<&DeviceSnapshot>) -> (fetches: Vec<Fetch>)
        ensures
            routed(*old(self), route@, match device { Some(d) => shares(*d), None => false }, *final(self), fetches@),
    {
        let (id, folder) = match route {
            Route::Browse { device: id, folder } => (id, folder),
            _ => {
                self.open = None;
                self.listings = Vec::new();
                self.menu = None;
                self.preview = None;
                return Vec::new();
            }
        };
        let same_device = match &self.open {
            Some(place) => same(place.device_id.as_str(), id.as_str()),
            None => false,
        };
        if !same_device {
            self.listings = Vec::new();
            self.show_hidden = false;
            self.sort = Sort { by: Column::Name, ascending: true };
            self.preview = None;
        }
        self.menu = None;
        self.shares = match device {
            Some(d) => shares_files(d),
            None => false,
        };
        self.open = Some(Place { device_id: owned(id.as_str()), folder: copy_opt(folder) });
        if self.shares {
            self.fetch_open()
        } else {
            Vec::new()
        }
    }

    /// The core reported news; `device` is the open device as it knows it
    /// now, if it does. Once the device can share its files again (it
    /// reconnected), its storage and open folder are listed again.
    pub fn on_event(&mut self, device: Option<&DeviceSnapshot>) -> (fetches: Vec<Fetch>)
        ensures
            reconnected(*old(self), match device { Some(d) => shares(*d), None => false }, *final(self), fetches@),
    {
        let folder = match &self.open {
            None => return Vec::new(),
            Some(place) => copy_opt(&place.folder),
        };
        let shares_now = match device {
            Some(d) => shares_files(d),
            None => false,
        };
        if shares_now == self.shares {
            return Vec::new();
        }
        self.shares = shares_now;
        if !shares_now {
            return Vec::new();
        }
        if folder.is_some() {
            self.fetch_two(None, folder)
        } else {
            self.fetch_one(None)
        }
    }
    /// Show the open device's `folder`.
    fn navigate(&self, folder: Option<String>) -> (effect: Effect)
        ensures
            goes(effect, browse_to(*self, opt_text(folder))),
    {
        match &self.open {
            Some(place) => Effect::Navigate(Route::Browse { device: owned(place.device_id.as_str()), folder }),
            None => Effect::Nothing,
        }
    }

    /// Download `file` of the open device.
    fn download(&self, file: &FileEntry) -> (effect: Effect)
        ensures
            downloads(*self, *file, effect),
    {
        match &self.open {
            Some(place) => Effect::Download {
                device_id: owned(place.device_id.as_str()),
                path: owned(file.path.as_str()),
                name: owned(file.name.as_str()),
            },
            None => Effect::Nothing,
        }
    }

    /// Preview `file` of the open device: it shows loading while its bytes
    /// are read.
    fn preview_file(&mut self, file: FileEntry) -> (effect: Effect)
        ensures
            previewing(*old(self), file, *final(self), effect),
            same_place(*old(self), *final(self)),
            final(self).menu == old(self).menu,
    {
        let device_id = match &self.open {
            Some(place) => owned(place.device_id.as_str()),
            None => return Effect::Nothing,
        };
        let path = owned(file.path.as_str());
        self.preview = Some(Preview { file, image: PreviewImage::Loading });
        Effect::Read { device_id, path }
    }

    /// Ask for a name in `folder` of the open device.
    fn prompt(&self, title: &str, confirm_label: &str, initial: &str, folder: String, naming: Naming) -> (effect: Effect)
        ensures
            match self.open {
                Some(p) => effect matches Effect::Prompt(prompt)
                    && asks_name(prompt, title@, confirm_label@, initial@,
                        if initial@.len() == 0 { None } else { Some(stem_len(initial@)) }, p.device_id@, folder@)
                    && prompt.naming == naming,
                None => effect is Nothing,
            },
    {
        let device_id = match &self.open {
            Some(place) => owned(place.device_id.as_str()),
            None => return Effect::Nothing,
        };
        let selection = if initial.unicode_len() == 0 { None } else { Some((0, stem(initial))) };
        Effect::Prompt(NamePrompt {
            title: owned(title),
            confirm_label: owned(confirm_label),
            label: owned("Name"),
            initial: owned(initial),
            selection,
            device_id,
            folder,
            naming,
        })
    }

    /// What the browser does with `message`: its state changes, and the
    /// work it leaves to the shell is returned.
    #[verifier::rlimit(30)]
    pub fn update(&mut self, message: Message) -> (effect: Effect)
        ensures
            updated(*old(self), message, *final(self), effect),
    {
        match message {
            Message::Browse { device_id } => Effect::Navigate(Route::Browse { device: device_id, folder: None }),
            Message::Back => match &self.open {
                Some(place) => Effect::Navigate(Route::Device(owned(place.device_id.as_str()))),
                None => Effect::Nothing,
            },
            Message::Open(folder) => self.navigate(folder),
            Message::Up => match self.up() {
                Some(route) => Effect::Navigate(route),
                None => Effect::Nothing,
            },
            Message::Listed { device_id, folder, request, result } => {
                self.listed(device_id.as_str(), folder, request, result);
                Effect::Nothing
            }
            Message::Refresh => {
                let folder = match &self.open {
                    Some(place) => copy_opt(&place.folder),
                    None => return Effect::Nothing,
                };
                Effect::List(self.fetch_one(folder))
            }
            Message::ToggleHidden => {
                self.toggle_hidden();
                Effect::Nothing
            }
            Message::Sort(by) => {
                self.sort_by(by);
                Effect::Nothing
            }
            Message::Menu(path) => {
                self.toggle_menu(path);
                Effect::Nothing
            }
            Message::Activate(file) => {
                self.menu = None;
                if file.kind == FileKind::Directory {
                    self.navigate(Some(owned(file.path.as_str())))
                } else if can_preview(&file) {
                    self.preview_file(file)
                } else {
                    self.download(&file)
                }
            }
            Message::Download(file) => {
                self.menu = None;
                self.download(&file)
            }
            Message::Downloading(result) => match result {
                Ok(name) => Effect::Toast {
                    text: join2("Downloading ", name.as_str()),
                    action: Some((owned("Transfers"), Route::Transfers)),
                },
                Err(error) => Effect::Toast { text: error, action: None },
            },
            Message::Preview(file) => {
                self.menu = None;
                self.preview_file(file)
            }
            Message::Previewed { path, result } => {
                let matches_path = match &self.preview {
                    Some(shown) => same(shown.file.path.as_str(), path.as_str()),
                    None => false,
                };
                if matches_path {
                    let shown = self.preview.take().unwrap();
                    let image = match result {
                        Ok(()) => PreviewImage::Shown,
                        Err(error) => PreviewImage::Failed(error),
                    };
                    self.preview = Some(Preview { file: shown.file, image });
                }
                Effect::Nothing
            }
            Message::ClosePreview => {
                self.preview = None;
                Effect::Nothing
            }
            Message::NewFolder => {
                let folder = match &self.open {
                    Some(Place { folder: Some(folder), .. }) => owned(folder.as_str()),
                    _ => return Effect::Nothing,
                };
                proof { reveal_strlit(""); }
                assert(""@ =~= Seq::<char>::empty());
                self.prompt("New folder", "Create", "", folder, Naming::NewFolder)
            }
            Message::Rename(file) => {
                self.menu = None;
                let parent = match parent_of(file.path.as_str()) {
                    Some(parent) => parent,
                    None => return Effect::Nothing,
                };
                let initial = owned(file.name.as_str());
                self.prompt("Rename", "Rename", initial.as_str(), parent, Naming::Rename(file))
            }
            Message::Delete(file) => {
                self.menu = None;
                let device_id = match &self.open {
                    Some(place) => owned(place.device_id.as_str()),
                    None => return Effect::Nothing,
                };
                let parent = match parent_of(file.path.as_str()) {
                    Some(parent) => parent,
                    None => return Effect::Nothing,
                };
                let (title, body) = if file.kind == FileKind::Directory {
                    (owned("Delete folder?"),
                        join3("“", file.name.as_str(), "” and everything in it will be deleted from the device. This can’t be undone."))
                } else {
                    (owned("Delete file?"),
                        join3("“", file.name.as_str(), "” will be deleted from the device. This can’t be undone."))
                };
                Effect::Confirm {
                    title,
                    body,
                    confirm_label: owned("Delete"),
                    then: Message::Change { device_id, folder: parent, change: Change::Delete(owned(file.path.as_str())) },
                }
            }
            Message::Change { device_id, folder, change } => Effect::Change { device_id, folder, change },
            Message::Changed { device_id, folder, error } => {
                let open_here = match &self.open {
                    Some(place) => same(place.device_id.as_str(), device_id.as_str()),
                    None => false,
                };
                let key = Some(folder);
                proof { lemma_listing_from(self.listings@, opt_text(key), 0); }
                let held_here = position_of(&self.listings, &key).is_some();
                if open_here && held_here {
                    let mut fetches = self.fetch_one(key);
                    let fetch = fetches.pop().unwrap();
                    Effect::Relist { fetch: Some(fetch), error }
                } else {
                    Effect::Relist { fetch: None, error }
                }
            }
            Message::PickUploads => {
                let (device_id, folder) = match &self.open {
                    Some(Place { device_id, folder: Some(folder) }) => (owned(device_id.as_str()), owned(folder.as_str())),
                    _ => return Effect::Nothing,
                };
                let name = folder_name(folder.as_str(), self.roots());
                Effect::PickFiles { title: join2("Upload files to ", name.as_str()), device_id, folder }
            }
            Message::Upload { device_id, folder, paths } => Effect::Upload { device_id, folder, paths },
        }
    }
}

} // verus!
