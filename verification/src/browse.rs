//! Browse's logic: where a device's files are shown from, the breadcrumbs
//! back up, which files preview, which names are refused before asking the
//! device, and when the device can be browsed at all.

use vstd::prelude::*;
use crate::device::{DeviceSnapshot, names, connected, has_capability, is_connected};
use crate::paths::{split_remote, split_remote_path, join_remote, join_remote_path, root_path};
use crate::text::{owned, same, has_char};

verus! {

/// The packet type a device takes when it can share its files.
pub const REQUEST_PACKET_TYPE: &'static str = "kdeconnect.sftp.request";

/// Images opened as a preview rather than downloaded, up to
/// [`MAX_PREVIEW_BYTES`].
pub const MAX_PREVIEW_BYTES: u64 = 33554432;

/// A file or a folder.
#[derive(Debug, Clone, Copy, PartialEq, Eq, Structural)]
pub enum FileKind {
    File,
    Directory,
}

/// A file on a device, as its folder listing gives it.
#[derive(Debug, Clone)]
pub struct FileEntry {
    /// Its remote path.
    pub path: String,
    /// Its name, or a storage root's display name.
    pub name: String,
    pub kind: FileKind,
    /// Its size in bytes, if known.
    pub size: Option<u64>,
    /// When it last changed, in milliseconds since the epoch, if known.
    pub modified_at: Option<u64>,
}

/// Whether the device says it can share its files at all.
pub open spec fn advertises(device: DeviceSnapshot) -> bool {
    names(device.incoming_capabilities@, REQUEST_PACKET_TYPE@)
}

/// Whether the device's files can be browsed now.
pub open spec fn shares(device: DeviceSnapshot) -> bool {
    device.paired && connected(device) && advertises(device)
}

/// Whether the device says it can share its files at all.
pub fn advertises_browse(device: &DeviceSnapshot) -> (r: bool)
    ensures
        r == advertises(*device),
{
    has_capability(&device.incoming_capabilities, REQUEST_PACKET_TYPE)
}

/// Whether the device's files can be browsed now.
pub fn shares_files(device: &DeviceSnapshot) -> (r: bool)
    ensures
        r == shares(*device),
{
    device.paired && is_connected(device) && advertises_browse(device)
}

/// The folder holding `path`; `/` has none.
pub fn parent_of(path: &str) -> (r: Option<String>)
    ensures
        r matches Some(p) ==> split_remote(path@) matches Some(split) && p@ == split.0,
        r is None <==> split_remote(path@) is None,
{
    match split_remote_path(path) {
        Some((folder, _)) => Some(folder),
        None => None,
    }
}

/// Whether `c` is white space, as Unicode's `White_Space` property (and
/// `char::is_whitespace`) has it.
pub open spec fn white(c: char) -> bool {
    ||| '\u{9}' <= c <= '\u{d}'
    ||| c == ' '
    ||| c == '\u{85}'
    ||| c == '\u{a0}'
    ||| c == '\u{1680}'
    ||| '\u{2000}' <= c <= '\u{200a}'
    ||| c == '\u{2028}'
    ||| c == '\u{2029}'
    ||| c == '\u{202f}'
    ||| c == '\u{205f}'
    ||| c == '\u{3000}'
}

pub fn is_white(c: char) -> (r: bool)
    ensures
        r == white(c),
{
    ('\u{9}' <= c && c <= '\u{d}') || c == ' ' || c == '\u{85}' || c == '\u{a0}' || c == '\u{1680}'
        || ('\u{2000}' <= c && c <= '\u{200a}') || c == '\u{2028}' || c == '\u{2029}'
        || c == '\u{202f}' || c == '\u{205f}' || c == '\u{3000}'
}

/// Whether `s` is nothing but white space.
pub open spec fn blank(s: Seq<char>) -> bool {
    forall|i: int| 0 <= i < s.len() ==> white(#[trigger] s[i])
}

pub fn is_blank(s: &str) -> (r: bool)
    ensures
        r == blank(s@),
{
    let n = s.unicode_len();
    let mut i: usize = 0;
    while i < n
        invariant
            n == s@.len(),
            i <= n,
            forall|j: int| 0 <= j < i ==> white(#[trigger] s@[j]),
        decreases n - i,
    {
        if !is_white(s.get_char(i)) {
            return false;
        }
        i = i + 1;
    }
    true
}

/// Why a name can't name a file: none for a good one.
pub open spec fn name_problem(name: Seq<char>) -> Option<Seq<char>> {
    if blank(name) {
        Some("Enter a name."@)
    } else if name == "."@ || name == ".."@ {
        Some("That name is reserved."@)
    } else if name.contains('/') {
        Some("Names can’t contain “/”."@)
    } else {
        None
    }
}

/// Why `name` can't name a file, checked before asking the device.
pub fn invalid_name_reason(name: &str) -> (r: Option<String>)
    ensures
        r matches Some(why) ==> name_problem(name@) == Some(why@),
        r is None <==> name_problem(name@) is None,
{
    if is_blank(name) {
        Some(owned("Enter a name."))
    } else if same(name, ".") || same(name, "..") {
        Some(owned("That name is reserved."))
    } else if has_char(name, '/') {
        Some(owned("Names can’t contain “/”."))
    } else {
        None
    }
}

/// A name Unicode lowercases `s` to.
pub uninterp spec fn lowercase(s: Seq<char>) -> Seq<char>;

/// `s` in lowercase.
///
/// Trusted: calls std's `str::to_lowercase`, whose result depends on `s`
/// alone; what Unicode maps each character to is left to the name.
#[verifier::external_body]
pub(crate) fn to_lowercase(s: &str) -> (r: String)
    ensures
        r@ == lowercase(s@),
{
    s.to_lowercase()
}

/// The extension of a file named `name`, as written: what follows its last
/// `.`, unless that dot starts the name.
pub open spec fn extension_of(name: Seq<char>) -> Option<Seq<char>> {
    let k = last_dot(name);
    if k > 0 { Some(name.subrange(k + 1, name.len() as int)) } else { None }
}

/// The position of the last `.` in `s`, or -1.
pub open spec fn last_dot(s: Seq<char>) -> int
    decreases s.len(),
{
    if s.len() == 0 {
        -1
    } else if s.last() == '.' {
        s.len() - 1
    } else {
        last_dot(s.drop_last())
    }
}

pub(crate) proof fn lemma_last_dot_bounds(s: Seq<char>)
    ensures
        -1 <= last_dot(s) < s.len(),
    decreases s.len(),
{
    if s.len() > 0 && s.last() != '.' {
        lemma_last_dot_bounds(s.drop_last());
    }
}

pub(crate) fn find_last_dot(s: &str) -> (k: Option<usize>)
    ensures
        match k {
            Some(k) => last_dot(s@) == k && k < s@.len(),
            None => last_dot(s@) == -1,
        },
{
    let n = s.unicode_len();
    let mut i = n;
    assert(s@.subrange(0, n as int) =~= s@);
    while i > 0
        invariant
            i <= n == s@.len(),
            last_dot(s@) == last_dot(s@.subrange(0, i as int)),
        decreases i,
    {
        let ghost prefix = s@.subrange(0, i as int);
        if s.get_char(i - 1) == '.' {
            return Some(i - 1);
        }
        assert(prefix.drop_last() =~= s@.subrange(0, i - 1));
        i = i - 1;
    }
    None
}

/// A file's extension, lowercase; a leading dot doesn't start one.
pub fn extension(name: &str) -> (r: Option<String>)
    ensures
        r matches Some(e) ==> extension_of(name@) matches Some(x) && e@ == lowercase(x),
        r is None <==> extension_of(name@) is None,
{
    proof { lemma_last_dot_bounds(name@); }
    let n = name.unicode_len();
    match find_last_dot(name) {
        Some(dot) => {
            if dot > 0 {
                let rest = name.substring_char(dot + 1, n);
                Some(to_lowercase(rest))
            } else {
                None
            }
        }
        None => None,
    }
}

/// The extensions of the images that preview.
pub open spec fn preview_extension(e: Seq<char>) -> bool {
    e == "jpg"@ || e == "jpeg"@ || e == "png"@ || e == "gif"@ || e == "webp"@ || e == "bmp"@
}

/// Whether a click on `file` previews it rather than downloading it.
pub open spec fn previews(file: FileEntry) -> bool {
    &&& file.kind != FileKind::Directory
    &&& extension_of(file.name@) matches Some(x) && preview_extension(lowercase(x))
    &&& match file.size { Some(size) => size <= MAX_PREVIEW_BYTES, None => true }
}

/// Whether a click on `file` previews it rather than downloading it.
pub fn can_preview(file: &FileEntry) -> (r: bool)
    ensures
        r == previews(*file),
{
    if file.kind == FileKind::Directory {
        return false;
    }
    let previewable = match extension(file.name.as_str()) {
        Some(e) => {
            let e = e.as_str();
            same(e, "jpg") || same(e, "jpeg") || same(e, "png") || same(e, "gif")
                || same(e, "webp") || same(e, "bmp")
        }
        None => false,
    };
    let small = match file.size {
        Some(size) => size <= MAX_PREVIEW_BYTES,
        None => true,
    };
    previewable && small
}

/// Whether `path` is `root` or inside it.
pub open spec fn under(path: Seq<char>, root: Seq<char>) -> bool {
    ||| path == root
    ||| root.len() < path.len() && path.take(root.len() as int) == root && path[root.len() as int] == '/'
}

/// The first of `roots`, from `start`, that `path` is under.
pub open spec fn root_from(path: Seq<char>, roots: Seq<FileEntry>, start: int) -> Option<int>
    decreases roots.len() - start,
{
    if start < 0 || start >= roots.len() {
        None
    } else if under(path, roots[start].path@) {
        Some(start)
    } else {
        root_from(path, roots, start + 1)
    }
}

/// The storage root that `path` is in, among `roots`: the first that holds
/// it.
pub open spec fn root_index(path: Seq<char>, roots: Seq<FileEntry>) -> Option<int> {
    root_from(path, roots, 0)
}

fn is_under(path: &str, root: &str) -> (r: bool)
    ensures
        r == under(path@, root@),
{
    let n = path.unicode_len();
    let m = root.unicode_len();
    if same(path, root) {
        return true;
    }
    if m >= n {
        return false;
    }
    let head = path.substring_char(0, m);
    same(head, root) && path.get_char(m) == '/'
}

/// What [`root_from`] finds is one of the roots, holding `path`.
proof fn lemma_root_from(path: Seq<char>, roots: Seq<FileEntry>, start: int)
    ensures
        root_from(path, roots, start) matches Some(i) ==> 0 <= start <= i < roots.len() && under(path, roots[i].path@),
    decreases roots.len() - start,
{
    if 0 <= start < roots.len() && !under(path, roots[start].path@) {
        lemma_root_from(path, roots, start + 1);
    }
}

/// The index of the storage root that `path` is in, among `roots`.
pub fn root_of(path: &str, roots: &[FileEntry]) -> (r: Option<usize>)
    ensures
        match r {
            Some(i) => root_index(path@, roots@) == Some(i as int),
            None => root_index(path@, roots@) is None,
        },
{
    let mut i: usize = 0;
    while i < roots.len()
        invariant
            i <= roots@.len(),
            root_index(path@, roots@) == root_from(path@, roots@, i as int),
        decreases roots@.len() - i,
    {
        if is_under(path, roots[i].path.as_str()) {
            return Some(i);
        }
        i = i + 1;
    }
    None
}

/// The position of the first `/` in `s`, or its length.
pub open spec fn first_slash(s: Seq<char>) -> int
    decreases s.len(),
{
    if s.len() == 0 {
        0
    } else if s[0] == '/' {
        0
    } else {
        1 + first_slash(s.drop_first())
    }
}

/// The first slash's place is within `s`, with no slash before it.
pub proof fn lemma_first_slash_bounds(s: Seq<char>)
    ensures
        0 <= first_slash(s) <= s.len(),
        first_slash(s) < s.len() ==> s[first_slash(s)] == '/',
        forall|j: int| 0 <= j < first_slash(s) ==> s[j] != '/',
    decreases s.len(),
{
    if s.len() > 0 && s[0] != '/' {
        lemma_first_slash_bounds(s.drop_first());
        assert forall|j: int| 0 <= j < first_slash(s) implies s[j] != '/' by {
            if j > 0 {
                assert(s[j] == s.drop_first()[j - 1]);
            }
        }
    }
}

/// A crumb: its label, and the folder it opens (`None`: the storage).
pub type CrumbView = (Seq<char>, Option<Seq<char>>);

/// The crumbs for the folders of `rest`, each under the one before,
/// starting under `current` (nothing yet: the root `/`).
pub open spec fn segment_crumbs(current: Seq<char>, rest: Seq<char>) -> Seq<CrumbView>
    decreases rest.len(),
{
    if rest.len() == 0 {
        Seq::empty()
    } else {
        let k = first_slash(rest);
        proof { lemma_first_slash_bounds(rest); }
        let segment = rest.take(k);
        let after = if k < rest.len() { rest.skip(k + 1) } else { Seq::empty() };
        if segment.len() == 0 {
            segment_crumbs(current, after)
        } else {
            let base = if current.len() == 0 { seq!['/'] } else { current };
            let next = join_remote(base, segment);
            seq![(segment, Some(next))] + segment_crumbs(next, after)
        }
    }
}

/// The breadcrumbs of a folder: the storage, the root it is in (by its
/// name), then each folder below.
pub open spec fn crumbs_of(folder: Option<Seq<char>>, roots: Seq<FileEntry>) -> Seq<CrumbView> {
    let storage: CrumbView = ("Storage"@, None);
    match folder {
        None => seq![storage],
        Some(folder) => match root_index(folder, roots) {
            Some(i) => {
                let root = roots[i];
                seq![storage, (root.name@, Some(root.path@))]
                    + segment_crumbs(root.path@, folder.skip(root.path@.len() as int))
            },
            None => seq![storage] + segment_crumbs(Seq::empty(), folder),
        },
    }
}

pub open spec fn crumb_view(crumb: (String, Option<String>)) -> CrumbView {
    (crumb.0@, match crumb.1 { Some(path) => Some(path@), None => None })
}

pub open spec fn crumb_views(crumbs: Seq<(String, Option<String>)>) -> Seq<CrumbView> {
    crumbs.map_values(|crumb: (String, Option<String>)| crumb_view(crumb))
}

/// The position of the first `/` in `s` at or after `from`, or its length.
fn find_slash_from(s: &str, from: usize) -> (j: usize)
    requires
        from <= s@.len(),
    ensures
        from <= j <= s@.len(),
        j - from == first_slash(s@.skip(from as int)),
{
    let n = s.unicode_len();
    let mut j = from;
    while j < n && s.get_char(j) != '/'
        invariant
            from <= j <= n == s@.len(),
            first_slash(s@.skip(from as int)) == (j - from) + first_slash(s@.skip(j as int)),
        decreases n - j,
    {
        assert(s@.skip(j as int).drop_first() =~= s@.skip(j + 1));
        j = j + 1;
    }
    j
}

/// Appends the crumbs of the folders in `rest` under `current`.
fn push_segment_crumbs(crumbs: &mut Vec<(String, Option<String>)>, current: String, rest: &str)
    ensures
        crumb_views(final(crumbs)@) == crumb_views(old(crumbs)@) + segment_crumbs(current@, rest@),
{
    let n = rest.unicode_len();
    let ghost start = current@;
    let mut current = current;
    let mut i: usize = 0;
    assert(rest@.skip(0) =~= rest@);
    while i < n
        invariant
            i <= n == rest@.len(),
            crumb_views(old(crumbs)@) + segment_crumbs(start, rest@)
                == crumb_views(crumbs@) + segment_crumbs(current@, rest@.skip(i as int)),
        decreases n - i,
    {
        let ghost tail = rest@.skip(i as int);
        let ghost before = crumb_views(crumbs@);
        let j = find_slash_from(rest, i);
        proof { lemma_first_slash_bounds(tail); }
        let segment = rest.substring_char(i, j);
        assert(segment@ =~= tail.take(j - i));
        let next_i = if j < n { j + 1 } else { n };
        assert(next_i < n ==> rest@.skip(next_i as int) =~= tail.skip(j - i + 1));
        assert(next_i == n ==> rest@.skip(next_i as int) =~= Seq::<char>::empty());
        assert(j < n ==> tail.skip(j - i + 1) =~= rest@.skip(j + 1));
        if segment.unicode_len() > 0 {
            let next = if current.unicode_len() == 0 {
                let root = root_path();
                join_remote_path(root.as_str(), segment)
            } else {
                join_remote_path(current.as_str(), segment)
            };
            crumbs.push((owned(segment), Some(owned(next.as_str()))));
            assert(crumb_views(crumbs@) =~= before.push((segment@, Some(next@))));
            assert(before + segment_crumbs(current@, tail)
                =~= crumb_views(crumbs@) + segment_crumbs(next@, rest@.skip(next_i as int)));
            current = next;
        } else {
            assert(segment_crumbs(current@, tail) == segment_crumbs(current@, rest@.skip(next_i as int)));
        }
        i = next_i;
    }
    assert(rest@.skip(n as int) =~= Seq::<char>::empty());
    assert(crumb_views(crumbs@) + Seq::<CrumbView>::empty() =~= crumb_views(crumbs@));
}

/// The breadcrumbs of `folder` (`None`: the storage), each a label and the
/// folder it opens: the storage, the storage root the folder is in, then
/// each folder below it.
pub fn crumbs(folder: Option<&str>, roots: &[FileEntry]) -> (r: Vec<(String, Option<String>)>)
    ensures
        crumb_views(r@) == crumbs_of(match folder { Some(f) => Some(f@), None => None }, roots@),
{
    let mut crumbs: Vec<(String, Option<String>)> = Vec::new();
    crumbs.push((owned("Storage"), None));
    let ghost storage: CrumbView = ("Storage"@, None);
    assert(crumb_views(crumbs@) =~= seq![storage]);
    let folder = match folder {
        None => return crumbs,
        Some(folder) => folder,
    };
    match root_of(folder, roots) {
        Some(i) => {
            proof { lemma_root_from(folder@, roots@, 0); }
            let root = &roots[i];
            crumbs.push((owned(root.name.as_str()), Some(owned(root.path.as_str()))));
            assert(crumb_views(crumbs@) =~= seq![storage, (root.name@, Some(root.path@))]);
            proof {
                assert(under(folder@, root.path@));
            }
            let start = root.path.as_str().unicode_len();
            let rest = folder.substring_char(start, folder.unicode_len());
            assert(rest@ =~= folder@.skip(start as int));
            push_segment_crumbs(&mut crumbs, owned(root.path.as_str()), rest);
        }
        None => {
            push_segment_crumbs(&mut crumbs, String::new(), folder);
        }
    }
    crumbs
}

/// The folder's name as the breadcrumbs end with it.
pub open spec fn folder_label(folder: Seq<char>, roots: Seq<FileEntry>) -> Seq<char> {
    crumbs_of(Some(folder), roots).last().0
}

/// The folder's name as the breadcrumbs end with it.
pub fn folder_name(folder: &str, roots: &[FileEntry]) -> (r: String)
    ensures
        r@ == folder_label(folder@, roots@),
{
    let mut all = crumbs(Some(folder), roots);
    let ghost whole = all@;
    assert(crumb_views(whole).len() == whole.len());
    match all.pop() {
        Some((label, opens)) => {
            assert(whole.last() == (label, opens));
            assert(crumb_views(whole).last() == crumb_view(whole.last()));
            label
        }
        None => String::new(),
    }
}

/// Small pictures open in the preview: a file (not a folder) named with
/// the extension .jpg, .jpeg, .png, .gif, .webp or .bmp, in any case, of
/// at most 32 MiB or of unknown size. Any other extension, and any bigger
/// file, is downloaded instead.
pub proof fn small_pictures_are_previewed(file: FileEntry, x: Seq<char>)
    requires
        file.kind != FileKind::Directory,
        extension_of(file.name@) == Some(x),
    ensures
        (lowercase(x) == "jpg"@ || lowercase(x) == "jpeg"@ || lowercase(x) == "png"@
            || lowercase(x) == "gif"@ || lowercase(x) == "webp"@ || lowercase(x) == "bmp"@)
            && (match file.size { Some(s) => s <= 33554432, None => true })
            ==> previews(file),
        !(lowercase(x) == "jpg"@ || lowercase(x) == "jpeg"@ || lowercase(x) == "png"@
            || lowercase(x) == "gif"@ || lowercase(x) == "webp"@ || lowercase(x) == "bmp"@)
            ==> !previews(file),
        (match file.size { Some(s) => s > 33554432, None => false }) ==> !previews(file),
{
}

} // verus!
