//! Where the packages put the notices for the third-party code in the app:
//! `THIRD_PARTY_LICENSES.html`, which About opens. A build that wasn't
//! packaged has none.

use vstd::prelude::*;
use crate::paths::{parent, parent_path, join, join_path};
use crate::text::{owned, push_char};

verus! {

/// The notices' file name.
pub const FILE_NAME: &'static str = "THIRD_PARTY_LICENSES.html";

/// Where the app is installed: each system's packages lay it out their way.
#[derive(Debug, Clone, Copy, PartialEq, Eq, Structural)]
pub enum Layout {
    /// `/usr/bin/ferry-gui`, notices in `/usr/share/doc/ferry`.
    Linux,
    /// `Ferry.app/Contents/MacOS/Ferry`, notices in the bundle's
    /// `Resources`.
    MacOs,
    /// `Ferry\\Ferry.exe`, notices next to it.
    Windows,
}

/// A Windows path separator.
pub open spec fn separator(c: char) -> bool {
    c == '\\' || c == '/'
}

/// Where the last Windows separator of `s` is, or -1.
pub open spec fn last_separator(s: Seq<char>) -> int
    decreases s.len(),
{
    if s.len() == 0 {
        -1
    } else if separator(s.last()) {
        s.len() - 1
    } else {
        last_separator(s.drop_last())
    }
}

/// `name` in the Windows folder `dir`.
pub open spec fn windows_join(dir: Seq<char>, name: Seq<char>) -> Seq<char> {
    if dir.len() == 0 || separator(dir.last()) { dir + name } else { dir + seq!['\\'] + name }
}

/// The notices of the app installed as `exe`: in the bundle's `Resources`
/// on macOS, next to `Ferry.exe` on Windows, in `share/doc/ferry` beside
/// the `bin` directory on Linux.
pub open spec fn notices_of(exe: Seq<char>, layout: Layout) -> Seq<char> {
    let dir = match parent_path(exe) { Some(d) => d, None => Seq::empty() };
    let up = match parent_path(dir) { Some(u) => u, None => dir };
    match layout {
        Layout::Windows => {
            let k = last_separator(exe);
            windows_join(if k < 0 { Seq::empty() } else { exe.subrange(0, k) }, FILE_NAME@)
        },
        Layout::MacOs => join_path(join_path(up, "Resources"@), FILE_NAME@),
        Layout::Linux => join_path(join_path(up, "share/doc/ferry"@), FILE_NAME@),
    }
}

/// The notices next to `exe`, on Windows.
fn beside_exe(exe: &str) -> (notices: String)
    ensures
        notices@ == notices_of(exe@, Layout::Windows),
{
    let n = exe.unicode_len();
    let mut k: Option<usize> = None;
    let mut i: usize = 0;
    assert(exe@.take(0) =~= Seq::<char>::empty());
    while i < n
        invariant
            i <= n == exe@.len(),
            match k { Some(j) => j < i && last_separator(exe@.take(i as int)) == j, None => last_separator(exe@.take(i as int)) == -1 },
        decreases n - i,
    {
        let c = exe.get_char(i);
        assert(exe@.take(i + 1).drop_last() =~= exe@.take(i as int));
        assert(exe@.take(i + 1).last() == c);
        if c == '\\' || c == '/' {
            k = Some(i);
        }
        i = i + 1;
    }
    assert(exe@.take(n as int) =~= exe@);
    let dir = match k {
        Some(j) => owned(exe.substring_char(0, j)),
        None => String::new(),
    };
    let m = dir.unicode_len();
    let mut notices = owned(dir.as_str());
    if m > 0 {
        let last = dir.get_char(m - 1);
        if last != '\\' && last != '/' {
            push_char(&mut notices, '\\');
            assert(notices@ =~= dir@ + seq!['\\']);
        }
    }
    notices.append(FILE_NAME);
    notices
}

/// The notices of the app installed as `exe`.
pub fn beside(exe: &str, layout: Layout) -> (notices: String)
    ensures
        notices@ == notices_of(exe@, layout),
{
    if layout == Layout::Windows {
        return beside_exe(exe);
    }
    let dir = match parent(exe) {
        Some(d) => d,
        None => String::new(),
    };
    let up = match parent(dir.as_str()) {
        Some(u) => u,
        None => crate::text::owned(dir.as_str()),
    };
    let folder = match layout {
        Layout::MacOs => join(up.as_str(), "Resources"),
        _ => join(up.as_str(), "share/doc/ferry"),
    };
    join(folder.as_str(), FILE_NAME)
}

} // verus!
