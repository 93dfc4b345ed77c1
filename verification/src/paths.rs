//! Paths as text: the device's remote paths, which are always `/`-separated,
//! and this computer's paths in the Unix form. A `.` component is not
//! treated specially; separators are.

use vstd::prelude::*;
use crate::text::owned;
use crate::error::{last_slash, lemma_last_slash_bounds};

verus! {

/// `s` without the slashes that end it, keeping a lone leading one.
pub open spec fn trim_end_slashes(s: Seq<char>) -> Seq<char>
    decreases s.len(),
{
    if s.len() > 1 && s.last() == '/' {
        trim_end_slashes(s.drop_last())
    } else {
        s
    }
}

/// The folder holding the path `s`: none for the root or an empty path.
pub open spec fn parent_path(s: Seq<char>) -> Option<Seq<char>> {
    let t = trim_end_slashes(s);
    if t.len() == 0 || t == seq!['/'] {
        None
    } else {
        let k = last_slash(t);
        if k < 0 {
            Some(Seq::empty())
        } else {
            let p = trim_end_slashes(t.subrange(0, k));
            if p.len() == 0 { Some(seq!['/']) } else { Some(p) }
        }
    }
}

/// `relative` under `base`, with one separator between them where needed.
pub open spec fn join_path(base: Seq<char>, relative: Seq<char>) -> Seq<char> {
    if base.len() == 0 || base.last() == '/' {
        base + relative
    } else {
        base + seq!['/'] + relative
    }
}

/// The length of `s` once the slashes that end it are trimmed.
fn trimmed_len(s: &str, end: usize) -> (n: usize)
    requires
        end <= s@.len(),
    ensures
        n <= end,
        trim_end_slashes(s@.subrange(0, end as int)) == s@.subrange(0, n as int),
{
    let mut n = end;
    while n > 1 && s.get_char(n - 1) == '/'
        invariant
            n <= end <= s@.len(),
            trim_end_slashes(s@.subrange(0, end as int)) == trim_end_slashes(s@.subrange(0, n as int)),
        decreases n,
    {
        assert(s@.subrange(0, n as int).drop_last() =~= s@.subrange(0, n - 1));
        n = n - 1;
    }
    n
}

/// The position of the last `/` among the first `end` characters of `s`.
pub fn last_slash_before(s: &str, end: usize) -> (k: Option<usize>)
    requires
        end <= s@.len(),
    ensures
        match k {
            Some(k) => k < end && last_slash(s@.subrange(0, end as int)) == k,
            None => last_slash(s@.subrange(0, end as int)) == -1,
        },
{
    let mut i = end;
    while i > 0
        invariant
            i <= end <= s@.len(),
            last_slash(s@.subrange(0, end as int)) == last_slash(s@.subrange(0, i as int)),
        decreases i,
    {
        let ghost prefix = s@.subrange(0, i as int);
        if s.get_char(i - 1) == '/' {
            return Some(i - 1);
        }
        assert(prefix.drop_last() =~= s@.subrange(0, i - 1));
        i = i - 1;
    }
    None
}

/// The folder holding `path`, if it has one.
pub fn parent(path: &str) -> (r: Option<String>)
    ensures
        r matches Some(p) ==> parent_path(path@) == Some(p@),
        r is None <==> parent_path(path@) is None,
{
    let len = path.unicode_len();
    assert(path@.subrange(0, len as int) =~= path@);
    let n = trimmed_len(path, len);
    let ghost t = path@.subrange(0, n as int);
    if n == 0 || (n == 1 && path.get_char(0) == '/') {
        assert(n == 1 ==> t =~= seq!['/']);
        return None;
    }
    assert(t != seq!['/']) by {
        let root = seq!['/'];
        assert(root.len() == 1 && root[0] == '/');
        if n == 1 {
            assert(t[0] == path@[0]);
        }
    }
    match last_slash_before(path, n) {
        None => Some(String::new()),
        Some(k) => {
            assert(t.subrange(0, k as int) =~= path@.subrange(0, k as int));
            let m = trimmed_len(path, k);
            if m == 0 {
                let mut root = String::new();
                crate::text::push_char(&mut root, '/');
                assert(root@ =~= seq!['/']);
                Some(root)
            } else {
                Some(owned(path.substring_char(0, m)))
            }
        }
    }
}

/// The root folder, `/`.
pub fn root_path() -> (r: String)
    ensures
        r@ == seq!['/'],
{
    let mut root = String::new();
    crate::text::push_char(&mut root, '/');
    assert(root@ =~= seq!['/']);
    root
}

/// `relative` under `base`.
pub fn join(base: &str, relative: &str) -> (r: String)
    ensures
        r@ == join_path(base@, relative@),
{
    let n = base.unicode_len();
    let mut r = owned(base);
    if n > 0 && base.get_char(n - 1) != '/' {
        crate::text::push_char(&mut r, '/');
        assert(r@ =~= base@ + seq!['/']);
    }
    r.append(relative);
    r
}

/// A remote path's folder and name: the part before its last `/` (the root
/// `/` when that is the first character) and the part after it. None when
/// the path has no `/` or ends with one.
pub open spec fn split_remote(path: Seq<char>) -> Option<(Seq<char>, Seq<char>)> {
    let k = last_slash(path);
    if k < 0 || k == path.len() - 1 {
        None
    } else {
        let folder = if k == 0 { seq!['/'] } else { path.subrange(0, k) };
        Some((folder, path.subrange(k + 1, path.len() as int)))
    }
}

/// A file `name` in the remote `folder`.
pub open spec fn join_remote(folder: Seq<char>, name: Seq<char>) -> Seq<char> {
    join_path(folder, name)
}

/// The folder and name of the remote `path`, if it names something in a
/// folder.
pub fn split_remote_path(path: &str) -> (r: Option<(String, String)>)
    ensures
        r matches Some(p) ==> split_remote(path@) == Some((p.0@, p.1@)),
        r is None <==> split_remote(path@) is None,
{
    let n = path.unicode_len();
    assert(path@.subrange(0, n as int) =~= path@);
    match last_slash_before(path, n) {
        None => None,
        Some(k) => {
            if k + 1 == n {
                return None;
            }
            let folder = if k == 0 {
                let mut root = String::new();
                crate::text::push_char(&mut root, '/');
                assert(root@ =~= seq!['/']);
                root
            } else {
                owned(path.substring_char(0, k))
            };
            Some((folder, owned(path.substring_char(k + 1, n))))
        }
    }
}

/// The remote path of `name` in `folder`.
pub fn join_remote_path(folder: &str, name: &str) -> (r: String)
    ensures
        r@ == join_remote(folder@, name@),
{
    join(folder, name)
}

/// Joining a name onto a folder and splitting it again gives back the two,
/// for a name without `/` and a folder that doesn't end with one.
pub proof fn split_undoes_join(folder: Seq<char>, name: Seq<char>)
    requires
        folder.len() > 0,
        folder[0] == '/',
        folder.len() == 1 || folder.last() != '/',
        name.len() > 0,
        !name.contains('/'),
    ensures
        split_remote(join_remote(folder, name)) == Some((folder, name)),
{
    let p = join_remote(folder, name);
    let start = if folder.last() == '/' { folder.len() - 1 } else { folder.len() as int };
    lemma_last_slash_at(p, start);
    assert(p.subrange(start + 1, p.len() as int) =~= name);
    if folder.len() > 1 {
        assert(p.subrange(0, start) =~= folder);
    } else {
        assert(folder =~= seq!['/']);
    }
}

/// Where the last `/` of `s` is, when `s` has one at `k` and none after.
proof fn lemma_last_slash_at(s: Seq<char>, k: int)
    requires
        0 <= k < s.len(),
        s[k] == '/',
        forall|j: int| k < j < s.len() ==> s[j] != '/',
    ensures
        last_slash(s) == k,
    decreases s.len(),
{
    if s.last() != '/' {
        lemma_last_slash_at(s.drop_last(), k);
    }
}

} // verus!
