//! One app per data directory: the name of the local socket a second
//! launch finds the first one by.

use vstd::prelude::*;
use crate::autostart::{sha256, sha256_digest, hex, hex_prefix};
use crate::text::{owned, push_char};

verus! {

/// What a second launch sends.
pub const SHOW: &'static str = "show";

/// `ferry-<user>-<hash of the data dir>`: short enough for macOS's socket
/// paths, and the user keeps users apart in Linux's shared abstract
/// namespace. The data dir is given made absolute but not canonical.
pub open spec fn socket_name_of(data_dir: Seq<char>, user: Seq<char>) -> Seq<char> {
    "ferry-"@ + user + seq!['-'] + hex(sha256_digest(vstd::utf8::encode_utf8(data_dir)).take(8))
}

/// The socket's name for `data_dir` (absolute) and `user`.
pub fn name(data_dir: &str, user: &str) -> (r: String)
    ensures
        r@ == socket_name_of(data_dir@, user@),
{
    let digest = sha256(data_dir.as_bytes());
    let hash = hex_prefix(&digest, 8);
    let mut name = owned("ferry-");
    name.append(user);
    push_char(&mut name, '-');
    name.append(hash.as_str());
    name
}

/// Whether a line a later launch sent asks to show the window: `show`,
/// around white space.
pub fn asks_to_show(line: &str) -> (r: bool)
    ensures
        r == (crate::instance::trimmed(line@) == SHOW@),
{
    crate::text::same(trim(line), SHOW)
}

/// `line` without the white space around it.
pub fn trim(line: &str) -> (r: &str)
    ensures
        r@ == trimmed(line@),
{
    let n = line.unicode_len();
    let mut start: usize = 0;
    while start < n && crate::browse::is_white(line.get_char(start))
        invariant
            start <= n == line@.len(),
            forall|j: int| 0 <= j < start ==> crate::browse::white(#[trigger] line@[j]),
        decreases n - start,
    {
        start = start + 1;
    }
    let mut end: usize = n;
    while end > start && crate::browse::is_white(line.get_char(end - 1))
        invariant
            start <= end <= n == line@.len(),
            forall|j: int| 0 <= j < start ==> crate::browse::white(#[trigger] line@[j]),
            start < n ==> !crate::browse::white(line@[start as int]),
            start < n ==> end > start,
            forall|j: int| end <= j < n ==> crate::browse::white(#[trigger] line@[j]),
        decreases end,
    {
        end = end - 1;
    }
    proof {
        lemma_trimmed(line@, start as int, end as int);
    }
    line.substring_char(start, end)
}

/// The first character of `s` that isn't white space, or its length.
pub open spec fn lead(s: Seq<char>) -> int
    decreases s.len(),
{
    if s.len() == 0 || !crate::browse::white(s[0]) { 0 } else { 1 + lead(s.drop_first()) }
}

/// `s` without the white space around it.
pub open spec fn trimmed(s: Seq<char>) -> Seq<char>
    decreases s.len(),
{
    if s.len() > 0 && crate::browse::white(s.last()) {
        trimmed(s.drop_last())
    } else {
        s.skip(lead(s))
    }
}

proof fn lemma_lead(s: Seq<char>, start: int)
    requires
        0 <= start <= s.len(),
        forall|j: int| 0 <= j < start ==> crate::browse::white(#[trigger] s[j]),
        start == s.len() || !crate::browse::white(s[start]),
    ensures
        lead(s) == start,
    decreases s.len(),
{
    if start > 0 {
        assert(crate::browse::white(s[0]));
        lemma_lead(s.drop_first(), start - 1);
    }
}

proof fn lemma_trimmed(s: Seq<char>, start: int, end: int)
    requires
        0 <= start <= end <= s.len(),
        forall|j: int| 0 <= j < start ==> crate::browse::white(#[trigger] s[j]),
        forall|j: int| end <= j < s.len() ==> crate::browse::white(#[trigger] s[j]),
        start < end ==> !crate::browse::white(s[start]) && !crate::browse::white(s[end - 1]),
        start == end ==> end == s.len(),
    ensures
        trimmed(s) == s.subrange(start, end),
    decreases s.len(),
{
    if s.len() > end {
        assert(crate::browse::white(s.last()));
        lemma_trimmed(s.drop_last(), start, end);
        assert(s.drop_last().subrange(start, end) =~= s.subrange(start, end));
    } else if start == end {
        if s.len() > 0 {
            assert(crate::browse::white(s.last()));
            lemma_trimmed(s.drop_last(), start - 1, end - 1);
        }
        assert(s.subrange(start, end) =~= Seq::<char>::empty());
        if s.len() == 0 {
            assert(s.skip(lead(s)) =~= Seq::<char>::empty());
        } else {
            assert(s.drop_last().subrange(start - 1, end - 1) =~= Seq::<char>::empty());
        }
    } else {
        lemma_lead(s, start);
        assert(s.skip(start) =~= s.subrange(start, end));
    }
}

} // verus!
