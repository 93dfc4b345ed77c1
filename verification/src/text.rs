//! Small operations on text, stated over a string's characters.

use vstd::prelude::*;

verus! {

/// `s` with every `from` replaced by `to`.
pub open spec fn replaced(s: Seq<char>, from: char, to: Seq<char>) -> Seq<char>
    decreases s.len(),
{
    if s.len() == 0 {
        Seq::empty()
    } else {
        let head = if s[0] == from { to } else { seq![s[0]] };
        head + replaced(s.drop_first(), from, to)
    }
}

/// `s` without any character that `drop` holds.
pub open spec fn without(s: Seq<char>, drop: Seq<char>) -> Seq<char>
    decreases s.len(),
{
    if s.len() == 0 {
        Seq::empty()
    } else {
        let head = if drop.contains(s[0]) { Seq::empty() } else { seq![s[0]] };
        head + without(s.drop_first(), drop)
    }
}

/// The decimal digits of `n`, without leading zeros ("0" for zero).
pub open spec fn decimal(n: nat) -> Seq<char>
    decreases n,
{
    if n < 10 {
        seq![digit(n)]
    } else {
        decimal(n / 10).push(digit(n % 10))
    }
}

pub open spec fn digit(d: nat) -> char {
    if d == 0 { '0' }
    else if d == 1 { '1' }
    else if d == 2 { '2' }
    else if d == 3 { '3' }
    else if d == 4 { '4' }
    else if d == 5 { '5' }
    else if d == 6 { '6' }
    else if d == 7 { '7' }
    else if d == 8 { '8' }
    else { '9' }
}

/// Where `a` goes relative to `b` in the order of their characters, as
/// `str`'s order has it: negative before, zero the same, positive after.
pub open spec fn text_rank(a: Seq<char>, b: Seq<char>) -> int
    decreases a.len(),
{
    if a.len() == 0 {
        if b.len() == 0 { 0 } else { -1 }
    } else if b.len() == 0 {
        1
    } else if a[0] < b[0] {
        -1
    } else if a[0] > b[0] {
        1
    } else {
        text_rank(a.drop_first(), b.drop_first())
    }
}

/// Swapping two texts flips their order.
pub proof fn text_rank_flips(a: Seq<char>, b: Seq<char>)
    ensures
        text_rank(b, a) == -text_rank(a, b),
        -1 <= text_rank(a, b) <= 1,
    decreases a.len(),
{
    if a.len() > 0 && b.len() > 0 && a[0] == b[0] {
        text_rank_flips(a.drop_first(), b.drop_first());
    }
}

/// Where `a` goes relative to `b` in the order of their characters.
pub fn compare_text(a: &str, b: &str) -> (rank: i8)
    ensures
        rank == text_rank(a@, b@),
{
    let n = a.unicode_len();
    let m = b.unicode_len();
    let mut i: usize = 0;
    assert(a@.skip(0) =~= a@);
    assert(b@.skip(0) =~= b@);
    while i < n && i < m
        invariant
            i <= n == a@.len(),
            i <= m == b@.len(),
            text_rank(a@, b@) == text_rank(a@.skip(i as int), b@.skip(i as int)),
        decreases n - i,
    {
        let x = a.get_char(i);
        let y = b.get_char(i);
        if x < y {
            return -1;
        }
        if x > y {
            return 1;
        }
        assert(a@.skip(i as int).drop_first() =~= a@.skip(i + 1));
        assert(b@.skip(i as int).drop_first() =~= b@.skip(i + 1));
        i = i + 1;
    }
    if i < n {
        1
    } else if i < m {
        -1
    } else {
        0
    }
}

/// Appends `c` to `s`.
///
/// Trusted: calls std's `String::push`, which std documents as appending the
/// character to the end of the string.
#[verifier::external_body]
pub(crate) fn push_char(s: &mut String, c: char)
    ensures
        final(s)@ == old(s)@.push(c),
{
    s.push(c);
}

/// A new string holding `s`.
pub fn owned(s: &str) -> (r: String)
    ensures
        r@ == s@,
{
    String::from_str(s)
}

/// Whether `a` and `b` hold the same characters.
pub fn same(a: &str, b: &str) -> (r: bool)
    ensures
        r == (a@ == b@),
{
    let n = a.unicode_len();
    if n != b.unicode_len() {
        return false;
    }
    let mut i: usize = 0;
    while i < n
        invariant
            n == a@.len(),
            n == b@.len(),
            i <= n,
            forall|j: int| 0 <= j < i ==> a@[j] == b@[j],
        decreases n - i,
    {
        if a.get_char(i) != b.get_char(i) {
            return false;
        }
        i = i + 1;
    }
    assert(a@ =~= b@);
    true
}

/// Whether `s` holds `c`.
pub fn has_char(s: &str, c: char) -> (r: bool)
    ensures
        r == s@.contains(c),
{
    let n = s.unicode_len();
    let mut i: usize = 0;
    while i < n
        invariant
            n == s@.len(),
            i <= n,
            forall|j: int| 0 <= j < i ==> s@[j] != c,
        decreases n - i,
    {
        if s.get_char(i) == c {
            assert(s@[i as int] == c);
            return true;
        }
        i = i + 1;
    }
    false
}

/// Whether `s` holds one of the characters of `set`.
pub fn has_any(s: &str, set: &str) -> (r: bool)
    ensures
        r == exists|j: int| 0 <= j < s@.len() && set@.contains(#[trigger] s@[j]),
{
    let n = s.unicode_len();
    let mut i: usize = 0;
    while i < n
        invariant
            n == s@.len(),
            i <= n,
            forall|j: int| 0 <= j < i ==> !set@.contains(#[trigger] s@[j]),
        decreases n - i,
    {
        if has_char(set, s.get_char(i)) {
            return true;
        }
        i = i + 1;
    }
    false
}

/// `s` with every `from` replaced by `to`.
pub fn replace_char(s: &str, from: char, to: &str) -> (r: String)
    ensures
        r@ == replaced(s@, from, to@),
{
    let n = s.unicode_len();
    let mut out = String::new();
    let mut i: usize = 0;
    assert(s@.skip(0) =~= s@);
    assert(out@ + replaced(s@, from, to@) =~= replaced(s@, from, to@));
    while i < n
        invariant
            n == s@.len(),
            i <= n,
            replaced(s@, from, to@) == out@ + replaced(s@.skip(i as int), from, to@),
        decreases n - i,
    {
        let c = s.get_char(i);
        assert(s@.skip(i as int).drop_first() =~= s@.skip(i + 1));
        if c == from {
            out.append(to);
        } else {
            push_char(&mut out, c);
        }
        i = i + 1;
    }
    assert(s@.skip(n as int) =~= Seq::<char>::empty());
    out
}

/// `s` without the characters that `drop` holds.
pub fn remove_chars(s: &str, drop: &str) -> (r: String)
    ensures
        r@ == without(s@, drop@),
{
    let n = s.unicode_len();
    let mut out = String::new();
    let mut i: usize = 0;
    assert(s@.skip(0) =~= s@);
    assert(out@ + without(s@, drop@) =~= without(s@, drop@));
    while i < n
        invariant
            n == s@.len(),
            i <= n,
            without(s@, drop@) == out@ + without(s@.skip(i as int), drop@),
        decreases n - i,
    {
        let c = s.get_char(i);
        assert(s@.skip(i as int).drop_first() =~= s@.skip(i + 1));
        if !has_char(drop, c) {
            push_char(&mut out, c);
        } else {
            assert(out@ + Seq::<char>::empty() =~= out@);
        }
        i = i + 1;
    }
    assert(s@.skip(n as int) =~= Seq::<char>::empty());
    out
}

/// The decimal digits of `n`.
pub fn decimal_string(n: u64) -> (r: String)
    ensures
        r@ == decimal(n as nat),
    decreases n,
{
    if n < 10 {
        let mut s = String::new();
        push_char(&mut s, digit_char(n));
        assert(s@ =~= seq![digit(n as nat)]);
        s
    } else {
        let mut s = decimal_string(n / 10);
        push_char(&mut s, digit_char(n % 10));
        s
    }
}

fn digit_char(d: u64) -> (c: char)
    requires
        d < 10,
    ensures
        c == digit(d as nat),
{
    if d == 0 { '0' }
    else if d == 1 { '1' }
    else if d == 2 { '2' }
    else if d == 3 { '3' }
    else if d == 4 { '4' }
    else if d == 5 { '5' }
    else if d == 6 { '6' }
    else if d == 7 { '7' }
    else if d == 8 { '8' }
    else { '9' }
}

/// `a` followed by `b`.
pub fn join2(a: &str, b: &str) -> (r: String)
    ensures
        r@ == a@ + b@,
{
    let mut s = String::from_str(a);
    s.append(b);
    s
}

/// `a`, `b` and `c` one after another.
pub fn join3(a: &str, b: &str, c: &str) -> (r: String)
    ensures
        r@ == a@ + b@ + c@,
{
    let mut s = String::from_str(a);
    s.append(b);
    s.append(c);
    s
}

/// `a` to `e` one after another.
pub fn join5(a: &str, b: &str, c: &str, d: &str, e: &str) -> (r: String)
    ensures
        r@ == a@ + b@ + c@ + d@ + e@,
{
    let mut s = String::from_str(a);
    s.append(b);
    s.append(c);
    s.append(d);
    s.append(e);
    s
}

} // verus!
