//! An address the user types to announce this computer to: an IPv4
//! address in dotted decimal, as the standard library reads one.

use vstd::prelude::*;
use crate::error::{code_message, describe_code};
use crate::instance::{trim, trimmed};
use crate::text::owned;

verus! {

/// Whether `c` is an ASCII digit.
pub open spec fn is_digit(c: char) -> bool {
    '0' <= c <= '9'
}

/// The value of the decimal digits `s`.
pub open spec fn number(s: Seq<char>) -> int
    decreases s.len(),
{
    if s.len() == 0 { 0 } else { number(s.drop_last()) * 10 + (s.last() as int - '0' as int) }
}

/// One part of a dotted address: one to three digits, without a leading
/// zero unless it is `0`, up to 255.
pub open spec fn octet(part: Seq<char>) -> Option<u8> {
    if 1 <= part.len() <= 3
        && (forall|i: int| 0 <= i < part.len() ==> is_digit(#[trigger] part[i]))
        && !(part.len() > 1 && part[0] == '0')
        && number(part) <= 255
    {
        Some(number(part) as u8)
    } else {
        None
    }
}

/// `s` cut at each `.`.
pub open spec fn parts_of(s: Seq<char>) -> Seq<Seq<char>>
    decreases s.len(),
{
    if s.len() == 0 {
        seq![Seq::empty()]
    } else {
        let p = parts_of(s.drop_last());
        if s.last() == '.' {
            p.push(Seq::empty())
        } else {
            p.update(p.len() - 1, p.last().push(s.last()))
        }
    }
}

proof fn lemma_parts_nonempty(s: Seq<char>)
    ensures
        parts_of(s).len() >= 1,
    decreases s.len(),
{
    if s.len() > 0 {
        lemma_parts_nonempty(s.drop_last());
    }
}

/// The address `text` reads as, around white space: four parts, each an
/// [`octet`].
pub open spec fn ipv4_of(text: Seq<char>) -> Option<(u8, u8, u8, u8)> {
    let p = parts_of(trimmed(text));
    if p.len() == 4 && octet(p[0]) is Some && octet(p[1]) is Some && octet(p[2]) is Some && octet(p[3]) is Some {
        Some((octet(p[0])->Some_0, octet(p[1])->Some_0, octet(p[2])->Some_0, octet(p[3])->Some_0))
    } else {
        None
    }
}

/// The parts of `s`, cut at each `.`.
fn split_dots(s: &str) -> (parts: Vec<Vec<char>>)
    ensures
        parts@.map_values(|p: Vec<char>| p@) == parts_of(s@),
{
    let n = s.unicode_len();
    let mut parts: Vec<Vec<char>> = vec![Vec::new()];
    let mut i: usize = 0;
    assert(s@.take(0) =~= Seq::<char>::empty());
    assert(parts@.map_values(|p: Vec<char>| p@) =~= seq![Seq::<char>::empty()]);
    while i < n
        invariant
            i <= n == s@.len(),
            parts@.len() >= 1,
            parts@.map_values(|p: Vec<char>| p@) == parts_of(s@.take(i as int)),
        decreases n - i,
    {
        let c = s.get_char(i);
        let ghost before = parts@.map_values(|p: Vec<char>| p@);
        assert(s@.take(i + 1).drop_last() =~= s@.take(i as int));
        assert(s@.take(i + 1).last() == c);
        if c == '.' {
            parts.push(Vec::new());
            assert(parts@.map_values(|p: Vec<char>| p@) =~= before.push(Seq::empty()));
        } else {
            let k = parts.len() - 1;
            let mut last = parts.pop().unwrap();
            last.push(c);
            parts.push(last);
            assert(parts@.map_values(|p: Vec<char>| p@) =~= before.update(k as int, before.last().push(c)));
        }
        i = i + 1;
    }
    assert(s@.take(n as int) =~= s@);
    parts
}

/// The value of one part, if it is an [`octet`].
fn octet_value(part: &Vec<char>) -> (r: Option<u8>)
    ensures
        r == octet(part@),
{
    let n = part.len();
    if n < 1 || n > 3 {
        return None;
    }
    if n > 1 && part[0] == '0' {
        return None;
    }
    let mut value: u32 = 0;
    let mut i: usize = 0;
    assert(part@.take(0) =~= Seq::<char>::empty());
    while i < n
        invariant
            1 <= n <= 3,
            n == part@.len(),
            i <= n,
            forall|j: int| 0 <= j < i ==> is_digit(#[trigger] part@[j]),
            value == number(part@.take(i as int)),
            value < 1000,
            value <= (if i == 0 { 0int } else if i == 1 { 9int } else if i == 2 { 99int } else { 999int }),
        decreases n - i,
    {
        let c = part[i];
        if !('0' <= c && c <= '9') {
            return None;
        }
        assert(part@.take(i + 1).drop_last() =~= part@.take(i as int));
        assert(part@.take(i + 1).last() == c);
        value = value * 10 + (c as u32 - '0' as u32);
        i = i + 1;
    }
    assert(part@.take(n as int) =~= part@);
    if value <= 255 { Some(value as u8) } else { None }
}

/// The IPv4 address `text` holds, around white space, if it holds one.
pub fn parse_ipv4(text: &str) -> (r: Option<(u8, u8, u8, u8)>)
    ensures
        r == ipv4_of(text@),
{
    let core = trim(text);
    let parts = split_dots(core);
    proof {
        assert(parts@.len() == parts_of(trimmed(text@)).len());
    }
    if parts.len() != 4 {
        return None;
    }
    proof {
        assert(parts@[0]@ == parts_of(trimmed(text@))[0]);
        assert(parts@[1]@ == parts_of(trimmed(text@))[1]);
        assert(parts@[2]@ == parts_of(trimmed(text@))[2]);
        assert(parts@[3]@ == parts_of(trimmed(text@))[3]);
    }
    let a = octet_value(&parts[0]);
    let b = octet_value(&parts[1]);
    let c = octet_value(&parts[2]);
    let d = octet_value(&parts[3]);
    match (a, b, c, d) {
        (Some(a), Some(b), Some(c), Some(d)) => Some((a, b, c, d)),
        _ => None,
    }
}

/// The address to announce this computer to, or why `text` isn't one.
pub fn check_address(text: &str) -> (r: Result<(u8, u8, u8, u8), String>)
    ensures
        match ipv4_of(text@) {
            Some(address) => r == Ok::<(u8, u8, u8, u8), String>(address),
            None => r matches Err(e) && e@ == code_message("invalid_address"@),
        },
{
    match parse_ipv4(text) {
        Some(address) => Ok(address),
        None => Err(describe_code("invalid_address")),
    }
}

} // verus!
