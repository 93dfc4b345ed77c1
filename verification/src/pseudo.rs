//! `en-XA`, a pseudo-locale for finding what isn't translated and what
//! doesn't fit: every en-US message, accented, about 40% longer and in
//! brackets, "[Šééţţîîñĝš]". It is generated from en-US whenever it is
//! loaded, so it is never out of date and nobody edits it.
//!
//! It is offered only when asked for by name, so a system asking for some
//! other English can't end up in it.

use vstd::prelude::*;
use crate::text::{owned, same, push_char};

verus! {

/// The pseudo-locale's tag.
pub const LANGUAGE: &'static str = "en-XA";

/// Every locale's file name, in its directory.
pub const FILE_NAME: &'static str = "ferry.ftl";

/// The pseudo-locale's file: `en-XA/ferry.ftl`.
pub fn file() -> (r: String)
    ensures
        r@ == LANGUAGE@ + seq!['/'] + FILE_NAME@,
{
    let mut r = owned(LANGUAGE);
    push_char(&mut r, '/');
    r.append(FILE_NAME);
    r
}

/// Whether `requested`, language tags, asks for the pseudo-locale.
pub fn is_requested(requested: &Vec<String>) -> (r: bool)
    ensures
        r == exists|i: int| 0 <= i < requested@.len() && (#[trigger] requested@[i])@ == LANGUAGE@,
{
    crate::device::has_capability(requested, LANGUAGE)
}

/// The accented form of a letter; other characters stay.
pub open spec fn accented(c: char) -> char {
    if c == 'a' { 'å' } else if c == 'c' { 'ç' } else if c == 'd' { 'ď' } else if c == 'e' { 'é' }
    else if c == 'g' { 'ĝ' } else if c == 'h' { 'ĥ' } else if c == 'i' { 'î' } else if c == 'j' { 'ĵ' }
    else if c == 'k' { 'ķ' } else if c == 'l' { 'ļ' } else if c == 'n' { 'ñ' } else if c == 'o' { 'ö' }
    else if c == 'r' { 'ŕ' } else if c == 's' { 'š' } else if c == 't' { 'ţ' } else if c == 'u' { 'û' }
    else if c == 'w' { 'ŵ' } else if c == 'y' { 'ý' } else if c == 'z' { 'ž' }
    else if c == 'A' { 'Å' } else if c == 'C' { 'Ç' } else if c == 'D' { 'Ď' } else if c == 'E' { 'É' }
    else if c == 'G' { 'Ĝ' } else if c == 'H' { 'Ĥ' } else if c == 'I' { 'Î' } else if c == 'J' { 'Ĵ' }
    else if c == 'K' { 'Ķ' } else if c == 'L' { 'Ļ' } else if c == 'N' { 'Ñ' } else if c == 'O' { 'Ö' }
    else if c == 'R' { 'Ŕ' } else if c == 'S' { 'Š' } else if c == 'T' { 'Ţ' } else if c == 'U' { 'Û' }
    else if c == 'W' { 'Ŵ' } else if c == 'Y' { 'Ý' } else if c == 'Z' { 'Ž' }
    else { c }
}

/// The accented form of a letter; other characters stay.
pub fn accented_letter(c: char) -> (r: char)
    ensures
        r == accented(c),
{
    match c {
        'a' => 'å', 'c' => 'ç', 'd' => 'ď', 'e' => 'é', 'g' => 'ĝ', 'h' => 'ĥ', 'i' => 'î',
        'j' => 'ĵ', 'k' => 'ķ', 'l' => 'ļ', 'n' => 'ñ', 'o' => 'ö', 'r' => 'ŕ', 's' => 'š',
        't' => 'ţ', 'u' => 'û', 'w' => 'ŵ', 'y' => 'ý', 'z' => 'ž',
        'A' => 'Å', 'C' => 'Ç', 'D' => 'Ď', 'E' => 'É', 'G' => 'Ĝ', 'H' => 'Ĥ', 'I' => 'Î',
        'J' => 'Ĵ', 'K' => 'Ķ', 'L' => 'Ļ', 'N' => 'Ñ', 'O' => 'Ö', 'R' => 'Ŕ', 'S' => 'Š',
        'T' => 'Ţ', 'U' => 'Û', 'W' => 'Ŵ', 'Y' => 'Ý', 'Z' => 'Ž',
        other => other,
    }
}

/// A vowel, either case.
pub open spec fn vowel(c: char) -> bool {
    c == 'a' || c == 'e' || c == 'i' || c == 'o' || c == 'u'
        || c == 'A' || c == 'E' || c == 'I' || c == 'O' || c == 'U'
}

/// The lowercase form of an ASCII letter; other characters stay.
pub open spec fn ascii_lower(c: char) -> char {
    if c == 'A' { 'a' } else if c == 'E' { 'e' } else if c == 'I' { 'i' } else if c == 'O' { 'o' }
    else if c == 'U' { 'u' } else { c }
}

/// `text` with its letters accented and each vowel doubled (the second
/// one lowercase), which makes English about a third longer.
pub open spec fn accented_text(text: Seq<char>) -> Seq<char>
    decreases text.len(),
{
    if text.len() == 0 {
        Seq::empty()
    } else {
        let c = text.last();
        let more = if vowel(c) { seq![accented(c), accented(ascii_lower(c))] } else { seq![accented(c)] };
        accented_text(text.drop_last()) + more
    }
}

fn is_vowel(c: char) -> (r: bool)
    ensures
        r == vowel(c),
{
    c == 'a' || c == 'e' || c == 'i' || c == 'o' || c == 'u'
        || c == 'A' || c == 'E' || c == 'I' || c == 'O' || c == 'U'
}

fn lower_vowel(c: char) -> (r: char)
    ensures
        r == ascii_lower(c),
{
    if c == 'A' { 'a' } else if c == 'E' { 'e' } else if c == 'I' { 'i' } else if c == 'O' { 'o' }
    else if c == 'U' { 'u' } else { c }
}

/// `text` with its letters accented and each vowel doubled.
pub fn accent(text: &str) -> (r: String)
    ensures
        r@ == accented_text(text@),
{
    let n = text.unicode_len();
    let mut out = String::new();
    let mut i: usize = 0;
    assert(text@.take(0) =~= Seq::<char>::empty());
    while i < n
        invariant
            i <= n == text@.len(),
            out@ == accented_text(text@.take(i as int)),
        decreases n - i,
    {
        let c = text.get_char(i);
        assert(text@.take(i + 1).drop_last() =~= text@.take(i as int));
        assert(text@.take(i + 1).last() == c);
        push_char(&mut out, accented_letter(c));
        if is_vowel(c) {
            push_char(&mut out, accented_letter(lower_vowel(c)));
        }
        i = i + 1;
    }
    assert(text@.take(n as int) =~= text@);
    out
}

/// How many vowels `text` has.
pub open spec fn vowels(text: Seq<char>) -> nat
    decreases text.len(),
{
    if text.len() == 0 {
        0
    } else {
        vowels(text.drop_last()) + if vowel(text.last()) { 1nat } else { 0nat }
    }
}

/// Accenting lengthens a text by exactly one character for each vowel.
pub proof fn accenting_lengthens_by_the_vowels(text: Seq<char>)
    ensures
        accented_text(text).len() == text.len() + vowels(text),
    decreases text.len(),
{
    if text.len() > 0 {
        accenting_lengthens_by_the_vowels(text.drop_last());
    }
}

/// Every vowel is doubled, capitals too, the second copy lowercase
/// (`O` gives `Öö`); any other character stays one character.
pub proof fn every_vowel_is_doubled(c: char)
    ensures
        (c == 'a' || c == 'e' || c == 'i' || c == 'o' || c == 'u'
            || c == 'A' || c == 'E' || c == 'I' || c == 'O' || c == 'U') ==> accented_text(seq![c]).len() == 2,
        !(c == 'a' || c == 'e' || c == 'i' || c == 'o' || c == 'u'
            || c == 'A' || c == 'E' || c == 'I' || c == 'O' || c == 'U') ==> accented_text(seq![c]).len() == 1,
        accented_text(seq!['A']) == seq!['Å', 'å'],
        accented_text(seq!['E']) == seq!['É', 'é'],
        accented_text(seq!['I']) == seq!['Î', 'î'],
        accented_text(seq!['O']) == seq!['Ö', 'ö'],
        accented_text(seq!['U']) == seq!['Û', 'û'],
        accented_text(seq!['o']) == seq!['ö', 'ö'],
{
    assert forall|d: char| #[trigger] seq![d].drop_last() =~= Seq::<char>::empty() by {}
    assert(seq![c].drop_last() =~= Seq::<char>::empty());
    assert(accented_text(Seq::<char>::empty()) =~= Seq::<char>::empty());
    assert(seq!['A'].drop_last() =~= Seq::<char>::empty());
    assert(seq!['E'].drop_last() =~= Seq::<char>::empty());
    assert(seq!['I'].drop_last() =~= Seq::<char>::empty());
    assert(seq!['O'].drop_last() =~= Seq::<char>::empty());
    assert(seq!['U'].drop_last() =~= Seq::<char>::empty());
    assert(seq!['o'].drop_last() =~= Seq::<char>::empty());
    assert(accented_text(seq!['A']) =~= seq!['Å', 'å']);
    assert(accented_text(seq!['E']) =~= seq!['É', 'é']);
    assert(accented_text(seq!['I']) =~= seq!['Î', 'î']);
    assert(accented_text(seq!['O']) =~= seq!['Ö', 'ö']);
    assert(accented_text(seq!['U']) =~= seq!['Û', 'û']);
    assert(accented_text(seq!['o']) =~= seq!['ö', 'ö']);
}

} // verus!
