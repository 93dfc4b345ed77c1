//! Which languages the app shows: chosen at start (the forced language,
//! else the system's), then following the daemon's `language` setting;
//! and how formatted text is adjusted for the app's font.

use vstd::prelude::*;
use crate::route::{opt_text, copy_opt};
use crate::text::{owned, same, replaced, replace_char};

verus! {

/// The tag that forces the language, for testing, is read from this
/// environment variable.
pub const LANGUAGE_VARIABLE: &'static str = "FERRY_LANG";

/// en-US, the fallback for any message a translation lacks.
pub const EN_US: &'static str = "en-US";

/// A name for the canonical form of a BCP 47 tag, or none if `tag` isn't
/// one.
pub uninterp spec fn language_tag(tag: Seq<char>) -> Option<Seq<char>>;

/// The canonical form of the BCP 47 tag `tag`, if it is one.
///
/// Trusted: parses with `unic_langid::LanguageIdentifier::from_str` (as
/// `i18n_embed` re-exports it) and writes the identifier back with its
/// `Display`; the result depends on `tag` alone.
#[verifier::external_body]
pub(crate) fn parse_language(tag: &str) -> (r: Option<String>)
    ensures
        opt_text(r) == language_tag(tag@),
{
    tag.parse::<i18n_embed::unic_langid::LanguageIdentifier>().ok().map(|language| language.to_string())
}

/// How the app's language follows its setting, once chosen at start.
#[derive(Debug)]
pub struct Following {
    /// The system's languages, most preferred first, or the one forced.
    pub system: Vec<String>,
    /// A language is forced, so the setting is ignored.
    pub forced: bool,
    /// Isolation marks around arguments: on, but off for tests.
    pub isolating: bool,
    /// The setting in effect: `None` for the system's languages.
    pub setting: Option<String>,
}

pub open spec fn texts(items: Seq<String>) -> Seq<Seq<char>> {
    items.map_values(|s: String| s@)
}

/// The languages to load for `setting`: the one it names if it is a tag,
/// else the system's.
pub open spec fn languages_for(system: Seq<Seq<char>>, setting: Option<Seq<char>>) -> Seq<Seq<char>> {
    let chosen = match setting {
        Some(tag) => language_tag(tag),
        None => None,
    };
    match chosen {
        Some(language) => seq![language],
        None => system,
    }
}

impl Following {
    /// Following from the start: the system's languages (or the forced
    /// one), with isolation marks.
    pub fn at_start(system: Vec<String>, forced: bool) -> (f: Self)
        ensures
            f.system@ == system@,
            f.forced == forced,
            f.isolating,
            f.setting is None,
    {
        Following { system, forced, isolating: true, setting: None }
    }

    /// en-US without isolation marks, for tests that run the whole program;
    /// the setting still switches it, with en-US as the system's.
    pub fn for_tests() -> (f: Self)
        ensures
            texts(f.system@) == seq![EN_US@],
            !f.forced,
            !f.isolating,
            f.setting is None,
    {
        let system = vec![owned(EN_US)];
        assert(texts(system@) =~= seq![EN_US@]);
        Following { system, forced: false, isolating: false, setting: None }
    }

    /// The languages to load for `setting`, or `None` if that setting is
    /// the one in effect already or a forced language wins. A tag that
    /// doesn't parse follows the system: a new setting always loads its
    /// languages, even when they are the system's ones already showing.
    pub fn requested(&mut self, setting: Option<&str>) -> (r: Option<Vec<String>>)
        ensures
            followed(*old(self), *final(self), match setting { Some(s) => Some(s@), None => None }, r),
    {
        let same_setting = match (&self.setting, setting) {
            (Some(current), Some(asked)) => same(current.as_str(), asked),
            (None, None) => true,
            _ => false,
        };
        if self.forced || same_setting {
            return None;
        }
        self.setting = match setting {
            Some(s) => Some(owned(s)),
            None => None,
        };
        let chosen = match setting {
            Some(tag) => parse_language(tag),
            None => None,
        };
        match chosen {
            Some(language) => {
                let languages = vec![language];
                assert(texts(languages@) =~= seq![languages@[0]@]);
                Some(languages)
            }
            None => {
                let mut languages: Vec<String> = Vec::new();
                let mut i: usize = 0;
                while i < self.system.len()
                    invariant
                        i <= self.system@.len(),
                        self.system@ == old(self).system@,
                        texts(languages@) == texts(self.system@).take(i as int),
                    decreases self.system@.len() - i,
                {
                    let ghost before = texts(languages@);
                    languages.push(owned(self.system[i].as_str()));
                    assert(texts(languages@) =~= before.push(self.system@[i as int]@));
                    assert(texts(self.system@).take(i + 1) =~= texts(self.system@).take(i as int).push(texts(self.system@)[i as int]));
                    assert(texts(languages@) =~= texts(self.system@).take(i + 1));
                    i = i + 1;
                }
                assert(texts(self.system@).take(self.system@.len() as int) =~= texts(self.system@));
                Some(languages)
            }
        }
    }
}

/// Follow the daemon's `language` setting, if the language was chosen at
/// start (`following`): the languages to load now, or `None` when the
/// setting is the one in effect. Until the language is chosen (unit
/// tests), nothing changes.
pub fn follow_setting(following: &mut Option<Following>, setting: Option<&str>) -> (r: Option<Vec<String>>)
    ensures
        match *old(following) {
            None => r is None && *final(following) is None,
            Some(before) => *final(following) matches Some(after)
                && followed(before, after, match setting { Some(s) => Some(s@), None => None }, r),
        },
{
    match following {
        Some(f) => f.requested(setting),
        None => None,
    }
}

/// What a request for the setting `asked` did: nothing when it loads no
/// languages, else it made `asked` the setting in effect and returned the
/// languages to load.
pub open spec fn followed(before: Following, after: Following, asked: Option<Seq<char>>, r: Option<Vec<String>>) -> bool {
    &&& after.system@ == before.system@
    &&& after.forced == before.forced
    &&& after.isolating == before.isolating
    &&& if !follows(before.forced, opt_text(before.setting), asked) {
        r is None && after.setting == before.setting
    } else {
        &&& opt_text(after.setting) == asked
        &&& r matches Some(languages)
            && texts(languages@) == languages_for(texts(before.system@), asked)
    }
}

/// Whether a request for `asked` loads languages, with `current` in effect.
pub open spec fn follows(forced: bool, current: Option<Seq<char>>, asked: Option<Seq<char>>) -> bool {
    !forced && current != asked
}

/// A setting asked for again loads nothing: once a setting is followed
/// it is the one in effect, and the same request again changes nothing.
pub proof fn the_same_setting_twice_loads_nothing(forced: bool, asked: Option<Seq<char>>)
    ensures
        !follows(forced, asked, asked),
{
}

/// At most this many fraction digits reach the number formatter.
pub fn clamp_digits(digits: usize) -> (r: i16)
    ensures
        r == if digits < 20 { digits as int } else { 20 },
{
    if digits < 20 { digits as i16 } else { 20 }
}

/// `text` with each narrow no-break space (U+202F, which the app's font
/// lacks) made a no-break space (U+00A0), which it has and which also
/// doesn't wrap.
pub fn without_narrow_spaces(text: String) -> (r: String)
    ensures
        r@ == replaced(text@, '\u{202f}', seq!['\u{a0}']),
{
    let nbsp = "\u{a0}";
    proof { reveal_strlit("\u{a0}"); }
    assert(nbsp@ =~= seq!['\u{a0}']);
    replace_char(text.as_str(), '\u{202f}', nbsp)
}

} // verus!
