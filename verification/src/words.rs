//! Sentences in the user's language: a message of the app's `.ftl` files,
//! by its id, with the arguments it takes. The shell looks each up in the
//! languages chosen ([`crate::i18n`]), en-US filling in for what a
//! translation lacks; the library says which message and with what.
//! Beside each, a `describe*` function gives the en-US sentence.

use vstd::prelude::*;
use crate::text::owned;

verus! {

/// An argument of a message: text, or a number (which also picks a
/// plural form).
#[derive(Debug, Clone)]
pub enum Arg {
    Text(String),
    Number(u64),
}

pub enum ArgView {
    Text(Seq<char>),
    Number(u64),
}

impl View for Arg {
    type V = ArgView;

    open spec fn view(&self) -> ArgView {
        match *self {
            Arg::Text(t) => ArgView::Text(t@),
            Arg::Number(n) => ArgView::Number(n),
        }
    }
}

/// A message of the app's `.ftl` files, with its arguments by name.
#[derive(Debug, Clone)]
pub struct Words {
    pub id: &'static str,
    pub args: Vec<(&'static str, Arg)>,
}

pub struct WordsView {
    pub id: Seq<char>,
    pub args: Seq<(Seq<char>, ArgView)>,
}

impl View for Words {
    type V = WordsView;

    open spec fn view(&self) -> WordsView {
        WordsView { id: self.id@, args: self.args@.map_values(|a: (&'static str, Arg)| (a.0@, a.1@)) }
    }
}

/// The message `id` without arguments.
pub open spec fn plain(id: Seq<char>) -> WordsView {
    WordsView { id, args: Seq::empty() }
}

/// The message `id` with the one argument `name`.
pub open spec fn with_arg(id: Seq<char>, name: Seq<char>, arg: ArgView) -> WordsView {
    WordsView { id, args: seq![(name, arg)] }
}

/// The message `id` with the two arguments `a` and `b`, in that order.
pub open spec fn with_args(id: Seq<char>, a: (Seq<char>, ArgView), b: (Seq<char>, ArgView)) -> WordsView {
    WordsView { id, args: seq![a, b] }
}

/// The message `id`.
pub fn message(id: &'static str) -> (w: Words)
    ensures
        w@ == plain(id@),
{
    let w = Words { id, args: Vec::new() };
    assert(w@.args =~= Seq::<(Seq<char>, ArgView)>::empty());
    w
}

/// The message `id` with the text `value` as its argument `name`.
pub fn with_text(id: &'static str, name: &'static str, value: &str) -> (w: Words)
    ensures
        w@ == with_arg(id@, name@, ArgView::Text(value@)),
{
    let w = Words { id, args: vec![(name, Arg::Text(owned(value)))] };
    assert(w@.args =~= seq![(name@, ArgView::Text(value@))]);
    w
}

/// The message `id` with the number `value` as its argument `name`.
pub fn with_number(id: &'static str, name: &'static str, value: u64) -> (w: Words)
    ensures
        w@ == with_arg(id@, name@, ArgView::Number(value)),
{
    let w = Words { id, args: vec![(name, Arg::Number(value))] };
    assert(w@.args =~= seq![(name@, ArgView::Number(value))]);
    w
}

/// The message `id` with the arguments `a` and `b`.
pub fn with_two(id: &'static str, a: (&'static str, Arg), b: (&'static str, Arg)) -> (w: Words)
    ensures
        w@ == with_args(id@, (a.0@, a.1@), (b.0@, b.1@)),
{
    let w = Words { id, args: vec![a, b] };
    assert(w@.args =~= seq![(a.0@, a.1@), (b.0@, b.1@)]);
    w
}

} // verus!
