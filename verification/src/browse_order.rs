//! The order a folder's files are listed in: folders first, then by the
//! column chosen, either way.

use vstd::prelude::*;
use std::cmp::Ordering;
use crate::browse::{FileEntry, FileKind, lowercase, to_lowercase};
use crate::text::{text_rank, compare_text, text_rank_flips};

verus! {

/// A column of the listing to sort by.
#[derive(Debug, Clone, Copy, PartialEq, Eq, Structural)]
pub enum Column {
    Name,
    Size,
    Modified,
}

impl Default for Column {
    fn default() -> (column: Self)
        ensures
            column == Column::Name,
    {
        Column::Name
    }
}

/// How the listing is sorted.
#[derive(Debug, Clone, Copy, PartialEq, Eq, Structural)]
pub struct Sort {
    pub by: Column,
    pub ascending: bool,
}

impl Default for Sort {
    fn default() -> (sort: Self)
        ensures
            sort == (Sort { by: Column::Name, ascending: true }),
    {
        Sort { by: Column::Name, ascending: true }
    }
}

/// The sort after choosing column `by`: the other way round if it was
/// already sorted by it ascending, else by it ascending.
pub open spec fn toggled(sort: Sort, by: Column) -> Sort {
    Sort { by, ascending: sort.by != by || !sort.ascending }
}

impl Sort {
    /// The sort after a click on column `by`'s header.
    pub fn toggle(self, by: Column) -> (sort: Sort)
        ensures
            sort == toggled(self, by),
    {
        Sort { by, ascending: self.by != by || !self.ascending }
    }
}

/// Choosing the same column twice puts the listing back as it was; a new
/// column always starts ascending.
pub proof fn toggling_twice_restores(sort: Sort, by: Column)
    ensures
        sort.by == by ==> toggled(toggled(sort, by), by) == sort,
        sort.by != by ==> toggled(sort, by).ascending,
{
}

/// Two texts in the order of their characters, as `str`'s order has it.
pub open spec fn text_order(a: Seq<char>, b: Seq<char>) -> Ordering {
    let rank = text_rank(a, b);
    if rank < 0 { Ordering::Less } else if rank == 0 { Ordering::Equal } else { Ordering::Greater }
}

/// Two numbers in their order.
pub open spec fn number_order(a: u64, b: u64) -> Ordering {
    if a < b { Ordering::Less } else if a == b { Ordering::Equal } else { Ordering::Greater }
}

/// The other way round.
pub open spec fn flip(order: Ordering) -> Ordering {
    match order {
        Ordering::Less => Ordering::Greater,
        Ordering::Equal => Ordering::Equal,
        Ordering::Greater => Ordering::Less,
    }
}

/// `first`, or `second` when `first` can't tell.
pub open spec fn then_order(first: Ordering, second: Ordering) -> Ordering {
    if first == Ordering::Equal { second } else { first }
}

pub open spec fn size_of(file: FileEntry) -> u64 {
    match file.size { Some(size) => size, None => 0 }
}

pub open spec fn modified_of(file: FileEntry) -> u64 {
    match file.modified_at { Some(at) => at, None => 0 }
}

/// Where `a` goes relative to `b` in a listing sorted by `sort`: folders
/// first whichever way, then by the column, then by name ignoring case.
pub open spec fn listing_order(a: FileEntry, b: FileEntry, sort: Sort) -> Ordering {
    let a_folder = a.kind == FileKind::Directory;
    let b_folder = b.kind == FileKind::Directory;
    if a_folder != b_folder {
        if a_folder { Ordering::Less } else { Ordering::Greater }
    } else {
        let by_name = text_order(lowercase(a.name@), lowercase(b.name@));
        let primary = match sort.by {
            Column::Name => by_name,
            Column::Size => number_order(size_of(a), size_of(b)),
            Column::Modified => number_order(modified_of(a), modified_of(b)),
        };
        let order = then_order(primary, by_name);
        if sort.ascending { order } else { flip(order) }
    }
}

fn text_order_of(a: &str, b: &str) -> (order: Ordering)
    ensures
        order == text_order(a@, b@),
{
    let rank = compare_text(a, b);
    if rank < 0 { Ordering::Less } else if rank == 0 { Ordering::Equal } else { Ordering::Greater }
}

fn number_order_of(a: u64, b: u64) -> (order: Ordering)
    ensures
        order == number_order(a, b),
{
    if a < b { Ordering::Less } else if a == b { Ordering::Equal } else { Ordering::Greater }
}

/// Where `a` goes relative to `b` in a listing sorted by `sort`.
pub fn compare(a: &FileEntry, b: &FileEntry, sort: Sort) -> (order: Ordering)
    ensures
        order == listing_order(*a, *b, sort),
{
    let a_folder = a.kind == FileKind::Directory;
    let b_folder = b.kind == FileKind::Directory;
    if a_folder != b_folder {
        return if a_folder { Ordering::Less } else { Ordering::Greater };
    }
    let a_name = to_lowercase(a.name.as_str());
    let b_name = to_lowercase(b.name.as_str());
    let by_name = text_order_of(a_name.as_str(), b_name.as_str());
    let primary = match sort.by {
        Column::Name => by_name,
        Column::Size => {
            let x = match a.size { Some(size) => size, None => 0 };
            let y = match b.size { Some(size) => size, None => 0 };
            number_order_of(x, y)
        }
        Column::Modified => {
            let x = match a.modified_at { Some(at) => at, None => 0 };
            let y = match b.modified_at { Some(at) => at, None => 0 };
            number_order_of(x, y)
        }
    };
    let order = match primary {
        Ordering::Equal => by_name,
        other => other,
    };
    if sort.ascending {
        order
    } else {
        match order {
            Ordering::Less => Ordering::Greater,
            Ordering::Equal => Ordering::Equal,
            Ordering::Greater => Ordering::Less,
        }
    }
}

/// Swapping two files flips where they go, whatever the sort; and a folder
/// goes before a file whichever way the listing is sorted.
pub proof fn listing_order_flips(a: FileEntry, b: FileEntry, sort: Sort)
    ensures
        listing_order(b, a, sort) == flip(listing_order(a, b, sort)),
        a.kind == FileKind::Directory && b.kind != FileKind::Directory
            ==> listing_order(a, b, sort) == Ordering::Less,
{
    text_rank_flips(lowercase(a.name@), lowercase(b.name@));
}

/// Whether `a` goes after `b` in a listing sorted by `sort`.
pub open spec fn goes_after(a: FileEntry, b: FileEntry, sort: Sort) -> bool {
    listing_order(a, b, sort) == Ordering::Greater
}

/// Whether `a` goes after `b` in a listing sorted by `sort`.
pub fn after(a: &FileEntry, b: &FileEntry, sort: Sort) -> (r: bool)
    ensures
        r == goes_after(*a, *b, sort),
{
    match compare(a, b, sort) {
        Ordering::Greater => true,
        _ => false,
    }
}

/// Whether `a` and `b` go in the same place in a listing sorted by `sort`.
pub open spec fn ties(a: FileEntry, b: FileEntry, sort: Sort) -> bool {
    listing_order(a, b, sort) == Ordering::Equal
}

/// When `a` goes after `b`, `b` goes before `a`: neither after it nor in
/// its place.
pub proof fn lemma_goes_after_flips(a: FileEntry, b: FileEntry, sort: Sort)
    ensures
        goes_after(a, b, sort) ==> !goes_after(b, a, sort) && !ties(b, a, sort),
{
    listing_order_flips(a, b, sort);
}

/// Two files or two folders that the chosen column can't tell apart (the
/// same size, the same date; folders have neither) go by name, ignoring
/// case: in name order when ascending, the other way round when not.
pub proof fn equal_columns_go_by_name(a: FileEntry, b: FileEntry, sort: Sort)
    requires
        (a.kind == FileKind::Directory) == (b.kind == FileKind::Directory),
        sort.by == Column::Size ==> (match a.size { Some(s) => s, None => 0u64 }) == (match b.size { Some(s) => s, None => 0u64 }),
        sort.by == Column::Modified ==> (match a.modified_at { Some(t) => t, None => 0u64 })
            == (match b.modified_at { Some(t) => t, None => 0u64 }),
    ensures
        listing_order(a, b, sort) == if sort.ascending {
            text_order(lowercase(a.name@), lowercase(b.name@))
        } else {
            flip(text_order(lowercase(a.name@), lowercase(b.name@)))
        },
{
}

} // verus!
