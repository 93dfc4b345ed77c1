//! Toasts: short messages stacked at the bottom of the window, gone after a
//! few seconds, with an optional button that goes somewhere.

use vstd::prelude::*;
use crate::route::{Route, RouteView};

verus! {

/// How long a toast stays up, in milliseconds.
pub const DURATION_MILLIS: u64 = 4000;

/// The most toasts shown at once; older ones go first.
pub const MAX: usize = 3;

#[derive(Debug, Clone)]
pub struct Toast {
    pub id: u64,
    pub text: String,
    /// A button's label and where it goes.
    pub action: Option<(String, Route)>,
}

pub struct ToastView {
    pub id: u64,
    pub text: Seq<char>,
    pub action: Option<(Seq<char>, RouteView)>,
}

impl View for Toast {
    type V = ToastView;

    open spec fn view(&self) -> ToastView {
        ToastView {
            id: self.id,
            text: self.text@,
            action: match self.action {
                Some((label, route)) => Some((label@, route@)),
                None => None,
            },
        }
    }
}

/// The toasts showing, oldest first.
#[derive(Debug)]
pub struct Toasts {
    pub items: Vec<Toast>,
    pub next_id: u64,
}

pub open spec fn toasts_view(items: Seq<Toast>) -> Seq<ToastView> {
    items.map_values(|t: Toast| t@)
}

/// The toasts after `toast` is shown: the oldest goes once there are too
/// many.
pub open spec fn pushed(items: Seq<ToastView>, toast: ToastView) -> Seq<ToastView> {
    let all = items.push(toast);
    if all.len() > MAX { all.drop_first() } else { all }
}

/// The toasts without the one numbered `id`.
pub open spec fn without_id(items: Seq<ToastView>, id: u64) -> Seq<ToastView>
    decreases items.len(),
{
    if items.len() == 0 {
        items
    } else {
        let rest = without_id(items.drop_last(), id);
        if items.last().id == id { rest } else { rest.push(items.last()) }
    }
}

/// The next toast's number, wrapping round.
pub open spec fn next_id(id: u64) -> u64 {
    if id == u64::MAX { 0 } else { (id + 1) as u64 }
}

impl Default for Toasts {
    fn default() -> (toasts: Self)
        ensures
            toasts.items@.len() == 0,
            toasts.next_id == 0,
    {
        Toasts { items: Vec::new(), next_id: 0 }
    }
}

impl Toasts {
    /// Show a toast; returns its id, to dismiss it later.
    pub fn push(&mut self, text: String, action: Option<(String, Route)>) -> (id: u64)
        ensures
            id == old(self).next_id,
            final(self).next_id == next_id(old(self).next_id),
            toasts_view(final(self).items@) == pushed(toasts_view(old(self).items@), ToastView {
                id,
                text: text@,
                action: match action { Some((label, route)) => Some((label@, route@)), None => None },
            }),
    {
        let id = self.next_id;
        self.next_id = self.next_id.wrapping_add(1);
        let toast = Toast { id, text, action };
        let ghost before = toasts_view(self.items@);
        self.items.push(toast);
        assert(toasts_view(self.items@) =~= before.push(toast@));
        if self.items.len() > MAX {
            let ghost all = toasts_view(self.items@);
            self.items.remove(0);
            assert(toasts_view(self.items@) =~= all.drop_first());
        }
        id
    }

    /// Take down the toast numbered `id`, if it still shows.
    pub fn dismiss(&mut self, id: u64)
        ensures
            toasts_view(final(self).items@) == without_id(toasts_view(old(self).items@), id),
            final(self).next_id == old(self).next_id,
    {
        let mut rest: Vec<Toast> = Vec::new();
        std::mem::swap(&mut rest, &mut self.items);
        let ghost all = toasts_view(rest@);
        let mut kept: Vec<Toast> = Vec::new();
        let mut k: usize = 0;
        assert(all.take(0) =~= Seq::<ToastView>::empty());
        assert(toasts_view(rest@) =~= all.skip(0));
        let n = rest.len();
        assert(all.len() == n);
        while rest.len() > 0
            invariant
                k <= all.len() <= usize::MAX,
                toasts_view(rest@) == all.skip(k as int),
                self.next_id == old(self).next_id,
                toasts_view(kept@) == without_id(all.take(k as int), id),
            decreases rest@.len(),
        {
            let ghost remaining = rest@;
            assert(toasts_view(remaining).len() == remaining.len());
            assert(all.skip(k as int).len() == all.len() - k);
            let toast = rest.remove(0);
            proof {
                assert(toasts_view(remaining)[0] == toast@);
                assert(all.skip(k as int)[0] == all[k as int]);
                assert(all.take(k + 1).drop_last() =~= all.take(k as int));
                assert(all.take(k + 1).last() == all[k as int]);
                assert forall|j: int| 0 <= j < rest@.len() implies
                    #[trigger] toasts_view(rest@)[j] == all.skip(k + 1)[j] by {
                    assert(rest@[j] == remaining[j + 1]);
                    assert(toasts_view(remaining)[j + 1] == all.skip(k as int)[j + 1]);
                }
                assert(toasts_view(rest@) =~= all.skip(k + 1));
            }
            if toast.id != id {
                let ghost before = toasts_view(kept@);
                kept.push(toast);
                assert(toasts_view(kept@) =~= before.push(all[k as int]));
            }
            k = k + 1;
        }
        assert(all.take(k as int) =~= all);
        self.items = kept;
    }

    /// The toasts showing, oldest first.
    pub fn items(&self) -> (r: &[Toast])
        ensures
            r@ == self.items@,
    {
        self.items.as_slice()
    }

    pub fn is_empty(&self) -> (r: bool)
        ensures
            r == (self.items@.len() == 0),
    {
        self.items.len() == 0
    }
}

/// Only the newest few show: however many there were, at most [`MAX`]
/// remain once one more is shown, the newest last.
pub proof fn only_the_newest_few_show(items: Seq<ToastView>, toast: ToastView)
    requires
        items.len() <= MAX,
    ensures
        pushed(items, toast).len() <= MAX,
        pushed(items, toast).last() == toast,
        items.len() == MAX ==> pushed(items, toast) == items.drop_first().push(toast),
{
    if items.len() == MAX {
        assert(items.push(toast).drop_first() =~= items.drop_first().push(toast));
    }
}

/// Dismissing a toast that already went is harmless.
pub proof fn dismissing_a_gone_toast_is_harmless(items: Seq<ToastView>, id: u64)
    requires
        forall|i: int| 0 <= i < items.len() ==> (#[trigger] items[i]).id != id,
    ensures
        without_id(items, id) == items,
    decreases items.len(),
{
    if items.len() > 0 {
        dismissing_a_gone_toast_is_harmless(items.drop_last(), id);
        assert(items.drop_last().push(items.last()) =~= items);
    }
}

} // verus!
