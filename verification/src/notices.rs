//! The desktop notifications the shell shows on its own, while the window
//! isn't in front of the user: files received, and pairing requests, each
//! withdrawn once the request is resolved.

use vstd::prelude::*;
use crate::text::{owned, same, join2, join3};

verus! {

/// Which way a transfer goes.
#[derive(Debug, Clone, Copy, PartialEq, Eq, Structural)]
pub enum TransferDirection {
    Incoming,
    Outgoing,
}

/// A transfer as the store lists it, newest first.
#[derive(Debug, Clone)]
pub struct Transfer {
    pub id: u128,
    pub direction: TransferDirection,
    /// It finished, every byte in.
    pub completed: bool,
    pub file_name: String,
    pub device_name: String,
}

/// Whether transfer `id` had completed, by the first entry for it among
/// `statuses`; `None` if it wasn't listed.
pub open spec fn completed_in(statuses: Seq<(u128, bool)>, id: u128) -> Option<bool>
    decreases statuses.len(),
{
    if statuses.len() == 0 {
        None
    } else if statuses[0].0 == id {
        Some(statuses[0].1)
    } else {
        completed_in(statuses.drop_first(), id)
    }
}

/// Whether `t` is a file received since `before`: incoming, completed, and
/// listed before without having completed. One `before` didn't list is
/// left out, so files received before the app started aren't announced.
pub open spec fn newly_received(before: Seq<(u128, bool)>, t: Transfer) -> bool {
    t.direction == TransferDirection::Incoming && t.completed && completed_in(before, t.id) == Some(false)
}

/// The files received since `before` among `transfers` (newest first), as
/// (file, device), oldest first.
pub open spec fn received_in(before: Seq<(u128, bool)>, transfers: Seq<Transfer>) -> Seq<(Seq<char>, Seq<char>)>
    decreases transfers.len(),
{
    if transfers.len() == 0 {
        Seq::empty()
    } else {
        let rest = received_in(before, transfers.drop_first());
        let t = transfers[0];
        if newly_received(before, t) { rest.push((t.file_name@, t.device_name@)) } else { rest }
    }
}

/// Each transfer's id and whether it completed, to tell afterwards which
/// ones finished.
pub fn transfer_statuses(transfers: &Vec<Transfer>) -> (statuses: Vec<(u128, bool)>)
    ensures
        statuses@.len() == transfers@.len(),
        forall|i: int| 0 <= i < transfers@.len() ==> #[trigger] statuses@[i] == (transfers@[i].id, transfers@[i].completed),
{
    let mut statuses = Vec::new();
    let mut i: usize = 0;
    while i < transfers.len()
        invariant
            i <= transfers@.len(),
            statuses@.len() == i,
            forall|j: int| 0 <= j < i ==> #[trigger] statuses@[j] == (transfers@[j].id, transfers@[j].completed),
        decreases transfers@.len() - i,
    {
        statuses.push((transfers[i].id, transfers[i].completed));
        i = i + 1;
    }
    statuses
}

fn completed_before(before: &Vec<(u128, bool)>, id: u128) -> (r: Option<bool>)
    ensures
        r == completed_in(before@, id),
{
    let mut i: usize = 0;
    assert(before@.skip(0) =~= before@);
    while i < before.len()
        invariant
            i <= before@.len(),
            completed_in(before@, id) == completed_in(before@.skip(i as int), id),
        decreases before@.len() - i,
    {
        assert(before@.skip(i as int).drop_first() =~= before@.skip(i + 1));
        if before[i].0 == id {
            return Some(before[i].1);
        }
        i = i + 1;
    }
    None
}

/// The files received since `before` (from [`transfer_statuses`]) among
/// `transfers`, newest first as the store lists them: each as (file,
/// device), oldest first, as they finished.
pub fn received_files(before: &Vec<(u128, bool)>, transfers: &Vec<Transfer>) -> (received: Vec<(String, String)>)
    ensures
        received@.map_values(|r: (String, String)| (r.0@, r.1@)) == received_in(before@, transfers@),
{
    let mut received: Vec<(String, String)> = Vec::new();
    let n = transfers.len();
    let mut i: usize = n;
    assert(transfers@.skip(n as int) =~= Seq::<Transfer>::empty());
    while i > 0
        invariant
            i <= n == transfers@.len(),
            received@.map_values(|r: (String, String)| (r.0@, r.1@)) == received_in(before@, transfers@.skip(i as int)),
        decreases i,
    {
        let t = &transfers[i - 1];
        assert(transfers@.skip(i - 1).drop_first() =~= transfers@.skip(i as int));
        assert(transfers@.skip(i - 1)[0] == transfers@[i - 1]);
        let counts = match t.direction {
            TransferDirection::Incoming => t.completed && completed_before(before, t.id) == Some(false),
            TransferDirection::Outgoing => false,
        };
        if counts {
            let ghost was = received@.map_values(|r: (String, String)| (r.0@, r.1@));
            received.push((owned(t.file_name.as_str()), owned(t.device_name.as_str())));
            assert(received@.map_values(|r: (String, String)| (r.0@, r.1@)) =~= was.push((t.file_name@, t.device_name@)));
        }
        i = i - 1;
    }
    assert(transfers@.skip(0) =~= transfers@);
    received
}

/// The notifications for files received: none while the window is in
/// front of the user; else "File received", "{file} from {device}" for
/// each, in order.
pub fn received_notices(received: &Vec<(String, String)>, focused: bool) -> (notices: Vec<(String, String)>)
    ensures
        focused ==> notices@.len() == 0,
        !focused ==> notices@.len() == received@.len() && forall|i: int| 0 <= i < received@.len() ==>
            (#[trigger] notices@[i]).0@ == "File received"@
            && notices@[i].1@ == received@[i].0@ + " from "@ + received@[i].1@,
{
    let mut notices = Vec::new();
    if focused {
        return notices;
    }
    let mut i: usize = 0;
    while i < received.len()
        invariant
            i <= received@.len(),
            notices@.len() == i,
            forall|j: int| 0 <= j < i ==> (#[trigger] notices@[j]).0@ == "File received"@
                && notices@[j].1@ == received@[j].0@ + " from "@ + received@[j].1@,
        decreases received@.len() - i,
    {
        let (file, device) = &received[i];
        notices.push((owned("File received"), join3(file.as_str(), " from ", device.as_str())));
        i = i + 1;
    }
    notices
}

/// A file received before the app started (not listed `before`) is not
/// announced, nor one that had already completed, nor one sent.
pub proof fn only_new_incoming_files_are_announced(before: Seq<(u128, bool)>, t: Transfer)
    requires
        completed_in(before, t.id) != Some(false) || t.direction == TransferDirection::Outgoing || !t.completed,
    ensures
        received_in(before, seq![t]).len() == 0,
{
    assert(seq![t].drop_first() =~= Seq::<Transfer>::empty());
    assert(seq![t][0] == t);
    assert(received_in(before, Seq::<Transfer>::empty()).len() == 0);
}

/// The number after `n`, wrapping round.
pub open spec fn next_number(n: u32) -> u32 {
    if n == u32::MAX { 0 } else { (n + 1) as u32 }
}

/// Whether request `id` is among `pending`.
pub open spec fn pending_has(pending: Seq<(u128, String)>, id: u128) -> bool {
    exists|i: int| 0 <= i < pending.len() && (#[trigger] pending[i]).0 == id
}

/// Whether a notice for request `id` is among `pairings`.
pub open spec fn has_notice(pairings: Seq<(u128, Option<u32>)>, id: u128) -> bool {
    exists|i: int| 0 <= i < pairings.len() && (#[trigger] pairings[i]).0 == id
}

/// The notices of requests still pending, in order.
pub open spec fn still_pending(pairings: Seq<(u128, Option<u32>)>, pending: Seq<(u128, String)>) -> Seq<(u128, Option<u32>)>
    decreases pairings.len(),
{
    if pairings.len() == 0 {
        Seq::empty()
    } else {
        let rest = still_pending(pairings.drop_last(), pending);
        if pending_has(pending, pairings.last().0) { rest.push(pairings.last()) } else { rest }
    }
}

/// The notifications of requests resolved, to withdraw, in order.
pub open spec fn resolved(pairings: Seq<(u128, Option<u32>)>, pending: Seq<(u128, String)>) -> Seq<u32>
    decreases pairings.len(),
{
    if pairings.len() == 0 {
        Seq::empty()
    } else {
        let rest = resolved(pairings.drop_last(), pending);
        let last = pairings.last();
        if !pending_has(pending, last.0) && last.1 is Some { rest.push(last.1->Some_0) } else { rest }
    }
}

/// The title of a pairing request's notification.
pub const PAIRING_TITLE: &'static str = "Pairing request";

/// What a pairing request's notification says.
pub open spec fn pairing_body(name: Seq<char>) -> Seq<char> {
    name + " wants to pair with this computer."@
}

/// The notices after following `pending` from `notices` with `next` the
/// last number used: each new request gets a notification, numbered in
/// turn, unless the window is `focused`; and the notifications shown, as
/// (number, body).
pub open spec fn followed(notices: Seq<(u128, Option<u32>)>, next: u32, pending: Seq<(u128, String)>, focused: bool)
    -> (Seq<(u128, Option<u32>)>, u32, Seq<(u32, Seq<char>)>)
    decreases pending.len(),
{
    if pending.len() == 0 {
        (notices, next, Seq::empty())
    } else {
        let (known, n, shown) = followed(notices, next, pending.drop_last(), focused);
        let p = pending.last();
        if has_notice(known, p.0) {
            (known, n, shown)
        } else if focused {
            (known.push((p.0, None)), n, shown)
        } else {
            let m = next_number(n);
            (known.push((p.0, Some(m))), m, shown.push((m, pairing_body(p.1@))))
        }
    }
}

/// The shell's own notifications: one per pending pairing request (or
/// none, when it arrived over a focused window), and the last number used.
#[derive(Debug)]
pub struct Notices {
    pub pairings: Vec<(u128, Option<u32>)>,
    pub next_id: u32,
}

fn pending_contains(pending: &Vec<(u128, String)>, id: u128) -> (r: bool)
    ensures
        r == pending_has(pending@, id),
{
    let mut i: usize = 0;
    while i < pending.len()
        invariant
            i <= pending@.len(),
            forall|j: int| 0 <= j < i ==> (#[trigger] pending@[j]).0 != id,
        decreases pending@.len() - i,
    {
        if pending[i].0 == id {
            return true;
        }
        i = i + 1;
    }
    false
}

fn notice_for(pairings: &Vec<(u128, Option<u32>)>, id: u128) -> (r: bool)
    ensures
        r == has_notice(pairings@, id),
{
    let mut i: usize = 0;
    while i < pairings.len()
        invariant
            i <= pairings@.len(),
            forall|j: int| 0 <= j < i ==> (#[trigger] pairings@[j]).0 != id,
        decreases pairings@.len() - i,
    {
        if pairings[i].0 == id {
            return true;
        }
        i = i + 1;
    }
    false
}

impl Notices {
    pub fn new() -> (n: Self)
        ensures
            n.pairings@.len() == 0,
            one_notice_each(n.pairings@),
            n.next_id == 0,
    {
        Notices { pairings: Vec::new(), next_id: 0 }
    }

    /// Number a notification shown: the next number.
    pub fn number(&mut self) -> (id: u32)
        ensures
            id == next_number(old(self).next_id),
            final(self).next_id == id,
            final(self).pairings@ == old(self).pairings@,
    {
        self.next_id = self.next_id.wrapping_add(1);
        self.next_id
    }

    /// Follow the pending incoming pairing requests (id and device name):
    /// notify about new ones unless the window is `focused` (its prompt is
    /// in front of the user), and withdraw the notification of each one
    /// resolved. Returns the numbers to withdraw, and the notifications to
    /// show, each titled "Pairing request", as (number, title, body).
    pub fn follow(&mut self, pending: &Vec<(u128, String)>, focused: bool) -> (r: (Vec<u32>, Vec<(u32, String, String)>))
        ensures
            r.0@ == resolved(old(self).pairings@, pending@),
            ({
                let (known, n, shown) = followed(still_pending(old(self).pairings@, pending@), old(self).next_id, pending@, focused);
                &&& final(self).pairings@ == known
                &&& final(self).next_id == n
                &&& r.1@.map_values(|s: (u32, String, String)| (s.0, s.2@)) == shown
            }),
            forall|k: int| 0 <= k < r.1@.len() ==> (#[trigger] r.1@[k]).1@ == PAIRING_TITLE@,
            one_notice_each(old(self).pairings@) ==> one_notice_each(final(self).pairings@),
    {
        let mut kept: Vec<(u128, Option<u32>)> = Vec::new();
        let mut withdraw: Vec<u32> = Vec::new();
        let mut i: usize = 0;
        while i < self.pairings.len()
            invariant
                i <= self.pairings@.len(),
                self.pairings@ == old(self).pairings@,
                self.next_id == old(self).next_id,
                kept@ == still_pending(self.pairings@.take(i as int), pending@),
                withdraw@ == resolved(self.pairings@.take(i as int), pending@),
            decreases self.pairings@.len() - i,
        {
            let (id, notice) = self.pairings[i];
            assert(self.pairings@.take(i + 1).drop_last() =~= self.pairings@.take(i as int));
            assert(self.pairings@.take(i + 1).last() == (id, notice));
            if pending_contains(pending, id) {
                kept.push((id, notice));
            } else {
                match notice {
                    Some(n) => withdraw.push(n),
                    None => {}
                }
            }
            i = i + 1;
        }
        assert(self.pairings@.take(self.pairings@.len() as int) =~= self.pairings@);
        let ghost start = kept@;
        self.pairings = kept;
        let mut shown: Vec<(u32, String, String)> = Vec::new();
        let mut k: usize = 0;
        assert(pending@.take(0) =~= Seq::<(u128, String)>::empty());
        while k < pending.len()
            invariant
                k <= pending@.len(),
                ({
                    let (known, n, s) = followed(start, old(self).next_id, pending@.take(k as int), focused);
                    &&& self.pairings@ == known
                    &&& self.next_id == n
                    &&& shown@.map_values(|s: (u32, String, String)| (s.0, s.2@)) == s
                }),
                forall|j: int| 0 <= j < shown@.len() ==> (#[trigger] shown@[j]).1@ == PAIRING_TITLE@,
            decreases pending@.len() - k,
        {
            let (id, name) = &pending[k];
            assert(pending@.take(k + 1).drop_last() =~= pending@.take(k as int));
            assert(pending@.take(k + 1).last() == pending@[k as int]);
            if !notice_for(&self.pairings, *id) {
                if focused {
                    self.pairings.push((*id, None));
                } else {
                    let n = self.number();
                    self.pairings.push((*id, Some(n)));
                    let ghost was = shown@.map_values(|s: (u32, String, String)| (s.0, s.2@));
                    shown.push((n, owned(PAIRING_TITLE), join2(name.as_str(), " wants to pair with this computer.")));
                    assert(shown@.map_values(|s: (u32, String, String)| (s.0, s.2@)) =~= was.push((n, pairing_body(name@))));
                }
            }
            k = k + 1;
        }
        assert(pending@.take(pending@.len() as int) =~= pending@);
        proof {
            if one_notice_each(old(self).pairings@) {
                one_notice_per_request(old(self).pairings@, old(self).next_id, pending@, focused);
            }
        }
        (withdraw, shown)
    }
}

/// A request that arrived over a focused window gets no notification, and
/// losing focus later doesn't bring one up for it.
pub proof fn a_request_seen_in_the_window_is_not_notified_later(notices: Seq<(u128, Option<u32>)>, next: u32,
    pending: Seq<(u128, String)>)
    requires
        forall|i: int| 0 <= i < pending.len() ==> has_notice(notices, (#[trigger] pending[i]).0),
    ensures
        followed(notices, next, pending, false) == (notices, next, Seq::<(u32, Seq<char>)>::empty()),
    decreases pending.len(),
{
    if pending.len() > 0 {
        a_request_seen_in_the_window_is_not_notified_later(notices, next, pending.drop_last());
        assert(has_notice(notices, pending.last().0));
    }
}

proof fn lemma_kept_are_pending(pairings: Seq<(u128, Option<u32>)>, pending: Seq<(u128, String)>, id: u128)
    ensures
        has_notice(still_pending(pairings, pending), id) <==> has_notice(pairings, id) && pending_has(pending, id),
    decreases pairings.len(),
{
    if pairings.len() > 0 {
        let init = pairings.drop_last();
        let rest = still_pending(init, pending);
        lemma_kept_are_pending(init, pending, id);
        if has_notice(pairings, id) && pending_has(pending, id) {
            let i = choose|i: int| 0 <= i < pairings.len() && (#[trigger] pairings[i]).0 == id;
            if i < init.len() {
                assert(init[i] == pairings[i]);
                let j = choose|j: int| 0 <= j < rest.len() && (#[trigger] rest[j]).0 == id;
                if pending_has(pending, pairings.last().0) {
                    assert(rest.push(pairings.last())[j] == rest[j]);
                }
            } else {
                assert(rest.push(pairings.last())[rest.len() as int] == pairings.last());
            }
        }
        if has_notice(still_pending(pairings, pending), id) {
            let j = choose|j: int| 0 <= j < still_pending(pairings, pending).len()
                && (#[trigger] still_pending(pairings, pending)[j]).0 == id;
            if pending_has(pending, pairings.last().0) && j == rest.len() {
                assert(pairings[pairings.len() - 1].0 == id);
            } else {
                if pending_has(pending, pairings.last().0) {
                    assert(rest.push(pairings.last())[j] == rest[j]);
                }
                assert(has_notice(rest, id));
                let i = choose|i: int| 0 <= i < init.len() && (#[trigger] init[i]).0 == id;
                assert(pairings[i] == init[i]);
            }
        }
    }
}

proof fn lemma_followed_tracks(known: Seq<(u128, Option<u32>)>, next: u32, pending: Seq<(u128, String)>, focused: bool, id: u128)
    ensures
        has_notice(followed(known, next, pending, focused).0, id) <==> has_notice(known, id) || pending_has(pending, id),
    decreases pending.len(),
{
    if pending.len() > 0 {
        let init = pending.drop_last();
        lemma_followed_tracks(known, next, init, focused, id);
        let (k, n, shown) = followed(known, next, init, focused);
        let p = pending.last();
        assert(pending_has(pending, id) <==> pending_has(init, id) || p.0 == id) by {
            if pending_has(pending, id) {
                let i = choose|i: int| 0 <= i < pending.len() && (#[trigger] pending[i]).0 == id;
                if i < init.len() { assert(init[i] == pending[i]); }
            }
            if pending_has(init, id) {
                let i = choose|i: int| 0 <= i < init.len() && (#[trigger] init[i]).0 == id;
                assert(pending[i] == init[i]);
            }
            if p.0 == id { assert(pending[pending.len() - 1].0 == id); }
        }
        if !has_notice(k, p.0) {
            let entry = if focused { (p.0, None::<u32>) } else { (p.0, Some(next_number(n))) };
            let pushed = k.push(entry);
            assert(pushed[k.len() as int].0 == p.0);
            if has_notice(pushed, id) {
                let i = choose|i: int| 0 <= i < pushed.len() && (#[trigger] pushed[i]).0 == id;
                if i < k.len() { assert(k[i] == pushed[i]); }
            }
            if has_notice(k, id) {
                let i = choose|i: int| 0 <= i < k.len() && (#[trigger] k[i]).0 == id;
                assert(pushed[i] == k[i]);
            }
            assert(followed(known, next, pending, focused).0 == pushed);
        }
    }
}

/// No request has two notices.
pub open spec fn one_notice_each(pairings: Seq<(u128, Option<u32>)>) -> bool {
    forall|i: int, j: int| 0 <= i < j < pairings.len() ==> (#[trigger] pairings[i]).0 != (#[trigger] pairings[j]).0
}

proof fn lemma_kept_notices(pairings: Seq<(u128, Option<u32>)>, pending: Seq<(u128, String)>)
    ensures
        forall|i: int| 0 <= i < still_pending(pairings, pending).len() ==>
            exists|j: int| 0 <= j < pairings.len() && #[trigger] still_pending(pairings, pending)[i] == pairings[j],
        one_notice_each(pairings) ==> one_notice_each(still_pending(pairings, pending)),
    decreases pairings.len(),
{
    if pairings.len() > 0 {
        let init = pairings.drop_last();
        let rest = still_pending(init, pending);
        lemma_kept_notices(init, pending);
        let sp = still_pending(pairings, pending);
        assert forall|i: int| 0 <= i < sp.len() implies
            exists|j: int| 0 <= j < pairings.len() && #[trigger] sp[i] == pairings[j] by {
            if i < rest.len() {
                let j = choose|j: int| 0 <= j < init.len() && #[trigger] rest[i] == init[j];
                if pending_has(pending, pairings.last().0) { assert(rest.push(pairings.last())[i] == rest[i]); }
                assert(pairings[j] == init[j]);
            } else {
                assert(sp[i] == pairings[pairings.len() - 1]);
            }
        }
        if one_notice_each(pairings) {
            assert(one_notice_each(init)) by {
                assert forall|i: int, j: int| 0 <= i < j < init.len() implies (#[trigger] init[i]).0 != (#[trigger] init[j]).0 by {
                    assert(init[i] == pairings[i] && init[j] == pairings[j]);
                }
            }
            if pending_has(pending, pairings.last().0) {
                assert forall|i: int, j: int| 0 <= i < j < sp.len() implies (#[trigger] sp[i]).0 != (#[trigger] sp[j]).0 by {
                    if j == rest.len() {
                        let m = choose|m: int| 0 <= m < init.len() && #[trigger] rest[i] == init[m];
                        assert(sp[i] == rest[i]);
                        assert(pairings[m] == init[m]);
                        assert(sp[j] == pairings[pairings.len() - 1]);
                    } else {
                        assert(sp[i] == rest[i] && sp[j] == rest[j]);
                    }
                }
            }
        }
    }
}

proof fn lemma_followed_one_each(known: Seq<(u128, Option<u32>)>, next: u32, pending: Seq<(u128, String)>, focused: bool)
    requires
        one_notice_each(known),
    ensures
        one_notice_each(followed(known, next, pending, focused).0),
    decreases pending.len(),
{
    if pending.len() > 0 {
        lemma_followed_one_each(known, next, pending.drop_last(), focused);
        let (k, n, shown) = followed(known, next, pending.drop_last(), focused);
        let p = pending.last();
        if !has_notice(k, p.0) {
            let entry = if focused { (p.0, None::<u32>) } else { (p.0, Some(next_number(n))) };
            let pushed = k.push(entry);
            assert(followed(known, next, pending, focused).0 == pushed);
            assert forall|i: int, j: int| 0 <= i < j < pushed.len() implies (#[trigger] pushed[i]).0 != (#[trigger] pushed[j]).0 by {
                if j == k.len() {
                    assert(pushed[i] == k[i]);
                } else {
                    assert(pushed[i] == k[i] && pushed[j] == k[j]);
                }
            }
        }
    }
}

/// Following keeps one notice per request: the requests tracked never
/// repeat.
pub proof fn one_notice_per_request(notices: Seq<(u128, Option<u32>)>, next: u32, pending: Seq<(u128, String)>, focused: bool)
    requires
        one_notice_each(notices),
    ensures
        one_notice_each(followed(still_pending(notices, pending), next, pending, focused).0),
{
    lemma_kept_notices(notices, pending);
    lemma_followed_one_each(still_pending(notices, pending), next, pending, focused);
}

/// After following the pending requests, the requests tracked are exactly
/// the pending ones: each new one is tracked, each resolved one let go.
pub proof fn the_tracked_requests_are_the_pending_ones(notices: Seq<(u128, Option<u32>)>, next: u32,
    pending: Seq<(u128, String)>, focused: bool, id: u128)
    ensures
        has_notice(followed(still_pending(notices, pending), next, pending, focused).0, id) <==> pending_has(pending, id),
{
    lemma_followed_tracks(still_pending(notices, pending), next, pending, focused, id);
    lemma_kept_are_pending(notices, pending, id);
}

/// A request resolved elsewhere takes its notification with it: its
/// notification is among those withdrawn, and its notice is gone.
pub proof fn a_resolved_request_withdraws_its_notification(pairings: Seq<(u128, Option<u32>)>,
    pending: Seq<(u128, String)>, i: int)
    requires
        0 <= i < pairings.len(),
        pairings[i].1 is Some,
        !pending_has(pending, pairings[i].0),
    ensures
        resolved(pairings, pending).contains(pairings[i].1->Some_0),
        !still_pending(pairings, pending).contains(pairings[i]),
    decreases pairings.len(),
{
    let last = pairings.len() - 1;
    if i < last {
        a_resolved_request_withdraws_its_notification(pairings.drop_last(), pending, i);
        assert(pairings.drop_last()[i] == pairings[i]);
        let rest = resolved(pairings.drop_last(), pending);
        let k = choose|k: int| 0 <= k < rest.len() && rest[k] == pairings[i].1->Some_0;
        if !pending_has(pending, pairings.last().0) && pairings.last().1 is Some {
            assert(rest.push(pairings.last().1->Some_0)[k] == rest[k]);
        }
        if still_pending(pairings, pending).contains(pairings[i]) {
            let kept = still_pending(pairings.drop_last(), pending);
            let j = choose|j: int| 0 <= j < still_pending(pairings, pending).len() && still_pending(pairings, pending)[j] == pairings[i];
            if pending_has(pending, pairings.last().0) {
                if j < kept.len() {
                    assert(kept.push(pairings.last())[j] == kept[j]);
                } else {
                    assert(pairings.last().0 == pairings[i].0);
                }
            }
            assert(false);
        }
    } else {
        let rest = resolved(pairings.drop_last(), pending);
        assert(rest.push(pairings.last().1->Some_0)[rest.len() as int] == pairings[i].1->Some_0);
        let kept = still_pending(pairings.drop_last(), pending);
        lemma_still_pending_from(pairings.drop_last(), pending);
        if kept.contains(pairings[i]) {
            let j = choose|j: int| 0 <= j < kept.len() && kept[j] == pairings[i];
            assert(pending_has(pending, kept[j].0));
        }
    }
}

/// Every notice kept is of a request still pending.
proof fn lemma_still_pending_from(pairings: Seq<(u128, Option<u32>)>, pending: Seq<(u128, String)>)
    ensures
        forall|j: int| 0 <= j < still_pending(pairings, pending).len() ==>
            pending_has(pending, (#[trigger] still_pending(pairings, pending)[j]).0),
    decreases pairings.len(),
{
    if pairings.len() > 0 {
        lemma_still_pending_from(pairings.drop_last(), pending);
        let rest = still_pending(pairings.drop_last(), pending);
        if pending_has(pending, pairings.last().0) {
            assert forall|j: int| 0 <= j < rest.push(pairings.last()).len() implies
                pending_has(pending, (#[trigger] rest.push(pairings.last())[j]).0) by {
                if j < rest.len() {
                    assert(rest.push(pairings.last())[j] == rest[j]);
                }
            }
        }
    }
}

/// The shell's number of the notification the server numbered `server`,
/// by the first entry for it.
pub open spec fn shown_as(entries: Seq<(u32, u32)>, server: u32) -> Option<u32>
    decreases entries.len(),
{
    if entries.len() == 0 {
        None
    } else if entries[0].0 == server {
        Some(entries[0].1)
    } else {
        shown_as(entries.drop_first(), server)
    }
}

/// `entries` without those for the server's notification `server`.
pub open spec fn without_server(entries: Seq<(u32, u32)>, server: u32) -> Seq<(u32, u32)>
    decreases entries.len(),
{
    if entries.len() == 0 {
        entries
    } else {
        let rest = without_server(entries.drop_first(), server);
        if entries[0].0 == server { rest } else { seq![entries[0]] + rest }
    }
}

proof fn lemma_without_server(entries: Seq<(u32, u32)>, server: u32, k: u32)
    ensures
        shown_as(without_server(entries, server), k) == if k == server { None } else { shown_as(entries, k) },
    decreases entries.len(),
{
    if entries.len() > 0 {
        lemma_without_server(entries.drop_first(), server, k);
        let rest = without_server(entries.drop_first(), server);
        if entries[0].0 != server {
            assert((seq![entries[0]] + rest).drop_first() =~= rest);
        }
    }
}

/// No notification of the server's is held twice.
pub open spec fn one_entry_each(entries: Seq<(u32, u32)>) -> bool {
    forall|i: int, j: int| 0 <= i < j < entries.len() ==> (#[trigger] entries[i]).0 != (#[trigger] entries[j]).0
}

proof fn lemma_without_server_entries(entries: Seq<(u32, u32)>, server: u32)
    ensures
        forall|i: int| 0 <= i < without_server(entries, server).len() ==>
            (#[trigger] without_server(entries, server)[i]).0 != server
            && exists|j: int| 0 <= j < entries.len() && without_server(entries, server)[i] == entries[j],
        one_entry_each(entries) ==> one_entry_each(without_server(entries, server)),
    decreases entries.len(),
{
    if entries.len() > 0 {
        let tail = entries.drop_first();
        let rest = without_server(tail, server);
        lemma_without_server_entries(tail, server);
        let w = without_server(entries, server);
        assert forall|i: int| 0 <= i < w.len() implies
            (#[trigger] w[i]).0 != server && exists|j: int| 0 <= j < entries.len() && w[i] == entries[j] by {
            if entries[0].0 == server {
                let j = choose|j: int| 0 <= j < tail.len() && rest[i] == tail[j];
                assert(entries[j + 1] == tail[j]);
            } else if i == 0 {
                assert(w[0] == entries[0]);
            } else {
                assert(w[i] == rest[i - 1]);
                let j = choose|j: int| 0 <= j < tail.len() && rest[i - 1] == tail[j];
                assert(entries[j + 1] == tail[j]);
            }
        }
        if one_entry_each(entries) {
            assert(one_entry_each(tail)) by {
                assert forall|i: int, j: int| 0 <= i < j < tail.len() implies (#[trigger] tail[i]).0 != (#[trigger] tail[j]).0 by {
                    assert(tail[i] == entries[i + 1] && tail[j] == entries[j + 1]);
                }
            }
            if entries[0].0 != server {
                assert forall|i: int, j: int| 0 <= i < j < w.len() implies (#[trigger] w[i]).0 != (#[trigger] w[j]).0 by {
                    assert(w[j] == rest[j - 1]);
                    if i == 0 {
                        let m = choose|m: int| 0 <= m < tail.len() && rest[j - 1] == tail[m];
                        assert(tail[m] == entries[m + 1]);
                        assert(w[0] == entries[0]);
                    } else {
                        assert(w[i] == rest[i - 1]);
                    }
                }
            }
        }
    }
}

proof fn lemma_shown_as_pushed(entries: Seq<(u32, u32)>, entry: (u32, u32), k: u32)
    requires
        shown_as(entries, entry.0) is None,
    ensures
        shown_as(entries.push(entry), k) == if k == entry.0 { Some(entry.1) } else { shown_as(entries, k) },
    decreases entries.len(),
{
    if entries.len() > 0 {
        if entries[0].0 != entry.0 {
            lemma_shown_as_pushed(entries.drop_first(), entry, k);
        }
        assert(entries.push(entry).drop_first() =~= entries.drop_first().push(entry));
        assert(entries.push(entry)[0] == entries[0]);
    } else {
        assert(entries.push(entry).drop_first() =~= Seq::<(u32, u32)>::empty());
        assert(entries.push(entry)[0] == entry);
        assert(shown_as(Seq::<(u32, u32)>::empty(), k) is None);
    }
}

/// The notifications the server shows for the shell, by the server's
/// number: which one a click is about, and which to close when the shell
/// withdraws one.
#[derive(Debug)]
pub struct Showing {
    /// (the server's number, the shell's number).
    pub entries: Vec<(u32, u32)>,
}

fn drop_server(entries: &Vec<(u32, u32)>, server: u32) -> (r: Vec<(u32, u32)>)
    ensures
        r@ == without_server(entries@, server),
{
    let mut r: Vec<(u32, u32)> = Vec::new();
    let n = entries.len();
    let mut i: usize = n;
    assert(entries@.skip(n as int) =~= Seq::<(u32, u32)>::empty());
    while i > 0
        invariant
            i <= n == entries@.len(),
            r@ == without_server(entries@.skip(i as int), server),
        decreases i,
    {
        let entry = entries[i - 1];
        assert(entries@.skip(i - 1).drop_first() =~= entries@.skip(i as int));
        assert(entries@.skip(i - 1)[0] == entry);
        if entry.0 != server {
            let ghost rest = r@;
            r.insert(0, entry);
            assert(r@ =~= seq![entry] + rest);
        }
        i = i - 1;
    }
    assert(entries@.skip(0) =~= entries@);
    r
}

impl Showing {
    pub fn new() -> (s: Self)
        ensures
            s.entries@.len() == 0,
            one_entry_each(s.entries@),
    {
        Showing { entries: Vec::new() }
    }

    /// The server shows the shell's notification `id` as `server`.
    pub fn shown(&mut self, server: u32, id: u32)
        ensures
            forall|k: u32| #[trigger] shown_as(final(self).entries@, k) == if k == server { Some(id) } else { shown_as(old(self).entries@, k) },
            one_entry_each(old(self).entries@) ==> one_entry_each(final(self).entries@),
    {
        let kept = drop_server(&self.entries, server);
        proof {
            lemma_without_server(self.entries@, server, server);
        }
        let ghost before = kept@;
        self.entries = kept;
        self.entries.push((server, id));
        proof {
            assert forall|k: u32| #[trigger] shown_as(self.entries@, k) == if k == server { Some(id) } else { shown_as(old(self).entries@, k) } by {
                lemma_shown_as_pushed(before, (server, id), k);
                lemma_without_server(old(self).entries@, server, k);
            }
            lemma_without_server_entries(old(self).entries@, server);
            if one_entry_each(old(self).entries@) {
                assert forall|i: int, j: int| 0 <= i < j < self.entries@.len() implies
                    (#[trigger] self.entries@[i]).0 != (#[trigger] self.entries@[j]).0 by {
                    assert(self.entries@[i] == before[i]);
                    if j == before.len() {
                        assert(before[i].0 != server);
                    } else {
                        assert(self.entries@[j] == before[j]);
                    }
                }
            }
        }
    }

    /// The shell withdraws its notification `id`: the server's number to
    /// close, if the server shows it, which then no longer counts.
    pub fn withdraw(&mut self, id: u32) -> (server: Option<u32>)
        ensures
            match server {
                Some(s) => (exists|i: int| 0 <= i < old(self).entries@.len() && old(self).entries@[i] == (s, id))
                    && final(self).entries@ == without_server(old(self).entries@, s),
                None => (forall|i: int| 0 <= i < old(self).entries@.len() ==> (#[trigger] old(self).entries@[i]).1 != id)
                    && final(self).entries@ == old(self).entries@,
            },
            one_entry_each(old(self).entries@) ==> one_entry_each(final(self).entries@),
    {
        let mut i: usize = 0;
        while i < self.entries.len()
            invariant
                i <= self.entries@.len(),
                self.entries@ == old(self).entries@,
                forall|j: int| 0 <= j < i ==> (#[trigger] self.entries@[j]).1 != id,
            decreases self.entries@.len() - i,
        {
            if self.entries[i].1 == id {
                let server = self.entries[i].0;
                assert(old(self).entries@[i as int] == (server, id));
                self.entries = drop_server(&self.entries, server);
                proof { lemma_without_server_entries(old(self).entries@, server); }
                return Some(server);
            }
            i = i + 1;
        }
        None
    }

    /// The server closed its notification `server`.
    pub fn closed(&mut self, server: u32)
        ensures
            final(self).entries@ == without_server(old(self).entries@, server),
            forall|k: u32| #[trigger] shown_as(final(self).entries@, k) == if k == server { None } else { shown_as(old(self).entries@, k) },
            one_entry_each(old(self).entries@) ==> one_entry_each(final(self).entries@),
    {
        self.entries = drop_server(&self.entries, server);
        proof {
            lemma_without_server_entries(old(self).entries@, server);
            assert forall|k: u32| #[trigger] shown_as(self.entries@, k) == if k == server { None } else { shown_as(old(self).entries@, k) } by {
                lemma_without_server(old(self).entries@, server, k);
            }
        }
    }

    /// Whether the server's report that `action` was invoked on its
    /// notification `server` is a click on one of the shell's: a click on
    /// its body (`default`) shows the window.
    pub fn clicked(&self, server: u32, action: &str) -> (r: bool)
        ensures
            r == (shown_as(self.entries@, server) is Some && action@ == "default"@),
    {
        let mut i: usize = 0;
        assert(self.entries@.skip(0) =~= self.entries@);
        while i < self.entries.len()
            invariant
                i <= self.entries@.len(),
                shown_as(self.entries@, server) == shown_as(self.entries@.skip(i as int), server),
            decreases self.entries@.len() - i,
        {
            assert(self.entries@.skip(i as int).drop_first() =~= self.entries@.skip(i + 1));
            if self.entries[i].0 == server {
                return same(action, "default");
            }
            i = i + 1;
        }
        false
    }
}

/// A notification withdrawn no longer counts: a click reported on it
/// afterwards is ignored.
pub proof fn a_withdrawn_notification_is_not_clicked(entries: Seq<(u32, u32)>, server: u32)
    ensures
        shown_as(without_server(entries, server), server) is None,
{
    lemma_without_server(entries, server, server);
}

} // verus!
