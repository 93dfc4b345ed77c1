//! Notifications' UI: the *Notifications* action with how many a device
//! shows, and failed actions on a notification in words.

use vstd::prelude::*;
use crate::device::{DeviceSnapshot, names, connected, has_capability, is_connected};
use crate::error::{CoreError, error_code, code_message, describe_code};
use crate::features::{Feature, FeatureView, DeviceAction, DeviceActionView, Icon, actions_view};
use crate::text::{owned, same, decimal, decimal_string, join2, join3};
use crate::browse::{blank, is_blank};
use crate::route::{Route, RouteView};
use crate::words::{Words, WordsView, ArgView, Arg, plain, with_arg, with_args, message, with_text, with_number, with_two};
use crate::error::{code_words, code_words_of};

verus! {

/// The packet type a device sends its notifications as.
pub const PACKET_TYPE: &'static str = "kdeconnect.notification";

#[derive(Debug, Clone)]
pub enum Message {
    /// Show the device's notifications.
    Open { device_id: String },
    /// Back to the device's page.
    Close { device_id: String },
    /// Ask for a reply to a notification; `title` names it in the prompt.
    Reply { device_id: String, id: String, title: String },
    /// Send the reply the prompt got.
    SendReply { device_id: String, id: String, message: String },
    /// Press one of a notification's buttons.
    Action { device_id: String, id: String, action: String },
    Dismiss { device_id: String, id: String },
}

pub enum MessageView {
    Open { device_id: Seq<char> },
    Close { device_id: Seq<char> },
    Reply { device_id: Seq<char>, id: Seq<char>, title: Seq<char> },
    SendReply { device_id: Seq<char>, id: Seq<char>, message: Seq<char> },
    Action { device_id: Seq<char>, id: Seq<char>, action: Seq<char> },
    Dismiss { device_id: Seq<char>, id: Seq<char> },
}

impl View for Message {
    type V = MessageView;

    open spec fn view(&self) -> MessageView {
        match *self {
            Message::Open { device_id } => MessageView::Open { device_id: device_id@ },
            Message::Close { device_id } => MessageView::Close { device_id: device_id@ },
            Message::Reply { device_id, id, title } => MessageView::Reply { device_id: device_id@, id: id@, title: title@ },
            Message::SendReply { device_id, id, message } => MessageView::SendReply { device_id: device_id@, id: id@, message: message@ },
            Message::Action { device_id, id, action } => MessageView::Action { device_id: device_id@, id: id@, action: action@ },
            Message::Dismiss { device_id, id } => MessageView::Dismiss { device_id: device_id@, id: id@ },
        }
    }
}

/// Why an action on a notification failed.
#[derive(Debug, Clone, Copy, PartialEq, Eq, Structural)]
pub enum NotificationError {
    NotFound,
    NotRepliable,
    NotDismissable,
    UnknownAction,
    EmptyReply,
    Core(CoreError),
}

/// The sentence about a failed action on a notification.
pub open spec fn notification_message(error: NotificationError) -> Seq<char> {
    match error {
        NotificationError::NotFound => "It’s no longer on the device."@,
        NotificationError::NotRepliable => "It can’t be replied to."@,
        NotificationError::NotDismissable => "It can’t be dismissed."@,
        NotificationError::UnknownAction => "It no longer has that action."@,
        NotificationError::EmptyReply => "Enter a reply."@,
        NotificationError::Core(error) => code_message(error_code(error)),
    }
}

/// A sentence about a failed action on a notification.
pub fn describe(error: &NotificationError) -> (sentence: String)
    ensures
        sentence@ == notification_message(*error),
{
    match error {
        NotificationError::NotFound => owned("It’s no longer on the device."),
        NotificationError::NotRepliable => owned("It can’t be replied to."),
        NotificationError::NotDismissable => owned("It can’t be dismissed."),
        NotificationError::UnknownAction => owned("It no longer has that action."),
        NotificationError::EmptyReply => owned("Enter a reply."),
        NotificationError::Core(error) => describe_code(error.code()),
    }
}

/// Whether `device` says it sends its notifications.
pub open spec fn shares(device: DeviceSnapshot) -> bool {
    names(device.outgoing_capabilities@, PACKET_TYPE@)
}

/// Whether `device` says it sends its notifications.
pub fn shares_notifications(device: &DeviceSnapshot) -> (r: bool)
    ensures
        r == shares(*device),
{
    has_capability(&device.outgoing_capabilities, PACKET_TYPE)
}

/// The action's label: how many notifications show, if any.
pub open spec fn action_label(count: nat) -> Seq<char> {
    if count == 0 { "Notifications"@ } else { "Notifications ("@ + decimal(count) + ")"@ }
}

/// A notification as a device posted it.
#[derive(Debug, Clone)]
pub struct Notification {
    pub id: String,
    pub app_name: String,
    pub title: Option<String>,
    pub text: Option<String>,
    /// When it was posted, in milliseconds since the epoch.
    pub time: Option<u64>,
    pub dismissable: bool,
    pub repliable: bool,
    /// Its own buttons' labels.
    pub actions: Vec<String>,
    /// Whether the device has an icon for it.
    pub has_icon: bool,
}

/// A notification as the page shows it, with its icon once decoded: the
/// number the shell keeps the picture under.
#[derive(Debug)]
pub struct Shown {
    pub notification: Notification,
    pub icon: Option<u64>,
}

/// The notifications `id` shows among `devices`: its first entry's, or none.
pub open spec fn shown_in(devices: Seq<(String, Vec<Shown>)>, id: Seq<char>) -> Seq<Shown>
    decreases devices.len(),
{
    if devices.len() == 0 {
        Seq::empty()
    } else if devices[0].0@ == id {
        devices[0].1@
    } else {
        shown_in(devices.drop_first(), id)
    }
}

/// `devices` without any entry for `id`, the others in order.
pub open spec fn without_device(devices: Seq<(String, Vec<Shown>)>, id: Seq<char>) -> Seq<(String, Vec<Shown>)>
    decreases devices.len(),
{
    if devices.len() == 0 {
        Seq::empty()
    } else if devices[0].0@ == id {
        without_device(devices.drop_first(), id)
    } else {
        seq![devices[0]] + without_device(devices.drop_first(), id)
    }
}

/// The devices whose notifications are held, in order.
pub open spec fn held(devices: Seq<(String, Vec<Shown>)>) -> Seq<Seq<char>> {
    devices.map_values(|entry: (String, Vec<Shown>)| entry.0@)
}

/// `shown` without the notifications numbered `id`, the others in order.
pub open spec fn without_note(shown: Seq<Shown>, id: Seq<char>) -> Seq<Shown>
    decreases shown.len(),
{
    if shown.len() == 0 {
        Seq::empty()
    } else if shown[0].notification.id@ == id {
        without_note(shown.drop_first(), id)
    } else {
        seq![shown[0]] + without_note(shown.drop_first(), id)
    }
}

/// The icon of the last notification numbered `id` in `previous`, if one
/// was numbered so: `Some(None)` when it had none.
pub open spec fn previous_icon(previous: Seq<Shown>, id: Seq<char>) -> Option<Option<u64>>
    decreases previous.len(),
{
    if previous.len() == 0 {
        None
    } else if previous.last().notification.id@ == id {
        Some(previous.last().icon)
    } else {
        previous_icon(previous.drop_last(), id)
    }
}

/// Whether a notification before the `i`th of `notes` is numbered `id`.
pub open spec fn earlier(notes: Seq<Notification>, i: int, id: Seq<char>) -> bool {
    exists|j: int| 0 <= j < i && (#[trigger] notes[j]).id@ == id
}

/// The icon the `i`th of `notes` keeps from `previous`: the decoded icon of
/// the one numbered as it is, for the first of `notes` numbered so.
pub open spec fn kept_icon(previous: Seq<Shown>, notes: Seq<Notification>, i: int) -> Option<u64> {
    if earlier(notes, i, notes[i].id@) {
        None
    } else {
        match previous_icon(previous, notes[i].id@) {
            Some(Some(icon)) => Some(icon),
            _ => None,
        }
    }
}

/// `shown` is `notes`, each with the icon it keeps from `previous`.
pub open spec fn refreshed(previous: Seq<Shown>, notes: Seq<Notification>, shown: Seq<Shown>) -> bool {
    &&& shown.len() == notes.len()
    &&& forall|i: int| 0 <= i < notes.len() ==>
        (#[trigger] shown[i]).notification == notes[i] && shown[i].icon == kept_icon(previous, notes, i)
}

/// The places among the first `n` of `notes` whose icon is to be fetched:
/// the device has one, and none was kept.
pub open spec fn to_fetch(previous: Seq<Shown>, notes: Seq<Notification>, n: int) -> Seq<usize>
    decreases n,
{
    if n <= 0 {
        Seq::empty()
    } else {
        let rest = to_fetch(previous, notes, n - 1);
        if kept_icon(previous, notes, n - 1) is None && notes[n - 1].has_icon {
            rest.push((n - 1) as usize)
        } else {
            rest
        }
    }
}

proof fn lemma_to_fetch(previous: Seq<Shown>, notes: Seq<Notification>, n: int)
    requires
        0 <= n <= notes.len() <= usize::MAX,
    ensures
        forall|k: int| 0 <= k < to_fetch(previous, notes, n).len() ==> {
            let place = #[trigger] to_fetch(previous, notes, n)[k];
            place < n && kept_icon(previous, notes, place as int) is None
        },
    decreases n,
{
    if n > 0 {
        lemma_to_fetch(previous, notes, n - 1);
    }
}

/// Icons already decoded are kept: a notification taken again under the
/// number of one whose icon was decoded keeps that icon (the first of the
/// new list so numbered), and its icon isn't fetched again.
pub proof fn decoded_icons_are_kept(previous: Seq<Shown>, notes: Seq<Notification>, i: int, icon: u64)
    requires
        0 <= i < notes.len() <= usize::MAX,
        !earlier(notes, i, notes[i].id@),
        previous_icon(previous, notes[i].id@) == Some(Some(icon)),
    ensures
        kept_icon(previous, notes, i) == Some(icon),
        !to_fetch(previous, notes, notes.len() as int).contains(i as usize),
{
    lemma_to_fetch(previous, notes, notes.len() as int);
}

proof fn lemma_without_device(devices: Seq<(String, Vec<Shown>)>, id: Seq<char>, other: Seq<char>)
    ensures
        shown_in(without_device(devices, id), id).len() == 0,
        other != id ==> shown_in(without_device(devices, id), other) == shown_in(devices, other),
    decreases devices.len(),
{
    if devices.len() > 0 {
        lemma_without_device(devices.drop_first(), id, other);
        if devices[0].0@ != id {
            let w = seq![devices[0]] + without_device(devices.drop_first(), id);
            assert(w.drop_first() =~= without_device(devices.drop_first(), id));
        }
    }
}

proof fn lemma_pushed(devices: Seq<(String, Vec<Shown>)>, entry: (String, Vec<Shown>), other: Seq<char>)
    requires
        forall|j: int| 0 <= j < devices.len() ==> (#[trigger] devices[j]).0@ != entry.0@,
    ensures
        shown_in(devices.push(entry), other) == if other == entry.0@ { entry.1@ } else { shown_in(devices, other) },
    decreases devices.len(),
{
    if devices.len() > 0 {
        assert(devices.push(entry).drop_first() =~= devices.drop_first().push(entry));
        assert forall|j: int| 0 <= j < devices.drop_first().len() implies (#[trigger] devices.drop_first()[j]).0@ != entry.0@ by {
            assert(devices.drop_first()[j] == devices[j + 1]);
        }
        lemma_pushed(devices.drop_first(), entry, other);
        assert(devices.push(entry)[0] == devices[0]);
        assert(devices[0].0@ != entry.0@);
        if devices[0].0@ != other {
            assert(shown_in(devices.push(entry), other) == shown_in(devices.push(entry).drop_first(), other));
            assert(shown_in(devices, other) == shown_in(devices.drop_first(), other));
        } else {
            assert(shown_in(devices.push(entry), other) == devices[0].1@);
        }
    } else {
        assert(devices.push(entry)[0] == entry);
        assert(devices.push(entry).drop_first().len() == 0);
        assert(shown_in(devices.push(entry).drop_first(), other).len() == 0);
    }
}

proof fn lemma_none_left(devices: Seq<(String, Vec<Shown>)>, id: Seq<char>)
    ensures
        forall|j: int| 0 <= j < without_device(devices, id).len() ==> (#[trigger] without_device(devices, id)[j]).0@ != id,
    decreases devices.len(),
{
    if devices.len() > 0 {
        lemma_none_left(devices.drop_first(), id);
        if devices[0].0@ != id {
            let rest = without_device(devices.drop_first(), id);
            let w = seq![devices[0]] + rest;
            assert forall|j: int| 0 <= j < w.len() implies (#[trigger] w[j]).0@ != id by {
                if j > 0 { assert(w[j] == rest[j - 1]); }
            }
        }
    }
}

proof fn lemma_replaced(before: Seq<(String, Vec<Shown>)>, k: int, entry: (String, Vec<Shown>), other: Seq<char>)
    requires
        0 <= k < before.len(),
        entry.0@ == before[k].0@,
        forall|j: int| 0 <= j < k ==> (#[trigger] before[j]).0@ != before[k].0@,
    ensures
        shown_in(before.update(k, entry), other) == if other == before[k].0@ { entry.1@ } else { shown_in(before, other) },
        held(before.update(k, entry)) == held(before),
    decreases k,
{
    let after = before.update(k, entry);
    assert(held(after) =~= held(before));
    if k > 0 {
        assert(after.drop_first() =~= before.drop_first().update(k - 1, entry));
        assert forall|j: int| 0 <= j < k - 1 implies (#[trigger] before.drop_first()[j]).0@ != before.drop_first()[k - 1].0@ by {
            assert(before.drop_first()[j] == before[j + 1]);
        }
        lemma_replaced(before.drop_first(), k - 1, entry, other);
        assert(after[0] == before[0]);
    } else {
        assert(after[0] == entry);
        assert(after.drop_first() =~= before.drop_first());
    }
}

proof fn lemma_found(devices: Seq<(String, Vec<Shown>)>, id: Seq<char>, i: int)
    requires
        0 <= i <= devices.len(),
        forall|j: int| 0 <= j < i ==> (#[trigger] devices[j]).0@ != id,
    ensures
        shown_in(devices, id) == shown_in(devices.skip(i), id),
    decreases i,
{
    if i > 0 {
        assert(devices.skip(1) =~= devices.drop_first());
        assert(devices.skip(i) =~= devices.drop_first().skip(i - 1));
        assert forall|j: int| 0 <= j < i - 1 implies (#[trigger] devices.drop_first()[j]).0@ != id by {
            assert(devices.drop_first()[j] == devices[j + 1]);
        }
        lemma_found(devices.drop_first(), id, i - 1);
    } else {
        assert(devices.skip(0) =~= devices);
    }
}

/// Where `id`'s entry is among `devices`: the first for it.
fn place_of(devices: &Vec<(String, Vec<Shown>)>, id: &str) -> (r: Option<usize>)
    ensures
        match r {
            Some(k) => k < devices@.len() && devices@[k as int].0@ == id@
                && forall|j: int| 0 <= j < k ==> (#[trigger] devices@[j]).0@ != id@,
            None => forall|j: int| 0 <= j < devices@.len() ==> (#[trigger] devices@[j]).0@ != id@,
        },
        match r {
            Some(k) => shown_in(devices@, id@) == devices@[k as int].1@,
            None => shown_in(devices@, id@).len() == 0,
        },
{
    let mut i: usize = 0;
    while i < devices.len()
        invariant
            i <= devices@.len(),
            forall|j: int| 0 <= j < i ==> (#[trigger] devices@[j]).0@ != id@,
        decreases devices@.len() - i,
    {
        if same(devices[i].0.as_str(), id) {
            proof {
                lemma_found(devices@, id@, i as int);
                assert(devices@.skip(i as int)[0] == devices@[i as int]);
            }
            return Some(i);
        }
        i = i + 1;
    }
    proof {
        lemma_found(devices@, id@, i as int);
        assert(devices@.skip(i as int).len() == 0);
    }
    None
}

/// The icon of the last of `previous` numbered `id`, if any is.
fn icon_before(previous: &Vec<Shown>, id: &str) -> (r: Option<Option<u64>>)
    ensures
        r == previous_icon(previous@, id@),
{
    let mut r: Option<Option<u64>> = None;
    let mut j: usize = 0;
    assert(previous@.take(0) =~= Seq::<Shown>::empty());
    while j < previous.len()
        invariant
            j <= previous@.len(),
            r == previous_icon(previous@.take(j as int), id@),
        decreases previous@.len() - j,
    {
        assert(previous@.take(j + 1).drop_last() =~= previous@.take(j as int));
        assert(previous@.take(j + 1).last() == previous@[j as int]);
        if same(previous[j].notification.id.as_str(), id) {
            r = Some(previous[j].icon);
        }
        j = j + 1;
    }
    assert(previous@.take(j as int) =~= previous@);
    r
}

/// Each device's notifications, newest first, as last taken from the
/// plugin; the first entry for a device counts.
pub struct NotificationsUi {
    pub devices: Vec<(String, Vec<Shown>)>,
}

impl NotificationsUi {
    pub fn new() -> (ui: Self)
        ensures
            ui.devices@.len() == 0,
    {
        NotificationsUi { devices: Vec::new() }
    }

    /// `device_id`'s notifications, as the page lists them.
    pub fn shown(&self, device_id: &str) -> (r: &[Shown])
        ensures
            r@ == shown_in(self.devices@, device_id@),
    {
        match place_of(&self.devices, device_id) {
            Some(k) => self.devices[k].1.as_slice(),
            None => &[],
        }
    }

    /// How many notifications `device_id` shows.
    pub fn count(&self, device_id: &str) -> (n: usize)
        ensures
            n == shown_in(self.devices@, device_id@).len(),
    {
        match place_of(&self.devices, device_id) {
            Some(k) => self.devices[k].1.len(),
            None => 0,
        }
    }

    /// The devices whose notifications are held, to take each again after
    /// a fresh snapshot.
    pub fn held_devices(&self) -> (ids: Vec<String>)
        ensures
            ids@.map_values(|s: String| s@) == held(self.devices@),
    {
        let mut ids: Vec<String> = Vec::new();
        let mut i: usize = 0;
        while i < self.devices.len()
            invariant
                i <= self.devices@.len(),
                ids@.map_values(|s: String| s@) == held(self.devices@).take(i as int),
            decreases self.devices@.len() - i,
        {
            let ghost before = ids@.map_values(|s: String| s@);
            ids.push(owned(self.devices[i].0.as_str()));
            assert(ids@.map_values(|s: String| s@) =~= before.push(self.devices@[i as int].0@));
            assert(held(self.devices@).take(i + 1) =~= held(self.devices@).take(i as int).push(held(self.devices@)[i as int]));
            i = i + 1;
        }
        assert(held(self.devices@).take(i as int) =~= held(self.devices@));
        ids
    }

    /// Take `device_id`'s notifications from the plugin again (`notes`,
    /// newest first), keeping the icons already decoded; a device with none
    /// is let go. Returns the places in its new list of those whose icon is
    /// to be fetched and decoded, then given with [`Self::set_icon`].
    pub fn refresh(&mut self, device_id: &str, notes: Vec<Notification>) -> (fetch: Vec<usize>)
        ensures
            refreshed(shown_in(old(self).devices@, device_id@), notes@, shown_in(final(self).devices@, device_id@)),
            forall|other: Seq<char>| other != device_id@
                ==> #[trigger] shown_in(final(self).devices@, other) == shown_in(old(self).devices@, other),
            held(final(self).devices@) == held(without_device(old(self).devices@, device_id@))
                + if notes@.len() > 0 { seq![device_id@] } else { Seq::empty() },
            fetch@ == to_fetch(shown_in(old(self).devices@, device_id@), notes@, notes@.len() as int),
    {
        let ghost orig = self.devices@;
        let mut rest: Vec<(String, Vec<Shown>)> = Vec::new();
        std::mem::swap(&mut rest, &mut self.devices);
        let mut previous: Vec<Shown> = Vec::new();
        let mut found = false;
        assert(self.devices@ + without_device(rest@, device_id@) =~= without_device(orig, device_id@));
        while rest.len() > 0
            invariant
                self.devices@ + without_device(rest@, device_id@) == without_device(orig, device_id@),
                found ==> previous@ == shown_in(orig, device_id@),
                !found ==> previous@.len() == 0 && shown_in(rest@, device_id@) == shown_in(orig, device_id@),
            decreases rest@.len(),
        {
            let ghost r0 = rest@;
            let ghost kept = self.devices@;
            let entry = rest.remove(0);
            assert(rest@ =~= r0.drop_first());
            if same(entry.0.as_str(), device_id) {
                if !found {
                    previous = entry.1;
                    found = true;
                }
            } else {
                self.devices.push(entry);
                assert(without_device(r0, device_id@) =~= seq![r0[0]] + without_device(rest@, device_id@));
                assert(self.devices@ + without_device(rest@, device_id@) =~= kept + without_device(r0, device_id@));
            }
        }
        proof {
            assert(self.devices@ =~= without_device(orig, device_id@));
            lemma_none_left(orig, device_id@);
            lemma_without_device(orig, device_id@, device_id@);
            assert forall|other: Seq<char>| other != device_id@ implies
                #[trigger] shown_in(self.devices@, other) == shown_in(orig, other) by {
                lemma_without_device(orig, device_id@, other);
            }
        }
        let ghost prev = previous@;
        assert(prev == shown_in(orig, device_id@));
        let mut notes = notes;
        let ghost all = notes@;
        if notes.len() == 0 {
            assert(held(self.devices@) =~= held(without_device(orig, device_id@)) + Seq::<Seq<char>>::empty());
            return Vec::new();
        }
        let mut list: Vec<Shown> = Vec::new();
        let mut fetch: Vec<usize> = Vec::new();
        let mut seen: Vec<String> = Vec::new();
        let mut i: usize = 0;
        assert(all.skip(0) =~= all);
        while notes.len() > 0
            invariant
                i + notes@.len() == all.len(),
                all.len() <= usize::MAX,
                notes@ == all.skip(i as int),
                prev == previous@,
                list@.len() == i,
                forall|k: int| 0 <= k < i ==> (#[trigger] list@[k]).notification == all[k]
                    && list@[k].icon == kept_icon(prev, all, k),
                seen@.len() == i,
                forall|k: int| 0 <= k < i ==> (#[trigger] seen@[k])@ == all[k].id@,
                fetch@ == to_fetch(prev, all, i as int),
            decreases notes@.len(),
        {
            let ghost n0 = notes@;
            let n = notes.remove(0);
            assert(n == all[i as int]);
            assert(notes@ =~= all.skip(i + 1));
            let again = has_capability(&seen, n.id.as_str());
            assert(again == earlier(all, i as int, all[i as int].id@)) by {
                if again {
                    let j = choose|j: int| 0 <= j < seen@.len() && (#[trigger] seen@[j])@ == n.id@;
                    assert(all[j].id@ == n.id@);
                }
                if earlier(all, i as int, all[i as int].id@) {
                    let j = choose|j: int| 0 <= j < i && (#[trigger] all[j]).id@ == all[i as int].id@;
                    assert(seen@[j]@ == n.id@);
                }
            }
            let icon = if again {
                None
            } else {
                match icon_before(&previous, n.id.as_str()) {
                    Some(Some(icon)) => Some(icon),
                    _ => None,
                }
            };
            assert(icon == kept_icon(prev, all, i as int));
            if icon.is_none() && n.has_icon {
                fetch.push(i);
            }
            seen.push(owned(n.id.as_str()));
            list.push(Shown { notification: n, icon });
            i = i + 1;
        }
        proof {
            lemma_none_left(orig, device_id@);
        }
        let ghost without = self.devices@;
        let entry = (owned(device_id), list);
        let ghost pushed = entry;
        self.devices.push(entry);
        proof {
            lemma_pushed(without, pushed, device_id@);
            assert forall|other: Seq<char>| other != device_id@ implies
                #[trigger] shown_in(self.devices@, other) == shown_in(orig, other) by {
                lemma_pushed(without, pushed, other);
                lemma_without_device(orig, device_id@, other);
            }
            assert(held(self.devices@) =~= held(without).push(device_id@));
            assert(held(without).push(device_id@) =~= held(without) + seq![device_id@]);
        }
        fetch
    }

    /// The icon of notification `id`, at `place` in `device_id`'s list,
    /// was fetched and decoded, and is kept as `icon`. Nothing changes if
    /// the list has moved on since.
    pub fn set_icon(&mut self, device_id: &str, place: usize, id: &str, icon: u64)
        ensures
            ({
                let before = shown_in(old(self).devices@, device_id@);
                if place < before.len() && before[place as int].notification.id@ == id@ {
                    shown_in(final(self).devices@, device_id@)
                        == before.update(place as int, Shown { notification: before[place as int].notification, icon: Some(icon) })
                } else {
                    shown_in(final(self).devices@, device_id@) == before
                }
            }),
            forall|other: Seq<char>| other != device_id@
                ==> #[trigger] shown_in(final(self).devices@, other) == shown_in(old(self).devices@, other),
            held(final(self).devices@) == held(old(self).devices@),
    {
        let k = match place_of(&self.devices, device_id) {
            Some(k) => k,
            None => return,
        };
        let ghost before = self.devices@;
        let mut entry = self.devices.remove(k);
        let ghost list = entry.1@;
        if place < entry.1.len() && same(entry.1[place].notification.id.as_str(), id) {
            let mut s = entry.1.remove(place);
            s.icon = Some(icon);
            entry.1.insert(place, s);
            assert(entry.1@ =~= list.update(place as int, Shown { notification: list[place as int].notification, icon: Some(icon) }));
        }
        self.devices.insert(k, entry);
        proof {
            assert(self.devices@ =~= before.update(k as int, self.devices@[k as int]));
            lemma_replaced(before, k as int, self.devices@[k as int], device_id@);
            assert forall|other: Seq<char>| other != device_id@ implies
                #[trigger] shown_in(self.devices@, other) == shown_in(before, other) by {
                lemma_replaced(before, k as int, self.devices@[k as int], other);
            }
        }
    }

    /// Let go of notification `id` of `device_id`, so that taking the list
    /// again fetches its icon anew: it may have changed under the same id.
    pub fn forget(&mut self, device_id: &str, id: &str)
        ensures
            shown_in(final(self).devices@, device_id@) == without_note(shown_in(old(self).devices@, device_id@), id@),
            forall|other: Seq<char>| other != device_id@
                ==> #[trigger] shown_in(final(self).devices@, other) == shown_in(old(self).devices@, other),
            held(final(self).devices@) == held(old(self).devices@),
    {
        let k = match place_of(&self.devices, device_id) {
            Some(k) => k,
            None => {
                assert(without_note(Seq::<Shown>::empty(), id@) =~= Seq::<Shown>::empty());
                return;
            }
        };
        let ghost before = self.devices@;
        let (key, mut list) = self.devices.remove(k);
        let ghost orig = list@;
        let mut kept: Vec<Shown> = Vec::new();
        assert(kept@ + without_note(list@, id@) =~= without_note(orig, id@));
        while list.len() > 0
            invariant
                kept@ + without_note(list@, id@) == without_note(orig, id@),
            decreases list@.len(),
        {
            let ghost l0 = list@;
            let ghost k0 = kept@;
            let s = list.remove(0);
            assert(list@ =~= l0.drop_first());
            if !same(s.notification.id.as_str(), id) {
                kept.push(s);
                assert(without_note(l0, id@) =~= seq![l0[0]] + without_note(list@, id@));
                assert(kept@ + without_note(list@, id@) =~= k0 + without_note(l0, id@));
            }
        }
        assert(kept@ =~= without_note(orig, id@));
        self.devices.insert(k, (key, kept));
        proof {
            assert(self.devices@ =~= before.update(k as int, self.devices@[k as int]));
            lemma_replaced(before, k as int, self.devices@[k as int], device_id@);
            assert forall|other: Seq<char>| other != device_id@ implies
                #[trigger] shown_in(self.devices@, other) == shown_in(before, other) by {
                lemma_replaced(before, k as int, self.devices@[k as int], other);
            }
        }
    }

    /// The action for `device`: listed for a device that shares its
    /// notifications, enabled while it is connected, with how many it shows.
    pub open spec fn actions(&self, device: DeviceSnapshot) -> Seq<DeviceActionView> {
        if !shares(device) {
            Seq::empty()
        } else {
            seq![DeviceActionView {
                id: "notifications"@,
                label: action_label(shown_in(self.devices@, device.device_id@).len()),
                icon: Icon::Inbox,
                enabled: connected(device),
                visible_in_tray: false,
                message: FeatureView::Notifications(MessageView::Open { device_id: device.device_id@ }),
            }]
        }
    }

    /// The *Notifications* action for `device`, if it shares them.
    pub fn device_actions(&self, device: &DeviceSnapshot) -> (r: Vec<DeviceAction>)
        ensures
            actions_view(r@) == self.actions(*device),
    {
        if !shares_notifications(device) {
            let none: Vec<DeviceAction> = Vec::new();
            assert(actions_view(none@) =~= self.actions(*device));
            return none;
        }
        let count = self.count(device.device_id.as_str());
        let label = if count == 0 {
            owned("Notifications")
        } else {
            let mut label = owned("Notifications (");
            let digits = decimal_string(count as u64);
            label.append(digits.as_str());
            label.append(")");
            label
        };
        let action = DeviceAction {
            id: "notifications",
            label,
            icon: Icon::Inbox,
            enabled: is_connected(device),
            visible_in_tray: false,
            message: Feature::Notifications(Message::Open { device_id: owned(device.device_id.as_str()) }),
        };
        let r = vec![action];
        assert(actions_view(r@) =~= self.actions(*device));
        r
    }
}

/// What the notifications' page and buttons leave to the shell.
#[derive(Debug)]
pub enum Effect {
    /// Show this page.
    Navigate(Route),
    /// Ask for a reply: the dialog's words; the answer, checked by
    /// [`reply_problem`], is sent as [`Message::SendReply`].
    Prompt { title: String, body: String, label: String, confirm_label: String, device_id: String, id: String },
    /// Send the reply to notification `id`, then report with [`replied`].
    Reply { device_id: String, id: String, message: String },
    /// Press the notification's button, then report with [`action_ran`].
    RunAction { device_id: String, id: String, action: String },
    /// Dismiss the notification, then report with [`dismissed`] (and take
    /// the device's notifications again once it is gone).
    Dismiss { device_id: String, id: String },
}

/// What the shell does for `message`.
pub open spec fn effect_of(message: MessageView, effect: Effect) -> bool {
    match message {
        MessageView::Open { device_id } => effect matches Effect::Navigate(r) && r@ == RouteView::Notifications(device_id),
        MessageView::Close { device_id } => effect matches Effect::Navigate(r) && r@ == RouteView::Device(device_id),
        MessageView::Reply { device_id, id, title } => effect matches Effect::Prompt { title: t, body, label, confirm_label, device_id: d, id: i }
            && t@ == "Reply"@ && body@ == "To “"@ + title + "”"@ && label@ == "Message"@ && confirm_label@ == "Send"@
            && d@ == device_id && i@ == id,
        MessageView::SendReply { device_id, id, message } => effect matches Effect::Reply { device_id: d, id: i, message: m }
            && d@ == device_id && i@ == id && m@ == message,
        MessageView::Action { device_id, id, action } => effect matches Effect::RunAction { device_id: d, id: i, action: a }
            && d@ == device_id && i@ == id && a@ == action,
        MessageView::Dismiss { device_id, id } => effect matches Effect::Dismiss { device_id: d, id: i }
            && d@ == device_id && i@ == id,
    }
}

/// What the shell does for `message`: open or leave the page, ask for a
/// reply, or ask the device.
pub fn update(message: Message) -> (effect: Effect)
    ensures
        effect_of(message@, effect),
{
    match message {
        Message::Open { device_id } => Effect::Navigate(Route::Notifications(device_id)),
        Message::Close { device_id } => Effect::Navigate(Route::Device(device_id)),
        Message::Reply { device_id, id, title } => Effect::Prompt {
            title: owned("Reply"),
            body: join3("To “", title.as_str(), "”"),
            label: owned("Message"),
            confirm_label: owned("Send"),
            device_id,
            id,
        },
        Message::SendReply { device_id, id, message } => Effect::Reply { device_id, id, message },
        Message::Action { device_id, id, action } => Effect::RunAction { device_id, id, action },
        Message::Dismiss { device_id, id } => Effect::Dismiss { device_id, id },
    }
}

/// Why a reply can't be sent before asking the device: an empty one.
pub fn reply_problem(message: &str) -> (r: Option<String>)
    ensures
        blank(message@) ==> (r matches Some(e) && e@ == notification_message(NotificationError::EmptyReply)),
        !blank(message@) ==> r is None,
{
    if is_blank(message) { Some(describe(&NotificationError::EmptyReply)) } else { None }
}

/// What sending a reply reports: that it was sent, or why not under
/// "Couldn’t send the reply".
pub fn replied(result: Result<(), NotificationError>) -> (r: (String, Option<String>))
    ensures
        match result {
            Ok(()) => r.0@ == "Reply sent."@ && r.1 is None,
            Err(e) => r.0@ == notification_message(e) && (r.1 matches Some(t) && t@ == "Couldn’t send the reply"@),
        },
{
    match result {
        Ok(()) => (owned("Reply sent."), None),
        Err(error) => (describe(&error), Some(owned("Couldn’t send the reply"))),
    }
}

/// What pressing a notification's button reports: nothing once done, or
/// why not under "Couldn’t {action}", as (text, title).
pub fn action_ran(action: &str, result: Result<(), NotificationError>) -> (r: Option<(String, String)>)
    ensures
        match result {
            Ok(()) => r is None,
            Err(e) => r matches Some(f) && f.0@ == notification_message(e) && f.1@ == "Couldn’t "@ + action@,
        },
{
    match result {
        Ok(()) => None,
        Err(error) => Some((describe(&error), join2("Couldn’t ", action))),
    }
}

/// What dismissing reports: nothing once gone, or why not under
/// "Couldn’t dismiss it", as (text, title).
pub fn dismissed(result: Result<(), NotificationError>) -> (r: Option<(String, String)>)
    ensures
        match result {
            Ok(()) => r is None,
            Err(e) => r matches Some(f) && f.0@ == notification_message(e) && f.1@ == "Couldn’t dismiss it"@,
        },
{
    match result {
        Ok(()) => None,
        Err(error) => Some((describe(&error), owned("Couldn’t dismiss it"))),
    }
}

/// The notification for one that is news: "{title} · {device}" (the
/// app's name when it has no title) over its text.
pub fn announcement(title: Option<&str>, app_name: &str, text: Option<&str>, device_name: &str) -> (r: (String, String))
    ensures
        r.0@ == (match title { Some(t) => t@, None => app_name@ }) + " · "@ + device_name@,
        r.1@ == match text { Some(t) => t@, None => Seq::<char>::empty() },
{
    let shown = match title {
        Some(t) => t,
        None => app_name,
    };
    let body = match text {
        Some(t) => owned(t),
        None => String::new(),
    };
    (join3(shown, " · ", device_name), body)
}

/// The buttons under a notification's card: Reply when it takes a reply
/// (naming it by its title, else its app), then each of its own actions.
pub open spec fn card_buttons_of(device_id: Seq<char>, id: Seq<char>, app_name: Seq<char>, title: Option<Seq<char>>,
    repliable: bool, actions: Seq<Seq<char>>) -> Seq<MessageView> {
    let reply = if repliable {
        seq![MessageView::Reply { device_id, id, title: match title { Some(t) => t, None => app_name } }]
    } else {
        Seq::empty()
    };
    reply + actions.map_values(|action: Seq<char>| MessageView::Action { device_id, id, action })
}

/// The buttons under notification `id`'s card.
pub fn card_buttons(device_id: &str, id: &str, app_name: &str, title: Option<&str>, repliable: bool, actions: &Vec<String>)
    -> (buttons: Vec<Message>)
    ensures
        buttons@.map_values(|m: Message| m@) == card_buttons_of(device_id@, id@, app_name@,
            match title { Some(t) => Some(t@), None => None }, repliable, actions@.map_values(|a: String| a@)),
{
    let mut buttons: Vec<Message> = Vec::new();
    if repliable {
        let shown = match title {
            Some(t) => t,
            None => app_name,
        };
        buttons.push(Message::Reply { device_id: owned(device_id), id: owned(id), title: owned(shown) });
    }
    let ghost start = buttons@.map_values(|m: Message| m@);
    let ghost names = actions@.map_values(|a: String| a@);
    let mut i: usize = 0;
    while i < actions.len()
        invariant
            i <= actions@.len(),
            names == actions@.map_values(|a: String| a@),
            buttons@.map_values(|m: Message| m@)
                == start + names.take(i as int).map_values(|action: Seq<char>| MessageView::Action { device_id: device_id@, id: id@, action }),
        decreases actions@.len() - i,
    {
        let ghost before = buttons@.map_values(|m: Message| m@);
        buttons.push(Message::Action { device_id: owned(device_id), id: owned(id), action: owned(actions[i].as_str()) });
        assert(buttons@.map_values(|m: Message| m@) =~= before.push(MessageView::Action { device_id: device_id@, id: id@, action: names[i as int] }));
        assert(names.take(i + 1) =~= names.take(i as int).push(names[i as int]));
        assert(names.take(i + 1).map_values(|action: Seq<char>| MessageView::Action { device_id: device_id@, id: id@, action })
            =~= names.take(i as int).map_values(|action: Seq<char>| MessageView::Action { device_id: device_id@, id: id@, action })
                .push(MessageView::Action { device_id: device_id@, id: id@, action: names[i as int] }));
        i = i + 1;
    }
    assert(names.take(actions@.len() as int) =~= names);
    buttons
}

/// The card's close button dismisses the notification, if it can be.
pub fn card_dismiss(device_id: &str, id: &str, dismissable: bool) -> (m: Option<Message>)
    ensures
        dismissable ==> (m matches Some(d) && d@ == MessageView::Dismiss { device_id: device_id@, id: id@ }),
        !dismissable ==> m is None,
{
    if dismissable { Some(Message::Dismiss { device_id: owned(device_id), id: owned(id) }) } else { None }
}

/// What the page says instead of the list: the device isn't connected, or
/// it shows none; `None` when there is a list to show.
pub fn page_note(device: &DeviceSnapshot, count: usize) -> (r: Option<String>)
    ensures
        !connected(*device) ==> (r matches Some(n) && n@ == device.device_name@ + " isn’t connected."@),
        connected(*device) && count == 0 ==> (r matches Some(n) && n@ == "No notifications from "@ + device.device_name@ + "."@),
        connected(*device) && count > 0 ==> r is None,
{
    if !is_connected(device) {
        Some(join2(device.device_name.as_str(), " isn’t connected."))
    } else if count == 0 {
        Some(join3("No notifications from ", device.device_name.as_str(), "."))
    } else {
        None
    }
}

/// The message about a failed action on a notification.
pub open spec fn notification_words_of(error: NotificationError) -> WordsView {
    match error {
        NotificationError::NotFound => plain("notifications-error-notification_not_found"@),
        NotificationError::NotRepliable => plain("notifications-error-notification_not_repliable"@),
        NotificationError::NotDismissable => plain("notifications-error-notification_not_dismissable"@),
        NotificationError::UnknownAction => plain("notifications-error-unknown_notification_action"@),
        NotificationError::EmptyReply => plain("notifications-error-empty_reply"@),
        NotificationError::Core(error) => code_words_of(error_code(error)),
    }
}

/// The message about a failed action on a notification, for the shell
/// to put in the user's language.
pub fn error_words(error: &NotificationError) -> (w: Words)
    ensures
        w@ == notification_words_of(*error),
{
    match error {
        NotificationError::NotFound => message("notifications-error-notification_not_found"),
        NotificationError::NotRepliable => message("notifications-error-notification_not_repliable"),
        NotificationError::NotDismissable => message("notifications-error-notification_not_dismissable"),
        NotificationError::UnknownAction => message("notifications-error-unknown_notification_action"),
        NotificationError::EmptyReply => message("notifications-error-empty_reply"),
        NotificationError::Core(error) => code_words(error.code()),
    }
}

/// The *Notifications* action's label, with how many show.
pub fn action_words(count: u64) -> (w: Words)
    ensures
        w@ == with_arg("notifications-action"@, "count"@, ArgView::Number(count)),
{
    with_number("notifications-action", "count", count)
}

/// The reply prompt's title, text (naming the notification `title`),
/// field label and confirm label.
pub fn reply_prompt_words(title: &str) -> (r: (Words, Words, Words, Words))
    ensures
        r.0@ == plain("notifications-reply-title"@),
        r.1@ == with_arg("notifications-reply-to"@, "title"@, ArgView::Text(title@)),
        r.2@ == plain("notifications-reply-label"@),
        r.3@ == plain("notifications-reply-send"@),
{
    (message("notifications-reply-title"), with_text("notifications-reply-to", "title", title),
        message("notifications-reply-label"), message("notifications-reply-send"))
}

/// Why `message` can't be sent as a reply: it is blank.
pub fn reply_problem_words(message: &str) -> (r: Option<Words>)
    ensures
        blank(message@) ==> (r matches Some(e) && e@ == plain("notifications-error-empty_reply"@)),
        !blank(message@) ==> r is None,
{
    if is_blank(message) { Some(crate::words::message("notifications-error-empty_reply")) } else { None }
}

/// What sending a reply reports, as messages: that it was sent, or why
/// not under its failure title.
pub fn replied_words(result: Result<(), NotificationError>) -> (r: (Words, Option<Words>))
    ensures
        match result {
            Ok(()) => r.0@ == plain("notifications-reply-sent"@) && r.1 is None,
            Err(e) => r.0@ == notification_words_of(e) && (r.1 matches Some(t) && t@ == plain("notifications-reply-failed"@)),
        },
{
    match result {
        Ok(()) => (message("notifications-reply-sent"), None),
        Err(error) => (error_words(&error), Some(message("notifications-reply-failed"))),
    }
}

/// What pressing a notification's button `action` reports when it fails,
/// as messages: why, under a title naming the action.
pub fn action_ran_words(action: &str, result: Result<(), NotificationError>) -> (r: Option<(Words, Words)>)
    ensures
        match result {
            Ok(()) => r is None,
            Err(e) => r matches Some(f) && f.0@ == notification_words_of(e)
                && f.1@ == with_arg("notifications-action-failed"@, "action"@, ArgView::Text(action@)),
        },
{
    match result {
        Ok(()) => None,
        Err(error) => Some((error_words(&error), with_text("notifications-action-failed", "action", action))),
    }
}

/// What dismissing a notification reports when it fails, as messages.
pub fn dismissed_words(result: Result<(), NotificationError>) -> (r: Option<(Words, Words)>)
    ensures
        match result {
            Ok(()) => r is None,
            Err(e) => r matches Some(f) && f.0@ == notification_words_of(e) && f.1@ == plain("notifications-dismiss-failed"@),
        },
{
    match result {
        Ok(()) => None,
        Err(error) => Some((error_words(&error), message("notifications-dismiss-failed"))),
    }
}

/// The desktop notification's title for one that is news, naming it by
/// its title (else its app's name) and the device.
pub fn announcement_words(title: Option<&str>, app_name: &str, device_name: &str) -> (w: Words)
    ensures
        w@ == with_args("notifications-announce-title"@,
            ("title"@, ArgView::Text(match title { Some(t) => t@, None => app_name@ })),
            ("name"@, ArgView::Text(device_name@))),
{
    let shown = match title {
        Some(t) => t,
        None => app_name,
    };
    with_two("notifications-announce-title", ("title", Arg::Text(owned(shown))), ("name", Arg::Text(owned(device_name))))
}

/// The page's title, and the labels of a card's Reply and dismiss buttons.
pub fn page_words() -> (r: (Words, Words, Words))
    ensures
        r.0@ == plain("notifications-title"@),
        r.1@ == plain("notifications-reply"@),
        r.2@ == plain("notifications-dismiss"@),
{
    (message("notifications-title"), message("notifications-reply"), message("notifications-dismiss"))
}

/// What the page says instead of the list, as messages (a line and the
/// detail under it): the device isn't connected, or shows none.
pub fn page_note_words(device: &DeviceSnapshot, count: usize) -> (r: Option<(Words, Words)>)
    ensures
        !connected(*device) ==> (r matches Some(n) && n.0@ == with_arg("notifications-offline"@, "name"@, ArgView::Text(device.device_name@))
            && n.1@ == plain("notifications-offline-detail"@)),
        connected(*device) && count == 0 ==> (r matches Some(n) && n.0@ == with_arg("notifications-empty"@, "name"@, ArgView::Text(device.device_name@))
            && n.1@ == plain("notifications-empty-detail"@)),
        connected(*device) && count > 0 ==> r is None,
{
    if !is_connected(device) {
        Some((with_text("notifications-offline", "name", device.device_name.as_str()), message("notifications-offline-detail")))
    } else if count == 0 {
        Some((with_text("notifications-empty", "name", device.device_name.as_str()), message("notifications-empty-detail")))
    } else {
        None
    }
}

} // verus!
