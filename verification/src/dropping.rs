//! Files dropped on the window or the tray icon: which of them can be
//! sent, where they go, and the chooser that asks when the page doesn't
//! say.

use vstd::prelude::*;
use crate::dialog::{Dialogs, DialogEvent, Step};
use crate::drop::{Drag, Dropped, DragView, DroppedView, hovered, finished, dropped, paths_view};
use crate::error::{code_message, describe_code, file_name, file_name_of};
use crate::device::DeviceSnapshot;
use crate::features::Features;
use crate::text::{decimal, decimal_string, join3};
use crate::features::{DropTarget, Feature, FeatureView, target_view};
use crate::route::{Route, RouteView};
use crate::shell::{Window, WindowAction, shown, closed};
use crate::text::owned;

verus! {

/// What a drop with no file says.
pub open spec fn folders_refused() -> Seq<char> {
    "Only files can be sent, not folders."@
}

/// The files among dropped paths (each with whether it is a file), in
/// order.
pub open spec fn files_in(paths: Seq<(String, bool)>) -> Seq<Seq<char>>
    decreases paths.len(),
{
    if paths.len() == 0 {
        Seq::empty()
    } else {
        let rest = files_in(paths.drop_last());
        if paths.last().1 { rest.push(paths.last().0@) } else { rest }
    }
}

/// The files among dropped `paths`, each given with whether it is a file;
/// without any, what to say instead, if anything: folders can't be sent,
/// and a drop of nothing says nothing.
pub fn sendable(paths: Vec<(String, bool)>) -> (r: Result<Vec<String>, Option<String>>)
    ensures
        match r {
            Ok(files) => paths_view(files@) == files_in(paths@) && files@.len() > 0,
            Err(None) => paths@.len() == 0,
            Err(Some(said)) => paths@.len() > 0 && files_in(paths@).len() == 0 && said@ == folders_refused(),
        },
        r is Err <==> files_in(paths@).len() == 0,
{
    let n = paths.len();
    let mut files: Vec<String> = Vec::new();
    let mut i: usize = 0;
    while i < n
        invariant
            n == paths@.len(),
            i <= n,
            paths_view(files@) == files_in(paths@.take(i as int)),
        decreases n - i,
    {
        let (path, is_file) = &paths[i];
        assert(paths@.take(i + 1).drop_last() =~= paths@.take(i as int));
        assert(paths@.take(i + 1).last() == paths@[i as int]);
        if *is_file {
            let ghost before = paths_view(files@);
            files.push(owned(path.as_str()));
            assert(paths_view(files@) =~= before.push(path@));
        }
        i = i + 1;
    }
    assert(paths@.take(n as int) =~= paths@);
    if files.len() == 0 {
        if n == 0 {
            return Err(None);
        }
        return Err(Some(owned("Only files can be sent, not folders.")));
    }
    Ok(files)
}

/// Files dropped on the window: where the page says, if a feature takes
/// them there (`target`, the page's drop target), else they wait in the
/// chooser for the user to pick a device.
pub fn dropped_here(files: Vec<String>, target: Option<DropTarget>, choosing: &mut Option<Vec<String>>) -> (sent: Option<Feature>)
    ensures
        match target {
            Some(t) => (sent matches Some(f) && f@ == t.drop_message(paths_view(files@))) && *final(choosing) == *old(choosing),
            None => sent is None && *final(choosing) == Some(files),
        },
{
    match target {
        Some(target) => Some(target.on_drop(files)),
        None => {
            *choosing = Some(files);
            None
        }
    }
}

/// The chooser's device was picked: the window goes to the device's page,
/// and the files waiting go to it, if a feature takes them there
/// (`target`, for that page); else the device dropped out of the list as
/// it was chosen, which is said. Nothing happens without files waiting.
pub fn drop_on(choosing: &mut Option<Vec<String>>, device_id: &str, target: Option<DropTarget>)
    -> (r: Option<(Route, Result<Feature, String>)>)
    ensures
        *final(choosing) is None,
        match *old(choosing) {
            None => r is None,
            Some(files) => r matches Some((route, then)) && route@ == RouteView::Device(device_id@) && match target {
                Some(t) => then matches Ok(f) && f@ == t.drop_message(paths_view(files@)),
                None => then matches Err(said) && said@ == code_message("device_not_connected"@),
            },
        },
{
    let files = match choosing.take() {
        Some(files) => files,
        None => return None,
    };
    let route = Route::Device(owned(device_id));
    let then = match target {
        Some(target) => Ok(target.on_drop(files)),
        None => Err(describe_code("device_not_connected")),
    };
    Some((route, then))
}

/// Files dropped on the tray icon (`paths`, each with whether it is a
/// file): the window shows, asking which device to send them to, whatever
/// page it shows; not while the pairing prompt shows, which is modal.
/// Returns what to do to the window, and what to say.
pub fn dropped_on_tray(window: &mut Window, choosing: &mut Option<Vec<String>>, prompt_shows: bool,
    paths: Vec<(String, bool)>) -> (r: (WindowAction, Option<String>))
    ensures
        (*final(window), r.0) == shown(*old(window)),
        prompt_shows ==> *final(choosing) == *old(choosing) && r.1 is None,
        !prompt_shows && files_in(paths@).len() > 0 ==> (*final(choosing) matches Some(files)
            && paths_view(files@) == files_in(paths@)) && r.1 is None,
        !prompt_shows && files_in(paths@).len() == 0 ==> *final(choosing) == *old(choosing)
            && (paths@.len() == 0 ==> r.1 is None)
            && (paths@.len() > 0 ==> (r.1 matches Some(said) && said@ == folders_refused())),
{
    let action = window.show();
    if prompt_shows {
        return (action, None);
    }
    match sendable(paths) {
        Ok(files) => {
            *choosing = Some(files);
            (action, None)
        }
        Err(said) => (action, said),
    }
}

/// Escape: nothing while the pairing prompt shows (it can't be
/// dismissed); else it closes the chooser if it shows, else the dialog.
pub fn cancel_key(prompt_shows: bool, choosing: &mut Option<Vec<String>>, dialogs: &mut Dialogs) -> (step: Option<Step>)
    ensures
        prompt_shows ==> step is None && *final(choosing) == *old(choosing) && final(dialogs).queue@ == old(dialogs).queue@,
        !prompt_shows && *old(choosing) is Some ==> step is None && *final(choosing) is None
            && final(dialogs).queue@ == old(dialogs).queue@,
        !prompt_shows && *old(choosing) is None ==> *final(choosing) is None && (step matches Some(s) && s is Nothing)
            && final(dialogs).queue@ == (if old(dialogs).queue@.len() == 0 { old(dialogs).queue@ } else { old(dialogs).queue@.drop_first() }),
{
    if prompt_shows {
        return None;
    }
    if choosing.is_some() {
        *choosing = None;
        return None;
    }
    Some(dialogs.update(DialogEvent::Cancel))
}

/// A file hovers over the window: the drag counts it, unless the pairing
/// prompt shows, which is modal: then the drag is forgotten.
pub fn file_hovered(drag: &mut Drag, prompt_shows: bool)
    ensures
        !prompt_shows ==> final(drag)@ == hovered(old(drag)@),
        prompt_shows ==> final(drag)@ == finished(old(drag)@),
{
    if prompt_shows {
        drag.leave();
    } else {
        drag.hover();
    }
}

/// A file dropped on the window: what the drag makes of it; nothing while
/// the pairing prompt shows, and the drag is forgotten.
pub fn file_dropped(drag: &mut Drag, path: String, prompt_shows: bool) -> (r: Option<Dropped>)
    ensures
        !prompt_shows ==> (r matches Some(d) && (final(drag)@, d@) == dropped(old(drag)@, path@)),
        prompt_shows ==> r is None && final(drag)@ == finished(old(drag)@),
{
    if prompt_shows {
        drag.leave();
        None
    } else {
        Some(drag.drop_file(path))
    }
}

/// The window closed: it is no longer in front, and a drag over it ends.
pub fn window_closed(window: &mut Window, drag: &mut Drag)
    ensures
        *final(window) == closed(*old(window)),
        final(drag)@ == finished(old(drag)@),
{
    window.closed();
    drag.leave();
}

/// What the hint says when the page has no device to drop on.
pub const CHOOSE_LABEL: &'static str = "Drop anywhere to choose a device";

/// What the drop hint says while files hover over the window: where they
/// go (`target_label`, the page's drop target's), or that a drop asks; no
/// hint without a drag or before the daemon runs.
pub fn drop_hint(dragging: bool, running: bool, target_label: Option<String>) -> (hint: Option<String>)
    ensures
        !(dragging && running) ==> hint is None,
        dragging && running ==> (hint matches Some(h) && h@ == match target_label {
            Some(l) => l@,
            None => CHOOSE_LABEL@,
        }),
{
    if !dragging || !running {
        return None;
    }
    match target_label {
        Some(label) => Some(label),
        None => Some(owned(CHOOSE_LABEL)),
    }
}

/// The chooser for dropped files: what it asks, and the devices to choose
/// from, by id and name.
#[derive(Debug)]
pub struct Chooser {
    /// "Send file", or "Send {n} files".
    pub title: String,
    /// The file's name, for one file: it can be any length, so it goes
    /// under the title and wraps.
    pub name: Option<String>,
    /// "Choose the device to send to:", or that none can take files.
    pub note: String,
    pub devices: Vec<(String, String)>,
}

/// The chooser for `paths` dropped, listing `devices` (those that would
/// take them now, by id and name: [`recipients`]).
pub fn chooser(paths: &Vec<String>, devices: Vec<(String, String)>) -> (c: Chooser)
    ensures
        paths@.len() == 1 ==> c.title@ == "Send file"@ && (c.name matches Some(n) && n@ == file_name_of(paths@[0]@)),
        paths@.len() != 1 ==> c.title@ == "Send "@ + decimal(paths@.len()) + " files"@ && c.name is None,
        devices@.len() == 0 ==> c.note@ == "No paired device is connected and able to receive files."@,
        devices@.len() > 0 ==> c.note@ == "Choose the device to send to:"@,
        c.devices@ == devices@,
{
    let (title, name) = if paths.len() == 1 {
        (owned("Send file"), Some(file_name(paths[0].as_str())))
    } else {
        (join3("Send ", decimal_string(paths.len() as u64).as_str(), " files"), None)
    };
    let note = if devices.len() == 0 {
        owned("No paired device is connected and able to receive files.")
    } else {
        owned("Choose the device to send to:")
    };
    Chooser { title, name, note, devices }
}

/// Whether files dropped on `device`'s page would go somewhere.
pub open spec fn takes_drops(features: Features, device: DeviceSnapshot) -> bool {
    (match features.browse.drop_target_of(device, RouteView::Device(device.device_id@)) {
        Some(t) => Some(t),
        None => crate::share::drop_target_of(device),
    }) is Some
}

/// The paired devices that would take dropped files now (a feature takes
/// them on the device's page), by id and name, in order.
pub open spec fn recipients_of(paired: Seq<DeviceSnapshot>, features: Features) -> Seq<(Seq<char>, Seq<char>)>
    decreases paired.len(),
{
    if paired.len() == 0 {
        Seq::empty()
    } else {
        let rest = recipients_of(paired.drop_last(), features);
        let d = paired.last();
        if takes_drops(features, d) { rest.push((d.device_id@, d.device_name@)) } else { rest }
    }
}

/// The paired devices (`paired`) that would take dropped files now, by id
/// and name.
pub fn recipients(paired: &Vec<DeviceSnapshot>, features: &Features) -> (r: Vec<(String, String)>)
    ensures
        r@.map_values(|d: (String, String)| (d.0@, d.1@)) == recipients_of(paired@, *features),
{
    let mut r: Vec<(String, String)> = Vec::new();
    let mut i: usize = 0;
    assert(paired@.take(0) =~= Seq::<DeviceSnapshot>::empty());
    while i < paired.len()
        invariant
            i <= paired@.len(),
            r@.map_values(|d: (String, String)| (d.0@, d.1@)) == recipients_of(paired@.take(i as int), *features),
        decreases paired@.len() - i,
    {
        let device = &paired[i];
        assert(paired@.take(i + 1).drop_last() =~= paired@.take(i as int));
        assert(paired@.take(i + 1).last() == *device);
        let route = Route::Device(owned(device.device_id.as_str()));
        let target = features.drop_target(device, &route);
        if target.is_some() {
            let ghost before = r@.map_values(|d: (String, String)| (d.0@, d.1@));
            r.push((owned(device.device_id.as_str()), owned(device.device_name.as_str())));
            assert(r@.map_values(|d: (String, String)| (d.0@, d.1@)) =~= before.push((device.device_id@, device.device_name@)));
        }
        i = i + 1;
    }
    assert(paired@.take(paired@.len() as int) =~= paired@);
    r
}

/// Whether `path` is one of `paths` given as a file.
pub open spec fn file_among(paths: Seq<(String, bool)>, path: Seq<char>) -> bool {
    exists|i: int| 0 <= i < paths.len() && (#[trigger] paths[i]).1 && paths[i].0@ == path
}

/// Every dropped path that is a file is sent, and nothing else is.
pub proof fn every_dropped_file_is_sent(paths: Seq<(String, bool)>)
    ensures
        forall|i: int| 0 <= i < paths.len() && (#[trigger] paths[i]).1 ==> files_in(paths).contains(paths[i].0@),
        forall|j: int| 0 <= j < files_in(paths).len() ==> file_among(paths, #[trigger] files_in(paths)[j]),
    decreases paths.len(),
{
    if paths.len() > 0 {
        let init = paths.drop_last();
        let rest = files_in(init);
        every_dropped_file_is_sent(init);
        assert forall|i: int| 0 <= i < paths.len() && (#[trigger] paths[i]).1 implies files_in(paths).contains(paths[i].0@) by {
            if i < init.len() {
                assert(init[i] == paths[i]);
                let k = choose|k: int| 0 <= k < rest.len() && rest[k] == init[i].0@;
                if paths.last().1 {
                    assert(rest.push(paths.last().0@)[k] == rest[k]);
                }
            } else {
                assert(files_in(paths)[files_in(paths).len() - 1] == paths[i].0@);
            }
        }
        assert forall|j: int| 0 <= j < files_in(paths).len() implies file_among(paths, #[trigger] files_in(paths)[j]) by {
            if j < rest.len() {
                if paths.last().1 {
                    assert(rest.push(paths.last().0@)[j] == rest[j]);
                }
                assert(file_among(init, files_in(init)[j]));
                let i = choose|i: int| 0 <= i < init.len() && (#[trigger] init[i]).1 && init[i].0@ == rest[j];
                assert(paths[i] == init[i]);
            } else {
                assert(paths[paths.len() - 1].1);
                assert(files_in(paths)[j] == paths[paths.len() - 1].0@);
            }
        }
    }
}

} // verus!
