//! Share's UI half: the *Send files* action, and files dropped on a device
//! that takes them.

use vstd::prelude::*;
use crate::device::{DeviceSnapshot, names, connected, has_capability, is_connected};
use crate::error::{CoreError, error_code, code_message, describe_code, describe_error as describe_core_error,
    FileBatch, failures_message, failure_views, describe_file_failures};
use crate::features::{Feature, FeatureView, DeviceAction, DeviceActionView, Icon, actions_view,
    DropTarget, DropTargetView, DropAction, DropActionView};
use crate::text::{owned, join2};

verus! {

/// The packet type files are sent as.
pub const PACKET_TYPE: &'static str = "kdeconnect.share.request";

#[derive(Debug, Clone)]
pub enum Message {
    /// Pick files to send to the device. Carries its name for the picker's
    /// title.
    Pick { device_id: String, name: String },
    /// Send these files to the device, one at a time. Carries its name for
    /// the report.
    Send { device_id: String, name: String, paths: Vec<String> },
    /// The files are sent, or the sentence about those that failed.
    Sent { name: String, failures: Option<String> },
}

pub enum MessageView {
    Pick { device_id: Seq<char>, name: Seq<char> },
    Send { device_id: Seq<char>, name: Seq<char>, paths: Seq<Seq<char>> },
    Sent { name: Seq<char>, failures: Option<Seq<char>> },
}

impl View for Message {
    type V = MessageView;

    open spec fn view(&self) -> MessageView {
        match *self {
            Message::Pick { device_id, name } => MessageView::Pick { device_id: device_id@, name: name@ },
            Message::Send { device_id, name, paths } => MessageView::Send {
                device_id: device_id@,
                name: name@,
                paths: paths@.map_values(|p: String| p@),
            },
            Message::Sent { name, failures } => MessageView::Sent { name: name@, failures: crate::route::opt_text(failures) },
        }
    }
}

/// Why a file wasn't sent: the core's answer, or the file itself (with
/// the reason the system gave).
#[derive(Debug, Clone)]
pub enum SendPathError {
    Core(CoreError),
    File(String),
}

/// Whether a file sent now would be accepted.
pub open spec fn takes_files(device: DeviceSnapshot) -> bool {
    connected(device) && names(device.incoming_capabilities@, PACKET_TYPE@)
}

/// Whether a file sent now would be accepted.
pub fn accepts_files(device: &DeviceSnapshot) -> (r: bool)
    ensures
        r == takes_files(*device),
{
    is_connected(device) && has_capability(&device.incoming_capabilities, PACKET_TYPE)
}

/// The action: listed for every device, enabled while it takes files.
pub open spec fn actions(device: DeviceSnapshot) -> Seq<DeviceActionView> {
    seq![DeviceActionView {
        id: "send-files"@,
        label: "Send files"@,
        icon: Icon::FileUp,
        enabled: takes_files(device),
        visible_in_tray: true,
        message: FeatureView::Share(MessageView::Pick { device_id: device.device_id@, name: device.device_name@ }),
    }]
}

/// The *Send files* action for `device`.
pub fn device_actions(device: &DeviceSnapshot) -> (r: Vec<DeviceAction>)
    ensures
        actions_view(r@) == actions(*device),
{
    let action = DeviceAction {
        id: "send-files",
        label: owned("Send files"),
        icon: Icon::FileUp,
        enabled: accepts_files(device),
        visible_in_tray: true,
        message: Feature::Share(Message::Pick {
            device_id: owned(device.device_id.as_str()),
            name: owned(device.device_name.as_str()),
        }),
    };
    let r = vec![action];
    assert(actions_view(r@) =~= actions(*device));
    r
}

/// Files dropped on a device that takes them are sent to it.
pub open spec fn drop_target_of(device: DeviceSnapshot) -> Option<DropTargetView> {
    if takes_files(device) {
        Some(DropTargetView {
            label: "Drop to send to "@ + device.device_name@,
            action: DropActionView::Send { device_id: device.device_id@, name: device.device_name@ },
        })
    } else {
        None
    }
}

/// Where files dropped on `device` go, if it takes them.
pub fn drop_target(device: &DeviceSnapshot) -> (r: Option<DropTarget>)
    ensures
        crate::features::target_view(r) == drop_target_of(*device),
{
    if !accepts_files(device) {
        return None;
    }
    Some(DropTarget {
        label: join2("Drop to send to ", device.device_name.as_str()),
        action: DropAction::Send {
            device_id: owned(device.device_id.as_str()),
            name: owned(device.device_name.as_str()),
        },
    })
}

/// What the picker asks: its title and its confirm button's label.
pub fn pick_request(name: &str) -> (r: (String, String))
    ensures
        r.0@ == "Send files to "@ + name@,
        r.1@ == "Send"@,
{
    (join2("Send files to ", name), owned("Send"))
}

/// Before sending: the failure to report when the device went away while
/// the user picked (its title and why), or nothing when it is connected.
pub fn check_still_connected(device: Option<&DeviceSnapshot>, name: &str) -> (r: Option<(String, String)>)
    ensures
        match device {
            Some(d) if connected(*d) => r is None,
            _ => r matches Some(f) && f.0@ == "Couldn’t send to "@ + name@
                && f.1@ == code_message("device_not_connected"@),
        },
{
    let connected = match device {
        Some(d) => is_connected(d),
        None => false,
    };
    if connected {
        None
    } else {
        Some((join2("Couldn’t send to ", name), describe_code("device_not_connected")))
    }
}

/// The sentence for a file that wasn't sent.
pub open spec fn send_error_message(error: SendPathError) -> Seq<char> {
    match error {
        SendPathError::Core(error) => code_message(error_code(error)),
        SendPathError::File(_) => "The file couldn’t be read."@,
    }
}

/// A sentence for the user about why a file wasn't sent.
pub fn describe(error: &SendPathError) -> (sentence: String)
    ensures
        sentence@ == send_error_message(*error),
{
    match error {
        SendPathError::Core(error) => describe_core_error(error),
        SendPathError::File(_) => owned("The file couldn’t be read."),
    }
}

/// The sentence about the files of a sending that failed, from each
/// file's path and what sending it gave: none when every file was sent.
pub fn sent_failures(results: &Vec<(String, Result<(), SendPathError>)>) -> (r: Option<String>)
    ensures
        match r {
            Some(s) => failures_message(FileBatch::Send, failed(results@)) == Some(s@),
            None => failures_message(FileBatch::Send, failed(results@)) is None,
        },
{
    let mut failures: Vec<(String, String)> = Vec::new();
    let mut i: usize = 0;
    while i < results.len()
        invariant
            i <= results@.len(),
            failure_views(failures@) == failed(results@.take(i as int)),
        decreases results@.len() - i,
    {
        let (path, result) = &results[i];
        assert(results@.take(i + 1).drop_last() =~= results@.take(i as int));
        match result {
            Ok(()) => {}
            Err(error) => {
                let ghost before = failures@;
                failures.push((owned(path.as_str()), describe(error)));
                assert(failure_views(failures@) =~= failure_views(before).push((path@, send_error_message(*error))));
            }
        }
        i = i + 1;
    }
    assert(results@.take(results@.len() as int) =~= results@);
    describe_file_failures(FileBatch::Send, failures.as_slice())
}

/// The files that failed, each with the sentence for why.
pub open spec fn failed(results: Seq<(String, Result<(), SendPathError>)>) -> Seq<(Seq<char>, Seq<char>)>
    decreases results.len(),
{
    if results.len() == 0 {
        Seq::empty()
    } else {
        let rest = failed(results.drop_last());
        match results.last().1 {
            Ok(()) => rest,
            Err(error) => rest.push((results.last().0@, send_error_message(error))),
        }
    }
}

/// What a sending reports once done: nothing when every file went, else
/// the sentence about those that failed, under "Couldn’t send to {name}",
/// as (title, text).
pub fn sent_report(name: &str, failures: Option<String>) -> (r: Option<(String, String)>)
    ensures
        match failures {
            Some(text) => r matches Some(f) && f.0@ == "Couldn’t send to "@ + name@ && f.1@ == text@,
            None => r is None,
        },
{
    match failures {
        Some(text) => Some((join2("Couldn’t send to ", name), text)),
        None => None,
    }
}

} // verus!
