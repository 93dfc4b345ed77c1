//! Find my phone's UI: the *Ring* action.

use vstd::prelude::*;
use crate::device::{DeviceSnapshot, names, connected, has_capability, is_connected};
use crate::error::{CoreError, error_code, code_message, describe_error};
use crate::text::{join2, join3};
use crate::words::{Words, WordsView, ArgView, plain, with_arg, message, with_text};
use crate::error::{error_words, code_words_of};

verus! {

/// The packet type a request to ring is sent as.
pub const REQUEST_PACKET_TYPE: &'static str = "kdeconnect.findmyphone.request";

#[derive(Debug, Clone)]
pub enum Message {
    /// Ask the device to ring. Carries its name for the toast, since the
    /// device may be gone by the time the answer arrives.
    Ring { device_id: String, name: String },
}

pub enum MessageView {
    Ring { device_id: Seq<char>, name: Seq<char> },
}

impl View for Message {
    type V = MessageView;

    open spec fn view(&self) -> MessageView {
        match *self {
            Message::Ring { device_id, name } => MessageView::Ring { device_id: device_id@, name: name@ },
        }
    }
}

/// Whether the device says it can ring.
pub open spec fn says_it_rings(device: DeviceSnapshot) -> bool {
    names(device.incoming_capabilities@, REQUEST_PACKET_TYPE@)
}

/// Whether a request to ring sent now would be accepted.
pub open spec fn rings(device: DeviceSnapshot) -> bool {
    connected(device) && says_it_rings(device)
}

/// Whether a request to ring sent now would be accepted.
pub fn can_ring(device: &DeviceSnapshot) -> (r: bool)
    ensures
        r == rings(*device),
{
    is_connected(device) && advertises_ring(device)
}

/// Whether the device says it can ring.
pub fn advertises_ring(device: &DeviceSnapshot) -> (r: bool)
    ensures
        r == says_it_rings(*device),
{
    has_capability(&device.incoming_capabilities, REQUEST_PACKET_TYPE)
}

/// What asking a device to ring reports: "Asked {name} to ring." when it
/// was sent, else a failure's title and why.
pub fn report(name: &str, sent: Result<(), CoreError>) -> (r: (String, Option<String>))
    ensures
        match sent {
            Ok(()) => r.0@ == "Asked "@ + name@ + " to ring."@ && r.1 is None,
            Err(error) => r.0@ == code_message(error_code(error))
                && (r.1 matches Some(title) && title@ == "Couldn’t ring "@ + name@),
        },
{
    match sent {
        Ok(()) => (join3("Asked ", name, " to ring."), None),
        Err(error) => (describe_error(&error), Some(join2("Couldn’t ring ", name))),
    }
}

/// The *Ring* action's label, as a message of the app's `.ftl` files.
pub fn action_words() -> (w: Words)
    ensures
        w@ == plain("findmyphone-action"@),
{
    message("findmyphone-action")
}

/// What asking a device to ring reports, as messages: that it was asked,
/// else a failure's title and why.
pub fn report_words(name: &str, sent: Result<(), CoreError>) -> (r: (Words, Option<Words>))
    ensures
        match sent {
            Ok(()) => r.0@ == with_arg("findmyphone-sent"@, "name"@, ArgView::Text(name@)) && r.1 is None,
            Err(error) => r.0@ == code_words_of(error_code(error))
                && (r.1 matches Some(title) && title@ == with_arg("findmyphone-failed"@, "name"@, ArgView::Text(name@))),
        },
{
    match sent {
        Ok(()) => (with_text("findmyphone-sent", "name", name), None),
        Err(error) => (error_words(&error), Some(with_text("findmyphone-failed", "name", name))),
    }
}

} // verus!
