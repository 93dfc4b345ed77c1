//! Ping's UI half: the *Ping* action, and what a received ping shows.

use vstd::prelude::*;
use crate::device::{DeviceSnapshot, names, connected, has_capability, is_connected};
use crate::error::{CoreError, error_code, code_message, describe_error};
use crate::text::{owned, join2, join3};

verus! {

/// The packet type a ping is sent as.
pub const PACKET_TYPE: &'static str = "kdeconnect.ping";

#[derive(Debug, Clone)]
pub enum Message {
    /// Ping the device. Carries its name for the toast, since the device
    /// may be gone by the time the answer arrives.
    Ping { device_id: String, name: String },
}

pub enum MessageView {
    Ping { device_id: Seq<char>, name: Seq<char> },
}

impl View for Message {
    type V = MessageView;

    open spec fn view(&self) -> MessageView {
        match *self {
            Message::Ping { device_id, name } => MessageView::Ping { device_id: device_id@, name: name@ },
        }
    }
}

/// Whether a ping sent now would be accepted.
pub open spec fn takes_pings(device: DeviceSnapshot) -> bool {
    connected(device) && names(device.incoming_capabilities@, PACKET_TYPE@)
}

/// Whether a ping sent now would be accepted.
pub fn accepts_pings(device: &DeviceSnapshot) -> (r: bool)
    ensures
        r == takes_pings(*device),
{
    is_connected(device) && has_capability(&device.incoming_capabilities, PACKET_TYPE)
}

/// The desktop notification a received ping shows: the device's name,
/// and its message, or "Ping!" without one.
pub fn notification(device_name: &str, message: Option<&str>) -> (r: (String, String))
    ensures
        r.0@ == device_name@,
        r.1@ == match message { Some(m) => m@, None => "Ping!"@ },
{
    let body = match message {
        Some(message) => owned(message),
        None => owned("Ping!"),
    };
    (owned(device_name), body)
}

/// What pinging reports: "Pinged {name}." when it was sent, else a
/// failure's title and why.
pub fn report(name: &str, sent: Result<(), CoreError>) -> (r: (String, Option<String>))
    ensures
        match sent {
            Ok(()) => r.0@ == "Pinged "@ + name@ + "."@ && r.1 is None,
            Err(error) => r.0@ == code_message(error_code(error))
                && (r.1 matches Some(title) && title@ == "Couldn’t ping "@ + name@),
        },
{
    match sent {
        Ok(()) => (join3("Pinged ", name, "."), None),
        Err(error) => (describe_error(&error), Some(join2("Couldn’t ping ", name))),
    }
}

} // verus!
