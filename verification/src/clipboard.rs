//! The clipboard feature's UI: the *Send clipboard* action, what sending it
//! reports, and the "Sync clipboard" setting's errors.

use vstd::prelude::*;
use crate::device::{DeviceSnapshot, names, connected, has_capability, is_connected};
use crate::error::{CoreError, error_code, code_message, describe_code};
use crate::features::{Feature, FeatureView, DeviceAction, DeviceActionView, Icon, actions_view};
use crate::text::{owned, same, join2, join3};

use crate::words::{Words, WordsView, plain, message};
use crate::error::{code_words, code_words_of};

verus! {

/// The packet type clipboard text is sent as.
pub const PACKET_TYPE: &'static str = "kdeconnect.clipboard";

#[derive(Debug)]
pub enum Message {
    /// Send this computer's clipboard to the device. Carries its name for
    /// the toast, since the device may be gone by the time it is sent.
    Send { device_id: String, name: String },
    /// How sending went: what to say, or why it failed, and to which
    /// device.
    Sent { name: String, result: Result<String, String> },
    /// Turn syncing on or off.
    SetSync(bool),
    /// Why changing the setting failed, if it did.
    SyncSaved(Option<String>),
}

impl Clone for Message {
    fn clone(&self) -> (copy: Self)
        ensures
            copy@ == self@,
    {
        match self {
            Message::Send { device_id, name } => Message::Send { device_id: owned(device_id.as_str()), name: owned(name.as_str()) },
            Message::Sent { name, result } => Message::Sent {
                name: owned(name.as_str()),
                result: match result {
                    Ok(text) => Ok(owned(text.as_str())),
                    Err(error) => Err(owned(error.as_str())),
                },
            },
            Message::SetSync(on) => Message::SetSync(*on),
            Message::SyncSaved(error) => Message::SyncSaved(crate::route::copy_opt(error)),
        }
    }
}

pub enum MessageView {
    Send { device_id: Seq<char>, name: Seq<char> },
    Sent { name: Seq<char>, result: Result<Seq<char>, Seq<char>> },
    SetSync(bool),
    SyncSaved(Option<Seq<char>>),
}

impl View for Message {
    type V = MessageView;

    open spec fn view(&self) -> MessageView {
        match *self {
            Message::Send { device_id, name } => MessageView::Send { device_id: device_id@, name: name@ },
            Message::Sent { name, result } => MessageView::Sent {
                name: name@,
                result: match result { Ok(t) => Ok(t@), Err(e) => Err(e@) },
            },
            Message::SetSync(on) => MessageView::SetSync(on),
            Message::SyncSaved(error) => MessageView::SyncSaved(crate::route::opt_text(error)),
        }
    }
}

/// Why the clipboard couldn't be sent.
#[derive(Debug, Clone, Copy, PartialEq, Eq, Structural)]
pub enum ClipboardSyncError {
    /// There is no text on the clipboard.
    Empty,
    /// The text is longer than a packet takes.
    TextTooLarge { limit: usize },
    Core(CoreError),
}

pub open spec fn sync_code(error: ClipboardSyncError) -> Seq<char> {
    match error {
        ClipboardSyncError::Empty => "clipboard_empty"@,
        ClipboardSyncError::TextTooLarge { .. } => "clipboard_text_too_large"@,
        ClipboardSyncError::Core(error) => error_code(error),
    }
}

impl ClipboardSyncError {
    /// The error's code, as the HTTP API reports it.
    pub fn code(&self) -> (code: &'static str)
        ensures
            code@ == sync_code(*self),
    {
        match self {
            ClipboardSyncError::Empty => "clipboard_empty",
            ClipboardSyncError::TextTooLarge { .. } => "clipboard_text_too_large",
            ClipboardSyncError::Core(error) => error.code(),
        }
    }
}

/// This feature's sentence for `code`; other codes as the core words them.
pub open spec fn clipboard_message(code: Seq<char>) -> Seq<char> {
    if code == "clipboard_empty"@ {
        "There is no text on the clipboard to send."@
    } else if code == "clipboard_text_too_large"@ {
        "The clipboard text is too long to send."@
    } else {
        code_message(code)
    }
}

/// This feature's message for `code`, in the app's `.ftl` files; other
/// codes' as the core has them.
pub open spec fn clipboard_words_of(code: Seq<char>) -> WordsView {
    if code == "clipboard_empty"@ {
        plain("clipboard-error-clipboard_empty"@)
    } else if code == "clipboard_text_too_large"@ {
        plain("clipboard-error-clipboard_text_too_large"@)
    } else {
        code_words_of(code)
    }
}

/// The message for `error`, for the shell to put in the user's language.
pub fn error_words(error: &ClipboardSyncError) -> (w: Words)
    ensures
        w@ == clipboard_words_of(sync_code(*error)),
{
    let code = error.code();
    if same(code, "clipboard_empty") {
        message("clipboard-error-clipboard_empty")
    } else if same(code, "clipboard_text_too_large") {
        message("clipboard-error-clipboard_text_too_large")
    } else {
        code_words(code)
    }
}

/// A sentence for the user about `error`.
pub fn describe_error(error: &ClipboardSyncError) -> (sentence: String)
    ensures
        sentence@ == clipboard_message(sync_code(*error)),
{
    describe(error.code())
}

/// Words this feature's codes and leaves the rest to the core's wording.
pub fn describe(code: &str) -> (sentence: String)
    ensures
        sentence@ == clipboard_message(code@),
{
    if same(code, "clipboard_empty") {
        owned("There is no text on the clipboard to send.")
    } else if same(code, "clipboard_text_too_large") {
        owned("The clipboard text is too long to send.")
    } else {
        describe_code(code)
    }
}

/// Whether the device takes clipboard text at all.
pub open spec fn supported(device: DeviceSnapshot) -> bool {
    names(device.incoming_capabilities@, PACKET_TYPE@)
}

/// The action: listed for a device that takes clipboard text at all,
/// enabled while it is paired and connected.
pub open spec fn actions(device: DeviceSnapshot) -> Seq<DeviceActionView> {
    if !supported(device) {
        Seq::empty()
    } else {
        seq![DeviceActionView {
            id: "send-clipboard"@,
            label: "Send clipboard"@,
            icon: Icon::ClipboardPaste,
            enabled: device.paired && connected(device),
            visible_in_tray: true,
            message: FeatureView::Clipboard(MessageView::Send { device_id: device.device_id@, name: device.device_name@ }),
        }]
    }
}

/// The *Send clipboard* action for `device`, if it takes clipboard text.
pub fn device_actions(device: &DeviceSnapshot) -> (r: Vec<DeviceAction>)
    ensures
        actions_view(r@) == actions(*device),
{
    if !has_capability(&device.incoming_capabilities, PACKET_TYPE) {
        let none: Vec<DeviceAction> = Vec::new();
        assert(actions_view(none@) =~= actions(*device));
        return none;
    }
    let action = DeviceAction {
        id: "send-clipboard",
        label: owned("Send clipboard"),
        icon: Icon::ClipboardPaste,
        enabled: device.paired && is_connected(device),
        visible_in_tray: true,
        message: Feature::Clipboard(Message::Send {
            device_id: owned(device.device_id.as_str()),
            name: owned(device.device_name.as_str()),
        }),
    };
    let r = vec![action];
    assert(actions_view(r@) =~= actions(*device));
    r
}

/// What sending the clipboard to `name` ended with: what to say, or why
/// it failed (`None`: the sending itself didn't finish).
pub fn sent(name: &str, result: Option<Result<(), ClipboardSyncError>>) -> (r: Result<String, String>)
    ensures
        match result {
            Some(Ok(())) => r matches Ok(t) && t@ == "Sent the clipboard to "@ + name@ + "."@,
            Some(Err(error)) => r matches Err(e) && e@ == clipboard_message(sync_code(error)),
            None => r matches Err(e) && e@ == code_message("internal"@),
        },
{
    match result {
        Some(Ok(())) => Ok(join3("Sent the clipboard to ", name, ".")),
        Some(Err(error)) => Err(describe_error(&error)),
        None => Err(describe_code("internal")),
    }
}

/// The report of a sending: the text, and a failure's title.
pub fn report(name: &str, result: &Result<String, String>) -> (r: (String, Option<String>))
    ensures
        match *result {
            Ok(text) => r.0@ == text@ && r.1 is None,
            Err(error) => r.0@ == error@
                && (r.1 matches Some(title) && title@ == "Couldn’t send the clipboard to "@ + name@),
        },
{
    match result {
        Ok(text) => (owned(text.as_str()), None),
        Err(error) => (owned(error.as_str()), Some(join2("Couldn’t send the clipboard to ", name))),
    }
}

} // verus!
