//! The questions the shell's own pages ask: this computer's name, a
//! device's address, whether to unpair; and what a failed open says.

use vstd::prelude::*;
use crate::dialog::{Dialog, Field, Submit};
use crate::route::opt_text;
use crate::text::{owned, join2, join3};

verus! {

/// The most characters this computer's name takes.
pub const NAME_MAX: usize = 32;

/// Ask for a new name for this computer, starting from `current`. It
/// stays open, with the daemon's objection under the field, until a name
/// is accepted.
pub fn rename_prompt(current: String) -> (d: Dialog)
    ensures
        d.title@ == "Device name"@,
        d.body is None,
        d.confirm_label@ == "Save"@,
        d.submit == Submit::Run,
        !d.danger && !d.busy && d.error is None,
        d.field matches Some(f) && f.value@ == current@ && f.label is None && f.hint is None
            && opt_text(f.helper) == Some("How this computer appears on your other devices"@)
            && f.max_len == Some(NAME_MAX) && !f.validated && f.selection is None,
{
    let field = Field {
        value: current,
        label: None,
        hint: None,
        helper: Some(owned("How this computer appears on your other devices")),
        max_len: Some(NAME_MAX),
        validated: false,
        selection: None,
    };
    Dialog::prompt(owned("Device name"), field, owned("Save"), Submit::Run)
}

/// Ask for a device's IP address, to announce this computer to it. It
/// stays open with the reason until the address is accepted.
pub fn address_prompt() -> (d: Dialog)
    ensures
        d.title@ == "Add by IP address"@,
        d.body is None,
        d.confirm_label@ == "Add"@,
        d.submit == Submit::Run,
        !d.danger && !d.busy && d.error is None,
        d.field matches Some(f) && f.value@.len() == 0
            && opt_text(f.label) == Some("IP address"@)
            && opt_text(f.hint) == Some("192.168.1.20"@)
            && opt_text(f.helper) == Some("Ferry or KDE Connect must be running on that device. It appears in the list once it answers."@)
            && f.max_len is None && !f.validated && f.selection is None,
{
    let field = Field {
        value: String::new(),
        label: Some(owned("IP address")),
        hint: Some(owned("192.168.1.20")),
        helper: Some(owned("Ferry or KDE Connect must be running on that device. It appears in the list once it answers.")),
        max_len: None,
        validated: false,
        selection: None,
    };
    Dialog::prompt(owned("Add by IP address"), field, owned("Add"), Submit::Run)
}

/// Ask before unpairing the device named `name`; confirming closes the
/// dialog and forgets it.
pub fn unpair_confirmation(name: &str) -> (d: Dialog)
    ensures
        d.title@ == "Unpair "@ + name@ + "?"@,
        opt_text(d.body) == Some("The device will need to be paired again before it can exchange anything with this computer."@),
        d.field is None,
        d.confirm_label@ == "Unpair"@,
        d.submit == Submit::Close,
        d.danger && !d.busy && d.error is None,
{
    Dialog::confirm(
        join3("Unpair ", name, "?"),
        owned("The device will need to be paired again before it can exchange anything with this computer."),
        owned("Unpair"),
        Submit::Close,
    ).danger()
}

/// What a file or a link that couldn't be opened says.
pub fn open_failed(what: &str) -> (toast: String)
    ensures
        toast@ == "Couldn’t open "@ + what@,
{
    join2("Couldn’t open ", what)
}

} // verus!
