//! The prompt for an incoming pairing request, over every page while one
//! waits for the user: what it says and whether it can be answered.
//!
//! It is drawn from the pending requests rather than opened like a dialog,
//! so it goes away by itself when the request is resolved anywhere else.

use vstd::prelude::*;
use crate::text::{owned, join2, decimal, decimal_string};
use crate::route::{opt_text, copy_opt};

verus! {

/// An incoming pairing request waiting for the user.
#[derive(Debug, Clone)]
pub struct PairingSnapshot {
    /// The request's id.
    pub id: u128,
    pub device_id: String,
    pub device_name: String,
    /// The code both devices show, to compare.
    pub verification_code: Option<String>,
}

/// What the prompt shows.
#[derive(Debug)]
pub struct Prompt {
    /// The request it asks about.
    pub request: u128,
    pub title: String,
    pub text: String,
    /// The code to compare, if the request has one.
    pub code: Option<String>,
    /// How many more requests wait, when some do.
    pub waiting: Option<String>,
    /// Why the last answer failed.
    pub error: Option<String>,
    /// Whether Accept and Reject can be pressed: not while an answer is on
    /// its way.
    pub answerable: bool,
}

/// The prompt for the oldest of `pending` (oldest first), if any. While
/// `busy`, its answers are disabled; `error` is why the last answer failed.
pub fn view(pending: &[PairingSnapshot], busy: bool, error: Option<&str>) -> (prompt: Option<Prompt>)
    ensures
        pending@.len() == 0 <==> prompt is None,
        prompt matches Some(p) ==> {
            let first = pending@[0];
            &&& p.request == first.id
            &&& p.title@ == "Pairing request"@
            &&& p.text@ == first.device_name@ + " wants to pair with this computer. Accept only if it shows the same code:"@
            &&& opt_text(p.code) == opt_text(first.verification_code)
            &&& opt_text(p.waiting) == if pending@.len() > 1 {
                    Some(decimal((pending@.len() - 1) as nat) + " more request(s) waiting"@)
                } else {
                    None
                }
            &&& opt_text(p.error) == match error { Some(e) => Some(e@), None => None }
            &&& p.answerable == !busy
        },
{
    if pending.len() == 0 {
        return None;
    }
    let first = &pending[0];
    let queued = pending.len() - 1;
    let waiting = if queued > 0 {
        let mut w = decimal_string(queued as u64);
        w.append(" more request(s) waiting");
        Some(w)
    } else {
        None
    };
    Some(Prompt {
        request: first.id,
        title: owned("Pairing request"),
        text: join2(first.device_name.as_str(), " wants to pair with this computer. Accept only if it shows the same code:"),
        code: copy_opt(&first.verification_code),
        waiting,
        error: match error { Some(e) => Some(owned(e)), None => None },
        answerable: !busy,
    })
}

} // verus!
