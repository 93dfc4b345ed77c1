//! Modal dialogs: a question to confirm, or a line of text to type.
//!
//! One shows at a time; others wait their turn. A dialog either closes as
//! soon as it is submitted ([`Submit::Close`]), or stays open and busy while
//! its work runs and shows the work's error under the field
//! ([`Submit::Run`]). What the value means (the message it makes, the work
//! it starts, the check it must pass) is the shell's: the dialogs say when.

use vstd::prelude::*;
use crate::route::{opt_text, copy_opt};
use crate::text::{owned, decimal, decimal_string, join3};
use crate::words::{Words, ArgView, Arg, plain, with_args, message, with_two};

verus! {

/// What the user did in the dialog.
#[derive(Debug, Clone)]
pub enum DialogEvent {
    Input(String),
    Submit,
    Cancel,
}

/// A line of text the dialog asks for.
#[derive(Debug, Clone)]
pub struct Field {
    pub value: String,
    pub label: Option<String>,
    /// Placeholder text while the field is empty.
    pub hint: Option<String>,
    /// A line under the field while there is no error.
    pub helper: Option<String>,
    /// Characters allowed, shown as a counter.
    pub max_len: Option<usize>,
    /// Whether the value is checked on submit ([`Dialogs::checked`]).
    pub validated: bool,
    /// The characters of `value` selected when the dialog opens (start and
    /// end); without it, the cursor is at the end.
    pub selection: Option<(usize, usize)>,
}

/// What submitting does.
#[derive(Debug, Clone, Copy, PartialEq, Eq, Structural)]
pub enum Submit {
    /// Close the dialog and send the message made from the field's text
    /// (empty for a confirmation).
    Close,
    /// Keep the dialog open, busy, while the work runs.
    Run,
}

#[derive(Debug, Clone)]
pub struct Dialog {
    pub title: String,
    pub body: Option<String>,
    pub field: Option<Field>,
    pub confirm_label: String,
    pub submit: Submit,
    /// Destructive: the confirm button says so.
    pub danger: bool,
    pub busy: bool,
    pub error: Option<String>,
}

/// What the shell must do after a [`DialogEvent`] or a check.
#[derive(Debug)]
pub enum Step {
    Nothing,
    /// Check this value with the dialog's validator, then call
    /// [`Dialogs::checked`].
    Check(String),
    /// The dialog numbered `id` closed with this value for its owner.
    Send { id: u64, value: String },
    /// Run the work of the dialog numbered `id` on this value; it reports
    /// back through [`Dialogs::finished`].
    Run { id: u64, value: String },
}

/// The dialog showing and the ones waiting, oldest first.
#[derive(Debug)]
pub struct Dialogs {
    pub queue: Vec<(u64, Dialog)>,
    pub next_id: u64,
}

/// The first `max` characters of `value`, or all of it without a limit.
pub open spec fn limited(value: Seq<char>, max: Option<usize>) -> Seq<char> {
    match max {
        Some(max) => if value.len() > max { value.take(max as int) } else { value },
        None => value,
    }
}

/// The field's text, or nothing for a confirmation.
pub open spec fn value_of(dialog: Dialog) -> Seq<char> {
    match dialog.field {
        Some(field) => field.value@,
        None => Seq::empty(),
    }
}

/// Whether the dialog's value is checked before it is submitted.
pub open spec fn validated(dialog: Dialog) -> bool {
    match dialog.field {
        Some(field) => field.validated,
        None => false,
    }
}

pub open spec fn ids(queue: Seq<(u64, Dialog)>) -> Seq<u64> {
    queue.map_values(|entry: (u64, Dialog)| entry.0)
}

impl Dialog {
    /// Ask before doing something.
    pub fn confirm(title: String, body: String, confirm_label: String, submit: Submit) -> (d: Self)
        ensures
            d.title@ == title@,
            opt_text(d.body) == Some(body@),
            d.field is None,
            d.confirm_label@ == confirm_label@,
            d.submit == submit,
            !d.danger && !d.busy && d.error is None,
    {
        Dialog { title, body: Some(body), field: None, confirm_label, submit, danger: false, busy: false, error: None }
    }

    /// Ask for a line of text.
    pub fn prompt(title: String, field: Field, confirm_label: String, submit: Submit) -> (d: Self)
        ensures
            d.title@ == title@,
            d.body is None,
            d.field == Some(field),
            d.confirm_label@ == confirm_label@,
            d.submit == submit,
            !d.danger && !d.busy && d.error is None,
    {
        Dialog { title, body: None, field: Some(field), confirm_label, submit, danger: false, busy: false, error: None }
    }

    /// Text between the title and the field.
    pub fn with_body(self, body: String) -> (d: Self)
        ensures
            opt_text(d.body) == Some(body@),
            d.title == self.title && d.field == self.field && d.submit == self.submit
                && d.danger == self.danger && d.busy == self.busy && d.error == self.error
                && d.confirm_label == self.confirm_label,
    {
        Dialog { body: Some(body), ..self }
    }

    /// Destructive: the confirm button says so.
    pub fn danger(self) -> (d: Self)
        ensures
            d.danger,
            d.title == self.title && d.field == self.field && d.submit == self.submit
                && d.body == self.body && d.busy == self.busy && d.error == self.error
                && d.confirm_label == self.confirm_label,
    {
        Dialog { danger: true, ..self }
    }

    pub fn is_busy(&self) -> (r: bool)
        ensures
            r == self.busy,
    {
        self.busy
    }

    pub fn error(&self) -> (r: Option<&str>)
        ensures
            match (r, self.error) {
                (Some(r), Some(e)) => r@ == e@,
                (None, None) => true,
                _ => false,
            },
    {
        match &self.error {
            Some(e) => Some(e.as_str()),
            None => None,
        }
    }

    pub fn value(&self) -> (r: &str)
        ensures
            r@ == value_of(*self),
    {
        match &self.field {
            Some(field) => field.value.as_str(),
            None => {
                proof { reveal_strlit(""); }
                ""
            }
        }
    }
}

/// The line under a field: the error while there is one, in red (`true`),
/// else the field's helper.
pub fn field_note(field: &Field, error: Option<&str>) -> (note: Option<(String, bool)>)
    ensures
        match (error, field.helper) {
            (Some(e), _) => note matches Some((t, red)) && t@ == e@ && red,
            (None, Some(h)) => note matches Some((t, red)) && t@ == h@ && !red,
            (None, None) => note is None,
        },
{
    match (error, &field.helper) {
        (Some(e), _) => Some((owned(e), true)),
        (None, Some(h)) => Some((owned(h.as_str()), false)),
        (None, None) => None,
    }
}

/// The counter under a field with a limit: the characters typed, out of
/// how many it takes ("3/32").
pub fn field_counter(field: &Field) -> (counter: Option<String>)
    ensures
        match field.max_len {
            Some(max) => counter matches Some(c) && c@ == decimal(field.value@.len()) + "/"@ + decimal(max as nat),
            None => counter is None,
        },
{
    match field.max_len {
        Some(max) => {
            let count = field.value.unicode_len();
            let typed = decimal_string(count as u64);
            let most = decimal_string(max as u64);
            Some(join3(typed.as_str(), "/", most.as_str()))
        }
        None => None,
    }
}

/// The cancel button's label, as a message of the app's `.ftl` files.
pub fn cancel_words() -> (w: Words)
    ensures
        w@ == plain("dialog-cancel"@),
{
    message("dialog-cancel")
}

/// The counter under a field with a limit, as a message: the characters
/// typed, out of how many it takes.
pub fn counter_words(field: &Field) -> (counter: Option<Words>)
    ensures
        match field.max_len {
            Some(max) => counter matches Some(c) && c@ == with_args("dialog-counter"@,
                ("count"@, ArgView::Number(field.value@.len() as u64)), ("max"@, ArgView::Number(max as u64))),
            None => counter is None,
        },
{
    match field.max_len {
        Some(max) => {
            let count = field.value.unicode_len();
            Some(with_two("dialog-counter", ("count", Arg::Number(count as u64)), ("max", Arg::Number(max as u64))))
        }
        None => None,
    }
}

/// The first `max` characters of `value`.
fn limit(value: String, max: Option<usize>) -> (r: String)
    ensures
        r@ == limited(value@, max),
{
    match max {
        Some(max) => {
            if value.unicode_len() > max {
                owned(value.as_str().substring_char(0, max))
            } else {
                value
            }
        }
        None => value,
    }
}

impl Default for Dialogs {
    fn default() -> (d: Self)
        ensures
            d.queue@.len() == 0,
            d.next_id == 0,
    {
        Dialogs { queue: Vec::new(), next_id: 0 }
    }
}

impl Dialogs {
    /// Show `dialog`, or queue it behind the one showing. Returns whether
    /// it shows now, so its field takes the focus.
    pub fn open(&mut self, dialog: Dialog) -> (shows: bool)
        ensures
            final(self).queue@ == old(self).queue@.push((old(self).next_id, dialog)),
            final(self).next_id == (if old(self).next_id == u64::MAX { 0 } else { (old(self).next_id + 1) as u64 }),
            shows == (old(self).queue@.len() == 0),
    {
        let id = self.next_id;
        self.next_id = self.next_id.wrapping_add(1);
        self.queue.push((id, dialog));
        self.queue.len() == 1
    }

    /// The dialog showing: the oldest open.
    pub fn current(&self) -> (r: Option<&Dialog>)
        ensures
            match r {
                Some(d) => self.queue@.len() > 0 && *d == self.queue@[0].1,
                None => self.queue@.len() == 0,
            },
    {
        if self.queue.len() == 0 {
            None
        } else {
            Some(&self.queue[0].1)
        }
    }

    /// What the user did to the showing dialog.
    pub fn update(&mut self, event: DialogEvent) -> (step: Step)
        ensures
            final(self).next_id == old(self).next_id,
            old(self).queue@.len() == 0 ==> step is Nothing && final(self).queue@ == old(self).queue@,
            old(self).queue@.len() > 0 ==> {
                let (id, d) = old(self).queue@[0];
                match event {
                    DialogEvent::Input(v) => {
                        &&& step is Nothing
                        &&& final(self).queue@.len() == old(self).queue@.len()
                        &&& final(self).queue@.drop_first() == old(self).queue@.drop_first()
                        &&& final(self).queue@[0].0 == id
                        &&& {
                            let e = final(self).queue@[0].1;
                            &&& e.title == d.title && e.body == d.body && e.confirm_label == d.confirm_label
                            &&& e.submit == d.submit && e.danger == d.danger && e.busy == d.busy && e.error == d.error
                            &&& match (d.field, e.field) {
                                (Some(f), Some(g)) => g.value@ == (if d.busy { f.value@ } else { limited(v@, f.max_len) })
                                    && g.max_len == f.max_len && g.validated == f.validated
                                    && g.label == f.label && g.hint == f.hint && g.helper == f.helper
                                    && g.selection == f.selection,
                                (None, None) => true,
                                _ => false,
                            }
                        }
                    },
                    DialogEvent::Cancel => step is Nothing && final(self).queue@ == old(self).queue@.drop_first(),
                    DialogEvent::Submit => {
                        if d.busy {
                            step is Nothing && final(self).queue@ == old(self).queue@
                        } else if validated(d) {
                            (step matches Step::Check(v) && v@ == value_of(d)) && final(self).queue@ == old(self).queue@
                        } else {
                            submitted(old(self).queue@, final(self).queue@, step)
                        }
                    },
                }
            },
    {
        if self.queue.len() == 0 {
            return Step::Nothing;
        }
        match event {
            DialogEvent::Input(value) => {
                let (id, mut dialog) = self.queue.remove(0);
                if !dialog.busy {
                    match dialog.field {
                        Some(field) => {
                            let max_len = field.max_len;
                            dialog.field = Some(Field { value: limit(value, max_len), ..field });
                        }
                        None => {}
                    }
                }
                self.queue.insert(0, (id, dialog));
                proof {
                    assert(self.queue@.drop_first() =~= old(self).queue@.drop_first());
                }
                Step::Nothing
            }
            DialogEvent::Cancel => {
                self.queue.remove(0);
                assert(self.queue@ =~= old(self).queue@.drop_first());
                Step::Nothing
            }
            DialogEvent::Submit => {
                if self.queue[0].1.busy {
                    return Step::Nothing;
                }
                let validated = match &self.queue[0].1.field {
                    Some(field) => field.validated,
                    None => false,
                };
                if validated {
                    return Step::Check(owned(self.queue[0].1.value()));
                }
                self.submit()
            }
        }
    }

    /// The check of the showing dialog's value is done: with an error, the
    /// dialog shows it and stays; without one, the dialog is submitted.
    pub fn checked(&mut self, error: Option<String>) -> (step: Step)
        ensures
            final(self).next_id == old(self).next_id,
            old(self).queue@.len() == 0 || old(self).queue@[0].1.busy ==> step is Nothing && final(self).queue@ == old(self).queue@,
            old(self).queue@.len() > 0 && !old(self).queue@[0].1.busy ==> match error {
                Some(e) => {
                    &&& step is Nothing
                    &&& final(self).queue@.len() == old(self).queue@.len()
                    &&& final(self).queue@.drop_first() == old(self).queue@.drop_first()
                    &&& final(self).queue@[0] == (old(self).queue@[0].0, Dialog { error: Some(e), ..old(self).queue@[0].1 })
                },
                None => submitted(old(self).queue@, final(self).queue@, step),
            },
    {
        if self.queue.len() == 0 || self.queue[0].1.busy {
            return Step::Nothing;
        }
        match error {
            Some(error) => {
                let (id, dialog) = self.queue.remove(0);
                self.queue.insert(0, (id, Dialog { error: Some(error), ..dialog }));
                assert(self.queue@.drop_first() =~= old(self).queue@.drop_first());
                Step::Nothing
            }
            None => self.submit(),
        }
    }

    fn submit(&mut self) -> (step: Step)
        requires
            old(self).queue@.len() > 0,
            !old(self).queue@[0].1.busy,
        ensures
            final(self).next_id == old(self).next_id,
            submitted(old(self).queue@, final(self).queue@, step),
    {
        let value = owned(self.queue[0].1.value());
        match self.queue[0].1.submit {
            Submit::Close => {
                let (id, _) = self.queue.remove(0);
                assert(self.queue@ =~= old(self).queue@.drop_first());
                Step::Send { id, value }
            }
            Submit::Run => {
                let (id, dialog) = self.queue.remove(0);
                self.queue.insert(0, (id, Dialog { busy: true, error: None, ..dialog }));
                assert(self.queue@.drop_first() =~= old(self).queue@.drop_first());
                Step::Run { id, value }
            }
        }
    }

    /// The work of dialog `id` finished: on success the dialog closes
    /// (returns true: send the work's message); on failure it stays, no
    /// longer busy, with the error. Nothing happens if the dialog was
    /// cancelled meanwhile.
    pub fn finished(&mut self, id: u64, error: Option<String>) -> (closed: bool)
        ensures
            final(self).next_id == old(self).next_id,
            match position(ids(old(self).queue@), id) {
                None => !closed && final(self).queue@ == old(self).queue@,
                Some(k) => match error {
                    None => closed && final(self).queue@ == old(self).queue@.remove(k),
                    Some(e) => {
                        &&& !closed
                        &&& final(self).queue@.len() == old(self).queue@.len()
                        &&& forall|j: int| 0 <= j < old(self).queue@.len() && j != k ==> #[trigger] final(self).queue@[j] == old(self).queue@[j]
                        &&& final(self).queue@[k] == (id, Dialog { busy: false, error: Some(e), ..old(self).queue@[k].1 })
                    },
                },
            },
    {
        let mut i: usize = 0;
        while i < self.queue.len()
            invariant
                i <= self.queue@.len(),
                self.queue@ == old(self).queue@,
                self.next_id == old(self).next_id,
                forall|j: int| 0 <= j < i ==> #[trigger] self.queue@[j].0 != id,
            decreases self.queue@.len() - i,
        {
            if self.queue[i].0 == id {
                proof { lemma_position(ids(self.queue@), id, i as int, 0); }
                match error {
                    None => {
                        self.queue.remove(i);
                        return true;
                    }
                    Some(error) => {
                        let (key, dialog) = self.queue.remove(i);
                        self.queue.insert(i, (key, Dialog { busy: false, error: Some(error), ..dialog }));
                        return false;
                    }
                }
            }
            i = i + 1;
        }
        proof { lemma_no_position(ids(self.queue@), id, 0); }
        false
    }
}

/// What submitting the showing dialog did: closed it with its value, or
/// made it busy while its work runs on the value.
pub open spec fn submitted(before: Seq<(u64, Dialog)>, after: Seq<(u64, Dialog)>, step: Step) -> bool {
    let (id, d) = before[0];
    match d.submit {
        Submit::Close => (step matches Step::Send { id: sent, value } && sent == id && value@ == value_of(d))
            && after == before.drop_first(),
        Submit::Run => {
            &&& step matches Step::Run { id: ran, value } && ran == id && value@ == value_of(d)
            &&& after.len() == before.len()
            &&& after.drop_first() == before.drop_first()
            &&& after[0].0 == id
            &&& after[0].1.busy && after[0].1.error is None
            &&& after[0].1.field == d.field && after[0].1.title == d.title
        },
    }
}

/// Where `id` first is among `ids`, from `start`.
pub open spec fn position_from(ids: Seq<u64>, id: u64, start: int) -> Option<int>
    decreases ids.len() - start,
{
    if start < 0 || start >= ids.len() {
        None
    } else if ids[start] == id {
        Some(start)
    } else {
        position_from(ids, id, start + 1)
    }
}

/// Where `id` first is among `ids`.
pub open spec fn position(ids: Seq<u64>, id: u64) -> Option<int> {
    position_from(ids, id, 0)
}

proof fn lemma_position(ids: Seq<u64>, id: u64, k: int, start: int)
    requires
        0 <= start <= k < ids.len(),
        ids[k] == id,
        forall|j: int| start <= j < k ==> ids[j] != id,
    ensures
        position_from(ids, id, start) == Some(k),
    decreases k - start,
{
    if start < k {
        lemma_position(ids, id, k, start + 1);
    }
}

proof fn lemma_no_position(ids: Seq<u64>, id: u64, start: int)
    requires
        0 <= start,
        forall|j: int| start <= j < ids.len() ==> ids[j] != id,
    ensures
        position_from(ids, id, start) is None,
    decreases ids.len() - start,
{
    if start < ids.len() {
        lemma_no_position(ids, id, start + 1);
    }
}

/// The dialogs' numbers are below the next one to give, and rise along
/// the queue: no number occurs twice.
pub open spec fn numbered_apart(queue: Seq<(u64, Dialog)>, next: u64) -> bool {
    &&& forall|i: int| 0 <= i < queue.len() ==> (#[trigger] queue[i]).0 < next
    &&& forall|i: int, j: int| 0 <= i < j < queue.len() ==> (#[trigger] queue[i]).0 < (#[trigger] queue[j]).0
}

/// Opening a dialog, closing any of them and changing the showing one in
/// place keep the numbers apart, as long as fewer dialogs were opened than
/// a `u64` counts: a dialog is found by its number alone.
pub proof fn dialogs_are_numbered_apart(queue: Seq<(u64, Dialog)>, next: u64, dialog: Dialog, k: int,
    changed: Seq<(u64, Dialog)>)
    requires
        numbered_apart(queue, next),
    ensures
        next < u64::MAX ==> numbered_apart(queue.push((next, dialog)), (next + 1) as u64),
        0 <= k < queue.len() ==> numbered_apart(queue.remove(k), next),
        queue.len() > 0 && changed.len() == queue.len() && changed.drop_first() == queue.drop_first()
            && changed[0].0 == queue[0].0 ==> numbered_apart(changed, next),
{
    if next < u64::MAX {
        let pushed = queue.push((next, dialog));
        assert forall|i: int, j: int| 0 <= i < j < pushed.len() implies (#[trigger] pushed[i]).0 < (#[trigger] pushed[j]).0 by {
            assert(pushed[i] == queue[i]);
            if j < queue.len() { assert(pushed[j] == queue[j]); }
        }
        assert forall|i: int| 0 <= i < pushed.len() implies (#[trigger] pushed[i]).0 < (next + 1) as u64 by {
            if i < queue.len() { assert(pushed[i] == queue[i]); }
        }
    }
    if 0 <= k < queue.len() {
        let r = queue.remove(k);
        assert forall|i: int| 0 <= i < r.len() implies (#[trigger] r[i]).0 < next by {
            if i < k { assert(r[i] == queue[i]); } else { assert(r[i] == queue[i + 1]); }
        }
        assert forall|i: int, j: int| 0 <= i < j < r.len() implies (#[trigger] r[i]).0 < (#[trigger] r[j]).0 by {
            let a = if i < k { i } else { i + 1 };
            let b = if j < k { j } else { j + 1 };
            assert(r[i] == queue[a] && r[j] == queue[b]);
        }
    }
    if queue.len() > 0 && changed.len() == queue.len() && changed.drop_first() == queue.drop_first()
        && changed[0].0 == queue[0].0 {
        assert forall|i: int| 0 < i < changed.len() implies #[trigger] changed[i] == queue[i] by {
            assert(changed[i] == changed.drop_first()[i - 1]);
            assert(queue[i] == queue.drop_first()[i - 1]);
        }
        assert forall|i: int| 0 <= i < changed.len() implies (#[trigger] changed[i]).0 < next by {
            if i > 0 { assert(changed[i] == queue[i]); }
        }
        assert forall|i: int, j: int| 0 <= i < j < changed.len() implies (#[trigger] changed[i]).0 < (#[trigger] changed[j]).0 by {
            assert(changed[j] == queue[j]);
            if i > 0 { assert(changed[i] == queue[i]); }
        }
    }
}

/// Dialogs show one at a time: opening another while one shows queues it
/// behind, and the one showing stays.
pub proof fn dialogs_show_one_at_a_time(before: Seq<(u64, Dialog)>, entry: (u64, Dialog))
    requires
        before.len() > 0,
    ensures
        before.push(entry)[0] == before[0],
{
}

/// Work that finishes after its dialog was cancelled is ignored: with no
/// dialog numbered `id` left, nothing is found to close.
pub proof fn work_finishing_after_cancel_is_ignored(queue: Seq<(u64, Dialog)>, id: u64)
    requires
        forall|j: int| 0 <= j < queue.len() ==> (#[trigger] queue[j]).0 != id,
    ensures
        position(ids(queue), id) is None,
{
    assert forall|j: int| 0 <= j < ids(queue).len() implies ids(queue)[j] != id by {
        assert(ids(queue)[j] == queue[j].0);
    }
    lemma_no_position(ids(queue), id, 0);
}

/// The field stops at its limit: whatever is typed, it holds at most
/// `max` characters.
pub proof fn the_field_stops_at_its_limit(value: Seq<char>, max: usize)
    ensures
        limited(value, Some(max)).len() <= max,
        value.len() <= max ==> limited(value, Some(max)) == value,
{
}

} // verus!
