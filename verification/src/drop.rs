//! Files dropped on the window: the drag in progress.
//!
//! The platform reports each file on its own: a hover per file as the drag
//! enters, then a drop per file. A drop is complete once as many have
//! dropped as hovered; a drop with no count (or a short one) is complete
//! once a short wait has passed without more ([`SETTLE_MILLIS`]).

use vstd::prelude::*;

verus! {

/// How long to wait for the rest of a drop's files once the first has
/// arrived, if the drag didn't say how many there are, in milliseconds.
pub const SETTLE_MILLIS: u64 = 200;

/// Files dragged over the window, and those dropped so far.
#[derive(Debug)]
pub struct Drag {
    pub active: bool,
    /// Files that hovered, counted up to `usize::MAX`.
    pub hovered: usize,
    /// The paths dropped so far, in order.
    pub dropped: Vec<String>,
    /// Which drag this is, so an older drag's timer doesn't end a newer one.
    pub gesture: u64,
}

/// What the shell does after a file drops.
#[derive(Debug)]
pub enum Dropped {
    /// Wait for more files.
    Wait,
    /// Wait the settling time, then call [`Drag::settled`] with this gesture.
    Settle(u64),
    /// Every file is in.
    Done(Vec<String>),
}

/// The drag by what it holds.
pub struct DragView {
    pub active: bool,
    pub hovered: nat,
    pub dropped: Seq<Seq<char>>,
    pub gesture: u64,
}

pub enum DroppedView {
    Wait,
    Settle(u64),
    Done(Seq<Seq<char>>),
}

pub open spec fn paths_view(paths: Seq<String>) -> Seq<Seq<char>> {
    paths.map_values(|p: String| p@)
}

impl View for Drag {
    type V = DragView;

    open spec fn view(&self) -> DragView {
        DragView {
            active: self.active,
            hovered: self.hovered as nat,
            dropped: paths_view(self.dropped@),
            gesture: self.gesture,
        }
    }
}

impl View for Dropped {
    type V = DroppedView;

    open spec fn view(&self) -> DroppedView {
        match *self {
            Dropped::Wait => DroppedView::Wait,
            Dropped::Settle(g) => DroppedView::Settle(g),
            Dropped::Done(paths) => DroppedView::Done(paths_view(paths@)),
        }
    }
}

/// The next gesture number, wrapping round.
pub open spec fn next_gesture(g: u64) -> u64 {
    if g == u64::MAX { 0 } else { (g + 1) as u64 }
}

/// A drag begun, if none was: a new gesture with nothing hovered or
/// dropped yet.
pub open spec fn started(d: DragView) -> DragView {
    if d.active {
        d
    } else {
        DragView { active: true, hovered: 0, dropped: Seq::empty(), gesture: next_gesture(d.gesture) }
    }
}

/// No drag: nothing hovered or dropped; the gesture number stays.
pub open spec fn finished(d: DragView) -> DragView {
    DragView { active: false, hovered: 0, dropped: Seq::empty(), gesture: d.gesture }
}

/// The drag after one more file hovered.
pub open spec fn hovered(d: DragView) -> DragView {
    let s = started(d);
    DragView { hovered: if s.hovered < usize::MAX { s.hovered + 1 } else { s.hovered }, ..s }
}

/// The drag after `path` dropped, and what the shell does next.
pub open spec fn dropped(d: DragView, path: Seq<char>) -> (DragView, DroppedView) {
    let s = started(d);
    let files = s.dropped.push(path);
    if s.hovered > 0 && files.len() >= s.hovered {
        (finished(s), DroppedView::Done(files))
    } else if files.len() == 1 {
        (DragView { dropped: files, ..s }, DroppedView::Settle(s.gesture))
    } else {
        (DragView { dropped: files, ..s }, DroppedView::Wait)
    }
}

/// The drag after the wait for `gesture` ended, and the files that then
/// count as dropped.
pub open spec fn settled(d: DragView, gesture: u64) -> (DragView, Option<Seq<Seq<char>>>) {
    if d.active && gesture == d.gesture && d.dropped.len() > 0 {
        (finished(d), Some(d.dropped))
    } else {
        (d, None)
    }
}

impl Default for Drag {
    fn default() -> (drag: Self)
        ensures
            drag@ == (DragView { active: false, hovered: 0, dropped: Seq::empty(), gesture: 0 }),
    {
        let drag = Drag { active: false, hovered: 0, dropped: Vec::new(), gesture: 0 };
        assert(drag@.dropped =~= Seq::<Seq<char>>::empty());
        drag
    }
}

impl Drag {
    /// Files are over the window.
    pub fn is_active(&self) -> (r: bool)
        ensures
            r == self@.active,
    {
        self.active
    }

    /// One more file is over the window.
    pub fn hover(&mut self)
        ensures
            final(self)@ == hovered(old(self)@),
    {
        self.start();
        self.hovered = self.hovered.saturating_add(1);
    }

    /// The files left the window without dropping.
    pub fn leave(&mut self)
        ensures
            final(self)@ == finished(old(self)@),
    {
        let _ = self.finish();
    }

    /// A file dropped.
    pub fn drop_file(&mut self, path: String) -> (r: Dropped)
        ensures
            (final(self)@, r@) == dropped(old(self)@, path@),
    {
        self.start();
        let ghost files = self@.dropped.push(path@);
        self.dropped.push(path);
        assert(self@.dropped =~= files);
        if self.hovered > 0 && self.dropped.len() >= self.hovered {
            Dropped::Done(self.finish())
        } else if self.dropped.len() == 1 {
            Dropped::Settle(self.gesture)
        } else {
            Dropped::Wait
        }
    }

    /// The wait for `gesture`'s files is over: what dropped, unless the
    /// drop already completed or a newer drag began.
    pub fn settled(&mut self, gesture: u64) -> (r: Option<Vec<String>>)
        ensures
            (final(self)@, match r { Some(p) => Some(paths_view(p@)), None => None }) == settled(old(self)@, gesture),
    {
        if self.active && gesture == self.gesture && self.dropped.len() > 0 {
            Some(self.finish())
        } else {
            None
        }
    }

    fn start(&mut self)
        ensures
            final(self)@ == started(old(self)@),
    {
        if !self.active {
            self.active = true;
            self.gesture = self.gesture.wrapping_add(1);
            self.hovered = 0;
            self.dropped = Vec::new();
            assert(self@.dropped =~= Seq::<Seq<char>>::empty());
        }
    }

    fn finish(&mut self) -> (files: Vec<String>)
        ensures
            final(self)@ == finished(old(self)@),
            paths_view(files@) == old(self)@.dropped,
    {
        self.active = false;
        self.hovered = 0;
        let mut files = Vec::new();
        std::mem::swap(&mut files, &mut self.dropped);
        assert(self@.dropped =~= Seq::<Seq<char>>::empty());
        files
    }
}

/// A drop is complete once every hovered file has dropped: hovering `n`
/// files and dropping `n` paths gives them back, in order, and ends the
/// drag.
pub proof fn every_hovered_file_completes_the_drop(d: DragView, a: Seq<char>, b: Seq<char>)
    requires
        !d.active,
    ensures
        ({
            let d1 = hovered(hovered(d));
            let (d2, first) = dropped(d1, a);
            let (d3, second) = dropped(d2, b);
            &&& first == DroppedView::Settle(d2.gesture)
            &&& second == DroppedView::Done(seq![a, b])
            &&& !d3.active
            &&& settled(d3, d2.gesture).1 is None
        }),
{
    let d1 = hovered(hovered(d));
    let (d2, _) = dropped(d1, a);
    assert(Seq::<Seq<char>>::empty().push(a).push(b) =~= seq![a, b]);
}

/// A timer of an older drag leaves a newer drag alone: once a drag has
/// ended and a new one begun, the old gesture's wait changes nothing.
pub proof fn an_old_timer_leaves_a_new_drag_alone(d: DragView, gesture: u64)
    requires
        d.active,
        gesture != d.gesture,
    ensures
        settled(d, gesture) == (d, None::<Seq<Seq<char>>>),
{
}

/// Leaving forgets the drag: nothing hovered or dropped stays.
pub proof fn leaving_forgets_the_drag(d: DragView)
    ensures
        !finished(d).active,
        finished(d).dropped.len() == 0,
        finished(d).hovered == 0,
{
}

} // verus!
