//! The shell's own decisions, around the pages: where an outcome is told
//! (a toast in the window, a desktop notification from the tray), and the
//! window's life: showing it, closing it to the tray, quitting, and when
//! its placement is read and kept.

use vstd::prelude::*;
use crate::route::{Route, RouteView, opt_text, device_of};
use crate::features::{Feature, FeatureView};
use crate::tray::{TrayCommand, TrayCommandView};
use crate::text::{owned, same, join3};

verus! {

/// Where an action came from.
#[derive(Debug, Clone, Copy, PartialEq, Eq, Structural)]
pub enum Origin {
    /// The window, in front of the user.
    Window,
    /// The tray menu, with the window likely closed.
    Tray,
}

/// How an outcome is told.
#[derive(Debug)]
pub enum Said {
    Nothing,
    /// A toast in the window.
    Toast(String),
    /// A desktop notification.
    Notification { title: String, body: String },
}

/// A toast in the window; nothing for an action from the tray, which
/// reports only failures.
pub fn toast(text: String, origin: Origin) -> (said: Said)
    ensures
        match origin {
            Origin::Window => said matches Said::Toast(t) && t@ == text@,
            Origin::Tray => said is Nothing,
        },
{
    match origin {
        Origin::Window => Said::Toast(text),
        Origin::Tray => Said::Nothing,
    }
}

/// How an action went: the window shows `text` as a toast; from the tray,
/// only a failure is told, as a notification titled `failure` over
/// `text`.
pub fn report(text: String, failure: Option<String>, origin: Origin) -> (said: Said)
    ensures
        match origin {
            Origin::Window => said matches Said::Toast(t) && t@ == text@,
            Origin::Tray => match failure {
                Some(title) => said matches Said::Notification { title: t, body } && t@ == title@ && body@ == text@,
                None => said is Nothing,
            },
        },
{
    match origin {
        Origin::Window => Said::Toast(text),
        Origin::Tray => match failure {
            Some(title) => Said::Notification { title, body: text },
            None => Said::Nothing,
        },
    }
}

/// News for the user: a toast, "{title}: {body}", while the window is in
/// front of them; a desktop notification otherwise.
pub fn notify(title: String, body: String, focused: bool) -> (said: Said)
    ensures
        focused ==> (said matches Said::Toast(t) && t@ == title@ + ": "@ + body@),
        !focused ==> (said matches Said::Notification { title: t, body: b } && t@ == title@ && b@ == body@),
{
    if focused {
        Said::Toast(join3(title.as_str(), ": ", body.as_str()))
    } else {
        Said::Notification { title, body }
    }
}

/// What the shell must do to the window.
#[derive(Debug, Clone, Copy, PartialEq, Eq, Structural)]
pub enum WindowAction {
    Nothing,
    /// Raise and focus the open window.
    Raise,
    /// Open the window where it was, and keep that it shows.
    Open,
    /// Read where the window is, then close it to the tray.
    ReadThenHide,
    /// Keep where the window was, not showing next time, and close it.
    Close,
    /// Read where the window is, then quit keeping it; quit anyway after a
    /// moment, in case it can't be read.
    ReadThenExit,
    /// Quit now.
    Exit,
}

/// The window's life.
#[derive(Debug, Clone, Copy, PartialEq, Eq, Structural)]
pub struct Window {
    /// The window is open; closed, the app is in the tray.
    pub open: bool,
    /// It has the focus, when open.
    pub focused: bool,
    /// Quitting has started.
    pub quitting: bool,
    /// A tray host shows the icon. Without one, a closed window could come
    /// back only by launching the app again.
    pub tray_available: bool,
    /// Counts moves and resizes, so only the last one's placement is read.
    pub moves: u64,
}

/// The window after it opened: in front.
pub open spec fn opened(w: Window) -> Window {
    Window { open: true, focused: true, ..w }
}

/// The window after it closed.
pub open spec fn closed(w: Window) -> Window {
    Window { open: false, focused: false, ..w }
}

/// Showing the window: raising it when open, else opening it.
pub open spec fn shown(w: Window) -> (Window, WindowAction) {
    if w.open { (w, WindowAction::Raise) } else { (opened(w), WindowAction::Open) }
}

/// Quitting, once: keeping where the window is if it is open.
pub open spec fn quit_of(w: Window) -> (Window, WindowAction) {
    if w.quitting {
        (w, WindowAction::Nothing)
    } else if w.open {
        (Window { quitting: true, ..w }, WindowAction::ReadThenExit)
    } else {
        (Window { quitting: true, ..w }, WindowAction::Exit)
    }
}

/// The window's close button: close to the tray while the setting says so
/// (or there are no settings) and a tray shows, else quit.
pub open spec fn close_of(w: Window, close_to_tray: Option<bool>) -> (Window, WindowAction) {
    let to_tray = match close_to_tray { Some(setting) => setting, None => true };
    if !w.open {
        (w, WindowAction::Nothing)
    } else if to_tray && w.tray_available {
        (w, WindowAction::ReadThenHide)
    } else {
        quit_of(w)
    }
}

/// The number after `n`, wrapping round.
pub open spec fn next(n: u64) -> u64 {
    if n == u64::MAX { 0 } else { (n + 1) as u64 }
}

impl Window {
    /// The window at start: open unless the app starts in the tray (it was
    /// quit from the tray, or started at login: `in_tray`), which it does
    /// only with a tray to show it from.
    pub fn at_start(in_tray: bool, tray_available: bool) -> (w: Self)
        ensures
            w.open == !(in_tray && tray_available),
            w.focused == w.open,
            !w.quitting,
            w.tray_available == tray_available,
            w.moves == 0,
    {
        let open = !(in_tray && tray_available);
        Window { open, focused: open, quitting: false, tray_available, moves: 0 }
    }

    /// Whether the window is open and in front of the user.
    pub fn is_focused(&self) -> (r: bool)
        ensures
            r == (self.open && self.focused),
    {
        self.open && self.focused
    }

    /// The window gained or lost the focus.
    pub fn set_focused(&mut self, focused: bool)
        ensures
            *final(self) == (Window { focused, ..*old(self) }),
    {
        self.focused = focused;
    }

    /// Show, raise and focus the window, opening it where it was if it is
    /// closed.
    pub fn show(&mut self) -> (action: WindowAction)
        ensures
            (*final(self), action) == shown(*old(self)),
    {
        if self.open {
            WindowAction::Raise
        } else {
            self.open = true;
            self.focused = true;
            WindowAction::Open
        }
    }

    /// The window's close button: close to the tray, or quit if the user
    /// doesn't want the app to keep running (the `close_to_tray` setting;
    /// without settings, close to the tray, so it stays the way out) or
    /// there is no tray.
    pub fn close_requested(&mut self, close_to_tray: Option<bool>) -> (action: WindowAction)
        ensures
            (*final(self), action) == close_of(*old(self), close_to_tray),
    {
        if !self.open {
            return WindowAction::Nothing;
        }
        let to_tray = match close_to_tray {
            Some(setting) => setting,
            None => true,
        };
        if to_tray && self.tray_available {
            WindowAction::ReadThenHide
        } else {
            self.quit()
        }
    }

    /// Quit: keep where the window is, then end. Only once, whoever asks.
    pub fn quit(&mut self) -> (action: WindowAction)
        ensures
            (*final(self), action) == quit_of(*old(self)),
    {
        if self.quitting {
            return WindowAction::Nothing;
        }
        self.quitting = true;
        if self.open { WindowAction::ReadThenExit } else { WindowAction::Exit }
    }

    /// The window's placement was read to close it to the tray: close it,
    /// unless it closed meanwhile or the app is quitting.
    pub fn close_to_tray(&mut self) -> (action: WindowAction)
        ensures
            old(self).open && !old(self).quitting ==> *final(self) == closed(*old(self)) && action == WindowAction::Close,
            !(old(self).open && !old(self).quitting) ==> *final(self) == *old(self) && action == WindowAction::Nothing,
    {
        if !self.open || self.quitting {
            return WindowAction::Nothing;
        }
        self.closed();
        WindowAction::Close
    }

    /// The window closed.
    pub fn closed(&mut self)
        ensures
            *final(self) == closed(*old(self)),
    {
        self.open = false;
        self.focused = false;
    }

    /// A tray host came or went. Going away with the window closed brings
    /// the window back: nothing else could.
    pub fn tray_changed(&mut self, available: bool) -> (action: WindowAction)
        ensures
            !available && !old(self).open ==>
                (*final(self), action) == shown(Window { tray_available: available, ..*old(self) }),
            available || old(self).open ==>
                *final(self) == (Window { tray_available: available, ..*old(self) }) && action == WindowAction::Nothing,
    {
        self.tray_available = available;
        if !available && !self.open {
            return self.show();
        }
        WindowAction::Nothing
    }

    /// The window moved or was resized: the number of this change, for
    /// the save after it stays put.
    pub fn moved(&mut self) -> (tag: u64)
        ensures
            tag == next(old(self).moves),
            *final(self) == (Window { moves: tag, ..*old(self) }),
    {
        self.moves = self.moves.wrapping_add(1);
        self.moves
    }

    /// Whether the save after change `tag` is due: the window is open and
    /// stayed put since.
    pub fn save_due(&self, tag: u64) -> (r: bool)
        ensures
            r == (self.open && tag == self.moves),
    {
        self.open && tag == self.moves
    }

    /// Whether a placement read now is kept: the window is open and the
    /// app isn't quitting.
    pub fn keeps_placement(&self) -> (r: bool)
        ensures
            r == (self.open && !self.quitting),
    {
        self.open && !self.quitting
    }

    /// Whether the window shows next time, once quitting: it does if it
    /// showed when the app quit.
    pub fn shows_next_time(&self) -> (r: bool)
        ensures
            r == self.open,
    {
        self.open
    }
}


/// Whether going from `from` to `to` opens Add device afresh, which scans
/// as opening the page did; coming back to it from a pairing doesn't.
pub open spec fn enters_add_device(from: RouteView, to: RouteView) -> bool {
    to == RouteView::AddDevice && !(from == RouteView::AddDevice || from is Pairing)
}

/// Whether going from `from` to `to` opens Add device afresh.
pub fn entering_add_device(from: &Route, to: &Route) -> (r: bool)
    ensures
        r == enters_add_device(from@, to@),
{
    match to {
        Route::AddDevice => match from {
            Route::AddDevice | Route::Pairing(_) => false,
            _ => true,
        },
        _ => false,
    }
}

/// Add device's "searching" bar, and which scan it is for, so an older
/// scan's timer doesn't hide it.
#[derive(Debug, Clone, Copy, PartialEq, Eq, Structural)]
pub struct Search {
    pub searching: bool,
    pub scan: u64,
}

/// The bar shown for a new scan.
pub open spec fn search_started(s: Search) -> Search {
    Search { searching: true, scan: next(s.scan) }
}

/// The bar once scan `scan`'s time is up: gone, unless a newer scan shows
/// it.
pub open spec fn search_ended(s: Search, scan: u64) -> Search {
    if scan == s.scan { Search { searching: false, scan } } else { s }
}

impl Search {
    /// Show the bar for a new scan; returns the scan's number, for the
    /// timer that ends it.
    pub fn start(&mut self) -> (scan: u64)
        ensures
            *final(self) == search_started(*old(self)),
            scan == final(self).scan,
    {
        self.scan = self.scan.wrapping_add(1);
        self.searching = true;
        self.scan
    }

    /// Scan `scan`'s bar has shown long enough: it goes, unless a newer
    /// scan shows it.
    pub fn ended(&mut self, scan: u64)
        ensures
            *final(self) == search_ended(*old(self), scan),
    {
        if scan == self.scan {
            self.searching = false;
        }
    }
}

/// An older scan's timer leaves the bar of a newer one, and the newer
/// one's timer ends it.
pub proof fn an_old_scan_leaves_a_newer_bar(s: Search)
    ensures
        ({
            let first = search_started(s);
            let second = search_started(first);
            &&& search_ended(second, first.scan) == second
            &&& !search_ended(second, second.scan).searching
        }),
{
}

/// What to do once a request answered.
#[derive(Debug)]
pub enum After {
    /// Stay where the window is.
    Stay,
    /// Go to this page.
    Go(Route),
    /// Say why it failed.
    Toast(String),
}

/// The requests the shell's own pages made, each shown as under way until
/// it answers.
#[derive(Debug)]
pub struct Requests {
    /// The device being unpaired: its Unpair button is disabled.
    pub unpairing: Option<String>,
    /// The device a pairing is being started with.
    pub starting: Option<String>,
    /// The outgoing pairing being cancelled.
    pub cancelling: Option<u128>,
    /// The incoming request being answered.
    pub answering: Option<u128>,
    /// Why answering a request failed, shown in its prompt.
    pub answer_error: Option<(u128, String)>,
}

/// The requests other than `unpairing` are the same.
pub open spec fn same_but_unpairing(a: Requests, b: Requests) -> bool {
    a.starting == b.starting && a.cancelling == b.cancelling && a.answering == b.answering && a.answer_error == b.answer_error
}

/// The requests other than `starting` are the same.
pub open spec fn same_but_starting(a: Requests, b: Requests) -> bool {
    a.unpairing == b.unpairing && a.cancelling == b.cancelling && a.answering == b.answering && a.answer_error == b.answer_error
}

/// The requests other than `cancelling` are the same.
pub open spec fn same_but_cancelling(a: Requests, b: Requests) -> bool {
    a.unpairing == b.unpairing && a.starting == b.starting && a.answering == b.answering && a.answer_error == b.answer_error
}

/// The requests other than answering one are the same.
pub open spec fn same_but_answering(a: Requests, b: Requests) -> bool {
    a.unpairing == b.unpairing && a.starting == b.starting && a.cancelling == b.cancelling
}

/// Nothing was asked: no request under way.
pub open spec fn idle(r: Requests) -> bool {
    r.unpairing is None && r.starting is None && r.cancelling is None && r.answering is None && r.answer_error is None
}

impl Requests {
    pub fn new() -> (r: Self)
        ensures
            idle(r),
    {
        Requests { unpairing: None, starting: None, cancelling: None, answering: None, answer_error: None }
    }

    /// Whether the pairing page of `pairing_id` shows work under way: a
    /// pairing being started, or this one being cancelled.
    pub fn pairing_busy(&self, pairing_id: u128) -> (r: bool)
        ensures
            r == (self.starting is Some || self.cancelling == Some(pairing_id)),
    {
        self.starting.is_some() || match self.cancelling {
            Some(id) => id == pairing_id,
            None => false,
        }
    }

    /// Whether `device_id` is being unpaired: its page disables Unpair.
    pub fn unpairing_device(&self, device_id: &str) -> (r: bool)
        ensures
            r == (opt_text(self.unpairing) == Some(device_id@)),
    {
        match &self.unpairing {
            Some(id) => same(id.as_str(), device_id),
            None => false,
        }
    }

    /// Start pairing with `device_id`, unless a pairing is being started:
    /// returns whether to ask the core.
    pub fn pair(&mut self, device_id: String) -> (ask: bool)
        ensures
            ask == old(self).starting is None,
            ask ==> opt_text(final(self).starting) == Some(device_id@),
            !ask ==> final(self).starting == old(self).starting,
            same_but_starting(*old(self), *final(self)),
    {
        if self.starting.is_some() {
            return false;
        }
        self.starting = Some(device_id);
        true
    }

    /// Starting a pairing answered: the pairing's id, or why it failed.
    /// The window goes to the pairing only if the user is still where they
    /// asked (`route`).
    pub fn pair_started(&mut self, result: Result<u128, String>, route: &Route) -> (after: After)
        ensures
            final(self).starting is None,
            same_but_starting(*old(self), *final(self)),
            match result {
                Ok(id) => if route@ == RouteView::AddDevice || route@ is Pairing {
                    after matches After::Go(to) && to@ == RouteView::Pairing(id)
                } else {
                    after is Stay
                },
                Err(error) => after matches After::Toast(t) && t@ == error@,
            },
    {
        self.starting = None;
        match result {
            Ok(id) => match route {
                Route::AddDevice | Route::Pairing(_) => After::Go(Route::Pairing(id)),
                _ => After::Stay,
            },
            Err(error) => After::Toast(error),
        }
    }

    /// Cancel the outgoing pairing `id`.
    pub fn cancel_pairing(&mut self, id: u128)
        ensures
            final(self).cancelling == Some(id),
            same_but_cancelling(*old(self), *final(self)),
    {
        self.cancelling = Some(id);
    }

    /// Cancelling pairing `id` answered. Once cancelled, its page goes back
    /// to Add device.
    pub fn pairing_cancelled(&mut self, id: u128, result: Result<(), String>, route: &Route) -> (after: After)
        ensures
            final(self).cancelling == (if old(self).cancelling == Some(id) { None } else { old(self).cancelling }),
            same_but_cancelling(*old(self), *final(self)),
            match result {
                Ok(()) => if route@ == RouteView::Pairing(id) {
                    after matches After::Go(to) && to@ == RouteView::AddDevice
                } else {
                    after is Stay
                },
                Err(error) => after matches After::Toast(t) && t@ == error@,
            },
    {
        if self.cancelling == Some(id) {
            self.cancelling = None;
        }
        match result {
            Ok(()) => match route {
                Route::Pairing(on) if *on == id => After::Go(Route::AddDevice),
                _ => After::Stay,
            },
            Err(error) => After::Toast(error),
        }
    }

    /// Accept or reject the incoming request `id`, unless one is being
    /// answered: returns whether to ask the core.
    pub fn answer(&mut self, id: u128) -> (ask: bool)
        ensures
            ask == old(self).answering is None,
            ask ==> final(self).answering == Some(id) && final(self).answer_error is None,
            !ask ==> final(self).answering == old(self).answering && final(self).answer_error == old(self).answer_error,
            same_but_answering(*old(self), *final(self)),
    {
        if self.answering.is_some() {
            return false;
        }
        self.answering = Some(id);
        self.answer_error = None;
        true
    }

    /// Answering request `id` finished, or failed with why, which its
    /// prompt then shows.
    pub fn answered(&mut self, id: u128, result: Result<(), String>)
        ensures
            final(self).answering == (if old(self).answering == Some(id) { None } else { old(self).answering }),
            match result {
                Ok(()) => final(self).answer_error == old(self).answer_error,
                Err(error) => final(self).answer_error == Some((id, error)),
            },
            same_but_answering(*old(self), *final(self)),
    {
        if self.answering == Some(id) {
            self.answering = None;
        }
        match result {
            Ok(()) => {}
            Err(error) => self.answer_error = Some((id, error)),
        }
    }

    /// Why answering the request `first` (the one the prompt asks about)
    /// failed, if it did.
    pub fn prompt_error(&self, first: u128) -> (r: Option<&str>)
        ensures
            match self.answer_error {
                Some((id, error)) if id == first => r matches Some(e) && e@ == error@,
                _ => r is None,
            },
    {
        match &self.answer_error {
            Some((id, error)) => if *id == first { Some(error.as_str()) } else { None },
            None => None,
        }
    }

    /// Unpair `device_id`.
    pub fn forget(&mut self, device_id: String)
        ensures
            opt_text(final(self).unpairing) == Some(device_id@),
            same_but_unpairing(*old(self), *final(self)),
    {
        self.unpairing = Some(device_id);
    }

    /// Unpairing `device_id` finished, or why it didn't. Once unpaired, the
    /// window leaves the device's pages; elsewhere it stays.
    pub fn forgotten(&mut self, device_id: &str, result: Result<(), String>, route: &Route) -> (after: After)
        ensures
            opt_text(final(self).unpairing) == (if opt_text(old(self).unpairing) == Some(device_id@) { None }
                else { opt_text(old(self).unpairing) }),
            same_but_unpairing(*old(self), *final(self)),
            match result {
                Ok(()) => if device_of(route@) == Some(device_id@) {
                    after matches After::Go(to) && to@ == RouteView::Devices
                } else {
                    after is Stay
                },
                Err(error) => after matches After::Toast(t) && t@ == error@,
            },
    {
        let was = match &self.unpairing {
            Some(unpairing) => same(unpairing.as_str(), device_id),
            None => false,
        };
        if was {
            self.unpairing = None;
        }
        match result {
            Ok(()) => {
                let here = match route.device() {
                    Some(id) => same(id, device_id),
                    None => false,
                };
                if here { After::Go(Route::Devices) } else { After::Stay }
            }
            Err(error) => After::Toast(error),
        }
    }
}

/// Changing starting on login finished: whether it is on now, and what to
/// say if the change failed.
pub fn start_on_login_set(error: Option<String>) -> (toast: Option<String>)
    ensures
        error is None ==> toast is None,
        error is Some ==> (toast matches Some(t) && t@ == "Couldn’t change starting on login."@),
{
    match error {
        Some(_) => Some(owned("Couldn’t change starting on login.")),
        None => None,
    }
}

/// The window's title, as a message of the app's `.ftl` files.
pub fn window_title_words() -> (w: crate::words::Words)
    ensures
        w@ == crate::words::plain("app-window-title"@),
{
    crate::words::message("app-window-title")
}

/// Keyboard shortcuts the shell handles.
#[derive(Debug, Clone, Copy, PartialEq, Eq, Structural)]
pub enum KeyCommand {
    /// Escape: close the dialog.
    Cancel,
    /// Ctrl/Cmd+W.
    CloseWindow,
    /// Ctrl/Cmd+Q.
    Quit,
}

/// A key pressed, as far as the shortcuts tell keys apart.
#[derive(Debug, Clone)]
pub enum Key {
    Escape,
    /// A key that types this text.
    Character(String),
    Other,
}

/// The shortcut a key press makes: Escape cancels, and W and Q with the
/// command modifier (Ctrl; Cmd on macOS) close the window and quit.
pub fn key_command(key: &Key, command: bool) -> (r: Option<KeyCommand>)
    ensures
        r == match *key {
            Key::Escape => Some(KeyCommand::Cancel),
            Key::Character(c) => if command && c@ == "w"@ {
                Some(KeyCommand::CloseWindow)
            } else if command && c@ == "q"@ {
                Some(KeyCommand::Quit)
            } else {
                None
            },
            Key::Other => None,
        },
{
    match key {
        Key::Escape => Some(KeyCommand::Cancel),
        Key::Character(c) => if command && same(c.as_str(), "w") {
            Some(KeyCommand::CloseWindow)
        } else if command && same(c.as_str(), "q") {
            Some(KeyCommand::Quit)
        } else {
            None
        },
        Key::Other => None,
    }
}

/// Something the desktop reported.
#[derive(Debug, Clone)]
pub enum DesktopEvent {
    /// A primary click on the tray icon.
    TrayClicked,
    /// A tray menu item was chosen.
    TrayChose(TrayCommand),
    /// A tray host started, or went away.
    TrayAvailable(bool),
    /// A click on one of the app's notifications.
    NotificationClicked,
    /// A second launch asked this one to show its window.
    ShowRequested,
    /// The system asked the app to quit (a signal, a logout).
    QuitRequested,
}

/// What the shell does about a desktop event.
#[derive(Debug)]
pub enum Chose {
    /// Do this to the window.
    Window(WindowAction),
    /// Go to this page, and show the window as `window` says.
    Page { route: Route, window: WindowAction },
    /// Hand a feature its message, as from the tray.
    Feature(Feature),
    /// Send the files dropped on the icon to this device.
    SendDropped(String),
}

/// What choosing `command` in the tray does, and the window after.
pub open spec fn tray_chose_of(w: Window, command: TrayCommandView, chose: Chose, after: Window) -> bool {
    match command {
        TrayCommandView::Open => chose == Chose::Window(shown(w).1) && after == shown(w).0,
        TrayCommandView::Settings => (chose matches Chose::Page { route, window } && route@ == RouteView::Settings
            && window == shown(w).1) && after == shown(w).0,
        TrayCommandView::About => (chose matches Chose::Page { route, window } && route@ == RouteView::About
            && window == shown(w).1) && after == shown(w).0,
        TrayCommandView::ShowDevice(id) => (chose matches Chose::Page { route, window } && route@ == RouteView::Device(id)
            && window == shown(w).1) && after == shown(w).0,
        TrayCommandView::Quit => chose == Chose::Window(quit_of(w).1) && after == quit_of(w).0,
        TrayCommandView::Action(f) => (chose matches Chose::Feature(g) && g@ == f) && after == w,
        TrayCommandView::SendDropped(id) => (chose matches Chose::SendDropped(d) && d@ == id) && after == w,
    }
}

/// Choose `command` in the tray: a page shows in the window, an action
/// runs without it.
pub fn tray_chose(window: &mut Window, command: TrayCommand) -> (chose: Chose)
    ensures
        tray_chose_of(*old(window), command@, chose, *final(window)),
{
    match command {
        TrayCommand::Open => Chose::Window(window.show()),
        TrayCommand::Settings => Chose::Page { route: Route::Settings, window: window.show() },
        TrayCommand::About => Chose::Page { route: Route::About, window: window.show() },
        TrayCommand::ShowDevice(id) => Chose::Page { route: Route::Device(id), window: window.show() },
        TrayCommand::Quit => Chose::Window(window.quit()),
        TrayCommand::Action(feature) => Chose::Feature(feature),
        TrayCommand::SendDropped(id) => Chose::SendDropped(id),
    }
}

/// What the shell does about `event`: a click or a second launch shows the
/// window, a tray item does what it says, a tray host going away with the
/// window closed brings the window back, and the system asking quits.
pub fn desktop_event(window: &mut Window, event: DesktopEvent) -> (chose: Chose)
    ensures
        match event {
            DesktopEvent::TrayClicked | DesktopEvent::NotificationClicked | DesktopEvent::ShowRequested =>
                chose == Chose::Window(shown(*old(window)).1) && *final(window) == shown(*old(window)).0,
            DesktopEvent::TrayChose(command) => tray_chose_of(*old(window), command@, chose, *final(window)),
            DesktopEvent::TrayAvailable(available) => {
                let w = Window { tray_available: available, ..*old(window) };
                if !available && !old(window).open {
                    chose == Chose::Window(shown(w).1) && *final(window) == shown(w).0
                } else {
                    chose == Chose::Window(WindowAction::Nothing) && *final(window) == w
                }
            },
            DesktopEvent::QuitRequested => chose == Chose::Window(quit_of(*old(window)).1) && *final(window) == quit_of(*old(window)).0,
        },
{
    match event {
        DesktopEvent::TrayClicked | DesktopEvent::NotificationClicked | DesktopEvent::ShowRequested =>
            Chose::Window(window.show()),
        DesktopEvent::TrayChose(command) => tray_chose(window, command),
        DesktopEvent::TrayAvailable(available) => Chose::Window(window.tray_changed(available)),
        DesktopEvent::QuitRequested => Chose::Window(window.quit()),
    }
}

/// Whether the daemon runs yet.
#[derive(Debug)]
pub enum Phase {
    Starting,
    /// It didn't start: why.
    Failed(String),
    Running,
}

impl Phase {
    /// Starting the daemon ended: it runs, or why it didn't.
    pub fn started(&mut self, result: Result<(), String>)
        ensures
            match result {
                Ok(()) => *final(self) is Running,
                Err(error) => *final(self) == Phase::Failed(error),
            },
    {
        *self = match result {
            Ok(()) => Phase::Running,
            Err(error) => Phase::Failed(error),
        };
    }

    /// Retry: start the daemon again, only after it failed. Returns whether
    /// to start it.
    pub fn retry(&mut self) -> (start: bool)
        ensures
            start == (*old(self) is Failed),
            start ==> *final(self) is Starting,
            !start ==> *final(self) == *old(self),
    {
        match self {
            Phase::Failed(_) => {
                *self = Phase::Starting;
                true
            }
            _ => false,
        }
    }
}

/// Quitting happens once: asked again, nothing more happens.
pub proof fn quitting_happens_once(w: Window)
    ensures
        quit_of(quit_of(w).0) == (quit_of(w).0, WindowAction::Nothing),
{
}

/// Without a tray, closing the window quits, whatever the setting:
/// nothing could show it again.
pub proof fn without_a_tray_closing_quits(w: Window, close_to_tray: Option<bool>)
    requires
        w.open,
        !w.tray_available,
        !w.quitting,
    ensures
        close_of(w, close_to_tray).0.quitting,
        close_of(w, close_to_tray).1 == WindowAction::ReadThenExit,
{
}

/// With the setting off, closing the window quits; with it on and a tray,
/// the app stays in the tray.
pub proof fn closing_follows_the_setting(w: Window)
    requires
        w.open,
        w.tray_available,
        !w.quitting,
    ensures
        close_of(w, Some(false)).0.quitting,
        close_of(w, Some(true)) == (w, WindowAction::ReadThenHide),
        close_of(w, None) == (w, WindowAction::ReadThenHide),
{
}

/// A tray host going away with the window closed brings the window back.
pub proof fn a_tray_host_going_away_brings_the_window_back(w: Window)
    requires
        !w.open,
    ensures
        shown(Window { tray_available: false, ..w }).0.open,
        shown(Window { tray_available: false, ..w }).1 == WindowAction::Open,
{
}

/// Only the last move's save reads the window: after two changes, the
/// first one's save is not due.
pub proof fn only_the_last_move_is_saved(w: Window)
    ensures
        next(next(w.moves)) != next(w.moves),
{
}

} // verus!
