//! The pages the window shows.

use vstd::prelude::*;

verus! {

/// A page of the window.
#[derive(Debug, Clone)]
pub enum Route {
    Devices,
    AddDevice,
    /// A device's page, by id.
    Device(String),
    /// A device's files: a folder of it, or its storage (`None`).
    Browse { device: String, folder: Option<String> },
    /// A device's notifications, by id.
    Notifications(String),
    /// A pairing under way, by the request's id.
    Pairing(u128),
    Transfers,
    Settings,
    About,
}

/// An optional string by its characters.
pub open spec fn opt_text(s: Option<String>) -> Option<Seq<char>> {
    match s {
        Some(s) => Some(s@),
        None => None,
    }
}

/// A page by what it shows.
pub enum RouteView {
    Devices,
    AddDevice,
    Device(Seq<char>),
    Browse { device: Seq<char>, folder: Option<Seq<char>> },
    Notifications(Seq<char>),
    Pairing(u128),
    Transfers,
    Settings,
    About,
}

impl View for Route {
    type V = RouteView;

    open spec fn view(&self) -> RouteView {
        match *self {
            Route::Devices => RouteView::Devices,
            Route::AddDevice => RouteView::AddDevice,
            Route::Device(id) => RouteView::Device(id@),
            Route::Browse { device, folder } => RouteView::Browse { device: device@, folder: opt_text(folder) },
            Route::Notifications(id) => RouteView::Notifications(id@),
            Route::Pairing(id) => RouteView::Pairing(id),
            Route::Transfers => RouteView::Transfers,
            Route::Settings => RouteView::Settings,
            Route::About => RouteView::About,
        }
    }
}

/// The device a page is about, if it is about one.
pub open spec fn device_of(route: RouteView) -> Option<Seq<char>> {
    match route {
        RouteView::Device(id) => Some(id),
        RouteView::Browse { device, .. } => Some(device),
        RouteView::Notifications(id) => Some(id),
        _ => None,
    }
}

impl Route {
    /// The device the page is about, if it is about one.
    pub fn device(&self) -> (r: Option<&str>)
        ensures
            match r {
                Some(id) => device_of(self@) == Some(id@),
                None => device_of(self@) is None,
            },
    {
        match self {
            Route::Device(id) => Some(id.as_str()),
            Route::Browse { device, .. } => Some(device.as_str()),
            Route::Notifications(id) => Some(id.as_str()),
            _ => None,
        }
    }

    /// A copy of the page.
    pub fn copy(&self) -> (r: Route)
        ensures
            r@ == self@,
    {
        match self {
            Route::Devices => Route::Devices,
            Route::AddDevice => Route::AddDevice,
            Route::Device(id) => Route::Device(crate::text::owned(id.as_str())),
            Route::Browse { device, folder } => Route::Browse { device: crate::text::owned(device.as_str()), folder: copy_opt(folder) },
            Route::Notifications(id) => Route::Notifications(crate::text::owned(id.as_str())),
            Route::Pairing(id) => Route::Pairing(*id),
            Route::Transfers => Route::Transfers,
            Route::Settings => Route::Settings,
            Route::About => Route::About,
        }
    }
}

/// A copy of an optional string.
pub fn copy_opt(s: &Option<String>) -> (r: Option<String>)
    ensures
        opt_text(r) == opt_text(*s),
{
    match s {
        Some(s) => Some(crate::text::owned(s.as_str())),
        None => None,
    }
}

} // verus!
