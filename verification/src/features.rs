//! Each feature's part of the UI: its actions and status on a device and
//! what it does with dropped files. [`Features`] is the one place that
//! lists them: the shell calls it, and it calls each feature by name.

use vstd::prelude::*;
use crate::device::{DeviceSnapshot, Battery};
use crate::route::{Route, RouteView};
use crate::text::{decimal, decimal_string};
use crate::{ping, findmyphone, clipboard, share, browse_ui, notifications};

verus! {

/// The icon drawn beside an action or a status.
#[derive(Debug, Clone, Copy, PartialEq, Eq, Structural)]
pub enum Icon {
    BellRing,
    VolumeTwo,
    ClipboardPaste,
    FileUp,
    FolderOpen,
    Inbox,
    Battery,
    BatteryCharging,
}

/// A feature's message.
#[derive(Debug, Clone)]
pub enum Feature {
    Ping(ping::Message),
    FindMyPhone(findmyphone::Message),
    Clipboard(clipboard::Message),
    Share(share::Message),
    Browse(browse_ui::Message),
    Notifications(notifications::Message),
}

pub enum FeatureView {
    Ping(ping::MessageView),
    FindMyPhone(findmyphone::MessageView),
    Clipboard(clipboard::MessageView),
    Share(share::MessageView),
    Browse(browse_ui::MessageView),
    Notifications(notifications::MessageView),
}

impl View for Feature {
    type V = FeatureView;

    open spec fn view(&self) -> FeatureView {
        match *self {
            Feature::Ping(m) => FeatureView::Ping(m@),
            Feature::FindMyPhone(m) => FeatureView::FindMyPhone(m@),
            Feature::Clipboard(m) => FeatureView::Clipboard(m@),
            Feature::Share(m) => FeatureView::Share(m@),
            Feature::Browse(m) => FeatureView::Browse(m@),
            Feature::Notifications(m) => FeatureView::Notifications(m@),
        }
    }
}

/// A feature's chip on a device: an icon and a short label ("82%").
#[derive(Debug, Clone)]
pub struct DeviceStatus {
    pub icon: Icon,
    pub label: String,
}

/// Something a feature can do with a device: a button on the device page
/// and an item in the device's tray menu.
#[derive(Debug, Clone)]
pub struct DeviceAction {
    /// Stable within the feature, for tests and the tray.
    pub id: &'static str,
    pub label: String,
    pub icon: Icon,
    pub enabled: bool,
    pub visible_in_tray: bool,
    /// Sent when the action is chosen.
    pub message: Feature,
}

pub struct DeviceActionView {
    pub id: Seq<char>,
    pub label: Seq<char>,
    pub icon: Icon,
    pub enabled: bool,
    pub visible_in_tray: bool,
    pub message: FeatureView,
}

impl View for DeviceAction {
    type V = DeviceActionView;

    open spec fn view(&self) -> DeviceActionView {
        DeviceActionView {
            id: self.id@,
            label: self.label@,
            icon: self.icon,
            enabled: self.enabled,
            visible_in_tray: self.visible_in_tray,
            message: self.message@,
        }
    }
}

/// A list of actions by what each shows and does.
pub open spec fn actions_view(actions: Seq<DeviceAction>) -> Seq<DeviceActionView> {
    actions.map_values(|action: DeviceAction| action@)
}

/// What a drop does where a feature takes it.
#[derive(Debug, Clone)]
pub enum DropAction {
    /// Send the files to the device.
    Send { device_id: String, name: String },
    /// Upload the files into a folder of the device.
    Upload { device_id: String, folder: String },
}

/// Files dropped where a feature takes them.
#[derive(Debug, Clone)]
pub struct DropTarget {
    /// What a drop does, for the drop hint ("Drop to send").
    pub label: String,
    pub action: DropAction,
}

pub enum DropActionView {
    Send { device_id: Seq<char>, name: Seq<char> },
    Upload { device_id: Seq<char>, folder: Seq<char> },
}

pub struct DropTargetView {
    pub label: Seq<char>,
    pub action: DropActionView,
}

impl View for DropTarget {
    type V = DropTargetView;

    open spec fn view(&self) -> DropTargetView {
        DropTargetView {
            label: self.label@,
            action: match self.action {
                DropAction::Send { device_id, name } => DropActionView::Send { device_id: device_id@, name: name@ },
                DropAction::Upload { device_id, folder } => DropActionView::Upload { device_id: device_id@, folder: folder@ },
            },
        }
    }
}

/// An optional drop target by what it shows and does.
pub open spec fn target_view(target: Option<DropTarget>) -> Option<DropTargetView> {
    match target {
        Some(t) => Some(t@),
        None => None,
    }
}

impl DropTarget {
    /// The message for the files at `paths` dropped here: sent to the
    /// device, or uploaded into the folder.
    pub open spec fn drop_message(self, paths: Seq<Seq<char>>) -> FeatureView {
        match self.action {
            DropAction::Send { device_id, name } => FeatureView::Share(
                share::MessageView::Send { device_id: device_id@, name: name@, paths }),
            DropAction::Upload { device_id, folder } => FeatureView::Browse(
                browse_ui::MessageView::Upload { device_id: device_id@, folder: folder@, paths }),
        }
    }

    /// The message for the files dropped.
    pub fn on_drop(&self, paths: Vec<String>) -> (message: Feature)
        ensures
            message@ == self.drop_message(paths@.map_values(|p: String| p@)),
    {
        match &self.action {
            DropAction::Send { device_id, name } => Feature::Share(share::Message::Send {
                device_id: crate::text::owned(device_id.as_str()),
                name: crate::text::owned(name.as_str()),
                paths,
            }),
            DropAction::Upload { device_id, folder } => Feature::Browse(browse_ui::Message::Upload {
                device_id: crate::text::owned(device_id.as_str()),
                folder: crate::text::owned(folder.as_str()),
                paths,
            }),
        }
    }
}

/// The battery chip: its charge, and whether it is charging.
pub open spec fn battery_status(battery: Option<Battery>) -> Option<(Icon, Seq<char>)> {
    match battery {
        Some(b) => Some((
            if b.charging { Icon::BatteryCharging } else { Icon::Battery },
            decimal(b.charge as nat) + seq!['%'],
        )),
        None => None,
    }
}

/// The features that keep state. The stateless ones are free functions in
/// their modules.
pub struct Features {
    pub browse: browse_ui::BrowseUi,
    pub notifications: notifications::NotificationsUi,
}

impl Features {
    /// The features, before anything was shown.
    pub fn new() -> (features: Self)
        ensures
            features.browse.is_initial(),
            features.notifications.devices@.len() == 0,
    {
        Features { browse: browse_ui::BrowseUi::new(), notifications: notifications::NotificationsUi::new() }
    }

    /// What can be done with `device`, by what each shows and does.
    pub open spec fn actions_of(&self, device: DeviceSnapshot) -> Seq<DeviceActionView> {
        ping_actions(device) + findmyphone_actions(device)
            + clipboard::actions(device) + share::actions(device)
            + browse_ui::actions(device) + self.notifications.actions(device)
    }

    /// What can be done with `device`, in order: ping, ring, send the
    /// clipboard, send files, browse files, notifications.
    pub fn device_actions(&self, device: &DeviceSnapshot) -> (actions: Vec<DeviceAction>)
        ensures
            actions_view(actions@) == self.actions_of(*device),
    {
        let mut all = Vec::new();
        let mut parts = ping_device_actions(device);
        all.append(&mut parts);
        let mut parts = findmyphone_device_actions(device);
        all.append(&mut parts);
        let mut parts = clipboard::device_actions(device);
        all.append(&mut parts);
        let mut parts = share::device_actions(device);
        all.append(&mut parts);
        let mut parts = browse_ui::device_actions(device);
        all.append(&mut parts);
        let mut parts = self.notifications.device_actions(device);
        all.append(&mut parts);
        assert(actions_view(all@) =~= ping_actions(*device) + findmyphone_actions(*device)
            + clipboard::actions(*device) + share::actions(*device)
            + browse_ui::actions(*device) + self.notifications.actions(*device));
        all
    }

    /// The chips on the device card, the detail header and the tray label:
    /// the battery's, if it reported one.
    pub fn device_statuses(&self, device: &DeviceSnapshot) -> (statuses: Vec<DeviceStatus>)
        ensures
            match battery_status(device.battery) {
                Some((icon, label)) => statuses@.len() == 1 && statuses@[0].icon == icon
                    && statuses@[0].label@ == label,
                None => statuses@.len() == 0,
            },
    {
        let mut statuses = Vec::new();
        match device.battery {
            Some(b) => {
                let mut label = decimal_string(b.charge as u64);
                crate::text::push_char(&mut label, '%');
                let icon = if b.charging { Icon::BatteryCharging } else { Icon::Battery };
                statuses.push(DeviceStatus { icon, label });
            }
            None => {}
        }
        statuses
    }

    /// What to do with files dropped on `device` while the window shows
    /// `route`: browse's upload on its own folder page, else share's send.
    pub fn drop_target(&self, device: &DeviceSnapshot, route: &Route) -> (target: Option<DropTarget>)
        ensures
            target_view(target) == match self.browse.drop_target_of(*device, route@) {
                Some(t) => Some(t),
                None => share::drop_target_of(*device),
            },
    {
        match self.browse.drop_target(device, route) {
            Some(target) => Some(target),
            None => share::drop_target(device),
        }
    }
}

/// The ping action: listed for every device, enabled while it is
/// connected and takes pings.
pub open spec fn ping_actions(device: DeviceSnapshot) -> Seq<DeviceActionView> {
    seq![DeviceActionView {
        id: "ping"@,
        label: "Ping"@,
        icon: Icon::BellRing,
        enabled: ping::takes_pings(device),
        visible_in_tray: true,
        message: FeatureView::Ping(ping::MessageView::Ping { device_id: device.device_id@, name: device.device_name@ }),
    }]
}

/// The ping action for `device`.
pub fn ping_device_actions(device: &DeviceSnapshot) -> (actions: Vec<DeviceAction>)
    ensures
        actions_view(actions@) == ping_actions(*device),
{
    let action = DeviceAction {
        id: "ping",
        label: crate::text::owned("Ping"),
        icon: Icon::BellRing,
        enabled: ping::accepts_pings(device),
        visible_in_tray: true,
        message: Feature::Ping(ping::Message::Ping {
            device_id: crate::text::owned(device.device_id.as_str()),
            name: crate::text::owned(device.device_name.as_str()),
        }),
    };
    let actions = vec![action];
    assert(actions_view(actions@) =~= ping_actions(*device));
    actions
}

/// The ring action: listed for every device, enabled while it is
/// connected and can ring; in the tray only for a device that says it can.
pub open spec fn findmyphone_actions(device: DeviceSnapshot) -> Seq<DeviceActionView> {
    seq![DeviceActionView {
        id: "ring"@,
        label: "Ring"@,
        icon: Icon::VolumeTwo,
        enabled: findmyphone::rings(device),
        visible_in_tray: findmyphone::says_it_rings(device),
        message: FeatureView::FindMyPhone(findmyphone::MessageView::Ring { device_id: device.device_id@, name: device.device_name@ }),
    }]
}

/// The ring action for `device`.
pub fn findmyphone_device_actions(device: &DeviceSnapshot) -> (actions: Vec<DeviceAction>)
    ensures
        actions_view(actions@) == findmyphone_actions(*device),
{
    let action = DeviceAction {
        id: "ring",
        label: crate::text::owned("Ring"),
        icon: Icon::VolumeTwo,
        enabled: findmyphone::can_ring(device),
        visible_in_tray: findmyphone::advertises_ring(device),
        message: Feature::FindMyPhone(findmyphone::Message::Ring {
            device_id: crate::text::owned(device.device_id.as_str()),
            name: crate::text::owned(device.device_name.as_str()),
        }),
    };
    let actions = vec![action];
    assert(actions_view(actions@) =~= findmyphone_actions(*device));
    actions
}

} // verus!
