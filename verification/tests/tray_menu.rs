use myconnect::device::{Battery, DeviceReachability, DeviceSnapshot, DeviceType};
use myconnect::features::Features;
use myconnect::findmyphone;
use myconnect::ping;
use myconnect::tray::{layout, same_layout, tray_menu, TrayCommand, TrayItem};

fn device(name: &str, capabilities: &[&str]) -> DeviceSnapshot {
    DeviceSnapshot {
        device_id: "740bd4b9b4184ee497d6caf1da8151be".to_string(),
        device_name: name.to_string(),
        device_type: DeviceType::Phone,
        paired: true,
        reachability: DeviceReachability::Connected,
        incoming_capabilities: capabilities.iter().map(|c| c.to_string()).collect(),
        outgoing_capabilities: Vec::new(),
        battery: None,
    }
}

fn labels(menu: &[TrayItem]) -> Vec<String> {
    menu.iter()
        .map(|item| match item {
            TrayItem::Item { label, .. } | TrayItem::Submenu { label, .. } => label.clone(),
            TrayItem::Separator => "-".to_string(),
        })
        .collect()
}

/// The item at `path` of labels, and whether it can be chosen.
fn find<'a>(menu: &'a [TrayItem], path: &[&str]) -> Option<&'a TrayItem> {
    let (first, rest) = path.split_first()?;
    let item = menu.iter().find(|item| match item {
        TrayItem::Item { label, .. } | TrayItem::Submenu { label, .. } => label == first,
        TrayItem::Separator => false,
    })?;
    match (rest.is_empty(), item) {
        (true, _) => Some(item),
        (false, TrayItem::Submenu { items, .. }) => find(items, rest),
        _ => None,
    }
}

fn enabled(menu: &[TrayItem], path: &[&str]) -> bool {
    matches!(find(menu, path), Some(TrayItem::Item { command: Some(_), .. }))
}

#[test]
fn the_tray_lists_connected_paired_devices_then_settings_and_quit() {
    let features = Features::new();
    let mut peer = device("Peer", &[ping::PACKET_TYPE, findmyphone::REQUEST_PACKET_TYPE]);
    peer.battery = Some(Battery { charge: 82, charging: false });
    let mut away = device("Away", &[]);
    away.reachability = DeviceReachability::Discovered;
    let devices = vec![away, peer];
    let menu = tray_menu(Some((&devices, &features)));
    assert_eq!(
        labels(&menu),
        ["Open MyConnect", "-", "Peer · 82%", "-", "Settings", "-", "Quit"]
    );
    assert!(enabled(&menu, &["Peer · 82%", "Ping"]));
    assert!(enabled(&menu, &["Peer · 82%", "Ring"]));
    assert!(enabled(&menu, &["Peer · 82%", "Show details"]));
    assert!(matches!(
        find(&menu, &["Peer · 82%", "Show details"]),
        Some(TrayItem::Item { command: Some(TrayCommand::ShowDevice(id)), .. })
            if id == "740bd4b9b4184ee497d6caf1da8151be"
    ));
}

#[test]
fn the_tray_lists_ring_only_for_a_device_that_can() {
    let features = Features::new();
    let devices = vec![device("Peer", &[ping::PACKET_TYPE])];
    let menu = tray_menu(Some((&devices, &features)));
    assert!(enabled(&menu, &["Peer", "Ping"]));
    assert!(find(&menu, &["Peer", "Ring"]).is_none());
}

#[test]
fn the_tray_says_when_nothing_is_paired_or_connected() {
    assert_eq!(
        labels(&tray_menu(None)),
        ["Open MyConnect", "-", "Settings", "-", "Quit"],
        "devices unknown yet"
    );
    let features = Features::new();
    let none: Vec<DeviceSnapshot> = Vec::new();
    let menu = tray_menu(Some((&none, &features)));
    assert!(find(&menu, &["No paired devices"]).is_some());
    assert!(!enabled(&menu, &["No paired devices"]));

    let mut away = device("Peer", &[]);
    away.reachability = DeviceReachability::Discovered;
    let devices = vec![away];
    let menu = tray_menu(Some((&devices, &features)));
    assert!(find(&menu, &["No devices connected"]).is_some());
    assert!(!enabled(&menu, &["No devices connected"]));
    assert!(find(&menu, &["Peer"]).is_none());
}

#[test]
fn the_tray_menu_is_sent_only_when_it_changes() {
    let features = Features::new();
    let devices = vec![device("Peer", &[])];
    let a = layout(&tray_menu(Some((&devices, &features))));
    let b = layout(&tray_menu(Some((&devices, &features))));
    assert!(same_layout(&a, &b));
    let other = vec![device("Other", &[])];
    let c = layout(&tray_menu(Some((&other, &features))));
    assert!(!same_layout(&a, &c));
}
