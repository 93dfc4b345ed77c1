//! The tray icon's menu: what it holds, decided here ([`TrayItem`]s carrying
//! [`TrayCommand`]s), and how a label is written for each tray host.

use vstd::prelude::*;
use crate::device::{DeviceSnapshot, connected, is_connected};
use crate::features::{Feature, FeatureView, Features, DeviceActionView, battery_status,
    ping_actions, findmyphone_actions};
use crate::text::{owned, same, replaced, without, replace_char, remove_chars, join3};
use crate::{clipboard, share, browse_ui};

verus! {

/// What choosing a tray menu item does.
#[derive(Debug, Clone)]
pub enum TrayCommand {
    /// Show the window.
    Open,
    /// Show the window on Settings.
    Settings,
    /// Show the window on About.
    About,
    Quit,
    /// Show the window on this device's page.
    ShowDevice(String),
    /// A feature's device action, run without showing the window.
    Action(Feature),
    /// Send the files last dropped on the icon to this device.
    SendDropped(String),
}

pub enum TrayCommandView {
    Open,
    Settings,
    About,
    Quit,
    ShowDevice(Seq<char>),
    Action(FeatureView),
    SendDropped(Seq<char>),
}

impl View for TrayCommand {
    type V = TrayCommandView;

    open spec fn view(&self) -> TrayCommandView {
        match *self {
            TrayCommand::Open => TrayCommandView::Open,
            TrayCommand::Settings => TrayCommandView::Settings,
            TrayCommand::About => TrayCommandView::About,
            TrayCommand::Quit => TrayCommandView::Quit,
            TrayCommand::ShowDevice(id) => TrayCommandView::ShowDevice(id@),
            TrayCommand::Action(f) => TrayCommandView::Action(f@),
            TrayCommand::SendDropped(id) => TrayCommandView::SendDropped(id@),
        }
    }
}

/// One entry of the tray menu.
#[derive(Debug)]
pub enum TrayItem {
    /// A labelled item, shown disabled without a command.
    Item { label: String, command: Option<TrayCommand> },
    Submenu { label: String, items: Vec<TrayItem> },
    Separator,
}

pub enum TrayItemView {
    Item { label: Seq<char>, command: Option<TrayCommandView> },
    Submenu { label: Seq<char>, items: Seq<TrayItemView> },
    Separator,
}

pub open spec fn command_view(command: Option<TrayCommand>) -> Option<TrayCommandView> {
    match command {
        Some(c) => Some(c@),
        None => None,
    }
}

/// An entry by what it shows and does.
pub open spec fn item_view(item: TrayItem) -> TrayItemView
    decreases item, 1nat,
{
    match item {
        TrayItem::Item { label, command } => TrayItemView::Item { label: label@, command: command_view(command) },
        TrayItem::Submenu { label, items } => {
            proof { broadcast use vstd::std_specs::vec::axiom_vec_decreases_to_view; }
            TrayItemView::Submenu { label: label@, items: items_view(items@) }
        },
        TrayItem::Separator => TrayItemView::Separator,
    }
}

/// Entries by what each shows and does.
pub open spec fn items_view(items: Seq<TrayItem>) -> Seq<TrayItemView>
    decreases items, 0nat,
{
    if items.len() == 0 {
        Seq::empty()
    } else {
        items_view(items.drop_last()).push(item_view(items.last()))
    }
}

impl TrayItem {
    /// An item labelled `label`, doing `command` (disabled without one).
    pub fn item(label: String, command: Option<TrayCommand>) -> (item: Self)
        ensures
            item_view(item) == (TrayItemView::Item { label: label@, command: command_view(command) }),
    {
        TrayItem::Item { label, command }
    }
}

/// One row of a menu's layout: its depth, its label (none for a
/// separator), and whether it is enabled.
pub type Row = (nat, Option<Seq<char>>, bool);

/// What a menu shows, depth first: each entry's depth, label, and whether
/// it is enabled. A submenu is enabled, a separator isn't.
pub open spec fn layout_of(items: Seq<TrayItemView>, depth: nat) -> Seq<Row>
    decreases items,
{
    if items.len() == 0 {
        Seq::empty()
    } else {
        let first: Seq<Row> = match items[0] {
            TrayItemView::Item { label, command } => seq![(depth, Some(label), command is Some)],
            TrayItemView::Separator => seq![(depth, None, false)],
            TrayItemView::Submenu { label, items: inner } => seq![(depth, Some(label), true)] + layout_of(inner, depth + 1),
        };
        first + layout_of(items.drop_first(), depth)
    }
}

/// The tray's entries for a device's actions: those meant for the tray,
/// each running its action without the window, disabled when it can't run.
pub open spec fn tray_entries(actions: Seq<DeviceActionView>) -> Seq<TrayItemView>
    decreases actions.len(),
{
    if actions.len() == 0 {
        Seq::empty()
    } else {
        let rest = tray_entries(actions.drop_last());
        let a = actions.last();
        if a.visible_in_tray {
            rest.push(TrayItemView::Item {
                label: a.label,
                command: if a.enabled { Some(TrayCommandView::Action(a.message)) } else { None },
            })
        } else {
            rest
        }
    }
}

/// A device's label in the tray: its name, then its first status.
pub open spec fn device_label(device: DeviceSnapshot) -> Seq<char> {
    match battery_status(device.battery) {
        Some((_, status)) => device.device_name@ + " · "@ + status,
        None => device.device_name@,
    }
}

/// A device's submenu: the features' actions meant for the tray, then
/// Show details.
pub open spec fn device_menu_of(device: DeviceSnapshot, features: Features) -> TrayItemView {
    TrayItemView::Submenu {
        label: device_label(device),
        items: tray_entries(features.actions_of(device)) + seq![
            TrayItemView::Separator,
            TrayItemView::Item { label: "Show details"@, command: Some(TrayCommandView::ShowDevice(device.device_id@)) },
        ],
    }
}

/// The submenus of the connected ones among `devices`, in order.
pub open spec fn device_menus(devices: Seq<DeviceSnapshot>, features: Features) -> Seq<TrayItemView>
    decreases devices.len(),
{
    if devices.len() == 0 {
        Seq::empty()
    } else {
        let rest = device_menus(devices.drop_last(), features);
        if connected(devices.last()) { rest.push(device_menu_of(devices.last(), features)) } else { rest }
    }
}

/// The tray menu: Open, then (once the paired devices are known) each
/// connected paired device with what can be done to it, or a note when
/// there is none, then Settings and Quit.
pub open spec fn tray_menu_of(running: Option<(Seq<DeviceSnapshot>, Features)>) -> Seq<TrayItemView> {
    let head = seq![
        TrayItemView::Item { label: "Open MyConnect"@, command: Some(TrayCommandView::Open) },
        TrayItemView::Separator,
    ];
    let tail = seq![
        TrayItemView::Item { label: "Settings"@, command: Some(TrayCommandView::Settings) },
        TrayItemView::Separator,
        TrayItemView::Item { label: "Quit"@, command: Some(TrayCommandView::Quit) },
    ];
    match running {
        None => head + tail,
        Some((paired, features)) => {
            let note = if paired.len() == 0 {
                seq![TrayItemView::Item { label: "No paired devices"@, command: None }]
            } else if !(exists|i: int| 0 <= i < paired.len() && connected(#[trigger] paired[i])) {
                seq![TrayItemView::Item { label: "No devices connected"@, command: None }]
            } else {
                Seq::empty()
            };
            head + note + device_menus(paired, features) + seq![TrayItemView::Separator] + tail
        },
    }
}

proof fn lemma_items_view_push(items: Seq<TrayItem>, item: TrayItem)
    ensures
        items_view(items.push(item)) == items_view(items).push(item_view(item)),
{
    assert(items.push(item).drop_last() =~= items);
}

/// A device's submenu, "{name} · {status}", holding the features' actions
/// meant for the tray, then Show details.
pub fn device_menu(device: &DeviceSnapshot, features: &Features) -> (item: TrayItem)
    ensures
        item_view(item) == device_menu_of(*device, *features),
{
    let statuses = features.device_statuses(device);
    let label = if statuses.len() > 0 {
        join3(device.device_name.as_str(), " · ", statuses[0].label.as_str())
    } else {
        owned(device.device_name.as_str())
    };
    let mut actions = features.device_actions(device);
    let ghost all = crate::features::actions_view(actions@);
    let mut items: Vec<TrayItem> = Vec::new();
    let mut k: usize = 0;
    assert(items_view(items@) =~= tray_entries(all.take(0)));
    assert(all.len() == actions@.len());
    while actions.len() > 0
        invariant
            k <= all.len() <= usize::MAX,
            crate::features::actions_view(actions@) == all.skip(k as int),
            items_view(items@) == tray_entries(all.take(k as int)),
        decreases actions@.len(),
    {
        let ghost rest = actions@;
        assert(crate::features::actions_view(rest).len() == rest.len());
        assert(all.skip(k as int).len() == all.len() - k);
        let action = actions.remove(0);
        proof {
            assert(crate::features::actions_view(rest)[0] == action@);
            assert(all.skip(k as int)[0] == all[k as int]);
            assert(all[k as int] == action@);
            assert forall|j: int| 0 <= j < actions@.len() implies
                #[trigger] crate::features::actions_view(actions@)[j] == all.skip(k + 1)[j] by {
                assert(actions@[j] == rest[j + 1]);
                assert(crate::features::actions_view(rest)[j + 1] == all.skip(k as int)[j + 1]);
            }
            assert(crate::features::actions_view(actions@) =~= all.skip(k + 1));
            assert(all.take(k + 1).drop_last() =~= all.take(k as int));
        }
        if action.visible_in_tray {
            let command = if action.enabled { Some(TrayCommand::Action(action.message)) } else { None };
            let entry = TrayItem::Item { label: action.label, command };
            proof { lemma_items_view_push(items@, entry); }
            items.push(entry);
        }
        k = k + 1;
    }
    assert(all.take(k as int) =~= all);
    let ghost entries = items_view(items@);
    proof { lemma_items_view_push(items@, TrayItem::Separator); }
    items.push(TrayItem::Separator);
    let details = TrayItem::Item {
        label: owned("Show details"),
        command: Some(TrayCommand::ShowDevice(owned(device.device_id.as_str()))),
    };
    proof { lemma_items_view_push(items@, details); }
    items.push(details);
    assert(items_view(items@) =~= entries + seq![
        TrayItemView::Separator,
        TrayItemView::Item { label: "Show details"@, command: Some(TrayCommandView::ShowDevice(device.device_id@)) },
    ]);
    TrayItem::Submenu { label, items }
}

fn push_item(menu: &mut Vec<TrayItem>, item: TrayItem)
    ensures
        items_view(final(menu)@) == items_view(old(menu)@).push(item_view(item)),
{
    proof { lemma_items_view_push(menu@, item); }
    menu.push(item);
}

/// The tray menu: Open, then each connected paired device with what can be
/// done to it (left out while the paired devices are unknown, e.g. the
/// daemon didn't start: `running` is then `None`), then Settings and Quit.
pub fn tray_menu(running: Option<(&Vec<DeviceSnapshot>, &Features)>) -> (menu: Vec<TrayItem>)
    ensures
        items_view(menu@) == tray_menu_of(match running { Some((p, f)) => Some((p@, *f)), None => None }),
{
    let mut menu: Vec<TrayItem> = Vec::new();
    push_item(&mut menu, TrayItem::Item { label: owned("Open MyConnect"), command: Some(TrayCommand::Open) });
    push_item(&mut menu, TrayItem::Separator);
    let ghost head = items_view(menu@);
    match running {
        None => {}
        Some((paired, features)) => {
            let mut any = false;
            let mut j: usize = 0;
            while j < paired.len()
                invariant
                    j <= paired@.len(),
                    any == exists|i: int| 0 <= i < j && connected(#[trigger] paired@[i]),
                decreases paired@.len() - j,
            {
                if is_connected(&paired[j]) {
                    any = true;
                }
                j = j + 1;
            }
            if paired.len() == 0 {
                push_item(&mut menu, TrayItem::Item { label: owned("No paired devices"), command: None });
            } else if !any {
                push_item(&mut menu, TrayItem::Item { label: owned("No devices connected"), command: None });
            }
            let ghost noted = items_view(menu@);
            let mut i: usize = 0;
            assert(paired@.take(0) =~= Seq::<DeviceSnapshot>::empty());
            assert(noted + device_menus(paired@.take(0), *features) =~= noted);
            while i < paired.len()
                invariant
                    i <= paired@.len(),
                    items_view(menu@) == noted + device_menus(paired@.take(i as int), *features),
                decreases paired@.len() - i,
            {
                assert(paired@.take(i + 1).drop_last() =~= paired@.take(i as int));
                assert(paired@.take(i + 1).last() == paired@[i as int]);
                if is_connected(&paired[i]) {
                    let submenu = device_menu(&paired[i], features);
                    push_item(&mut menu, submenu);
                }
                i = i + 1;
            }
            assert(paired@.take(paired@.len() as int) =~= paired@);
            push_item(&mut menu, TrayItem::Separator);
        }
    }
    push_item(&mut menu, TrayItem::Item { label: owned("Settings"), command: Some(TrayCommand::Settings) });
    push_item(&mut menu, TrayItem::Separator);
    push_item(&mut menu, TrayItem::Item { label: owned("Quit"), command: Some(TrayCommand::Quit) });
    assert(items_view(menu@) =~= tray_menu_of(match running { Some((p, f)) => Some((p@, *f)), None => None }));
    menu
}

/// How deep submenus nest in `items`.
pub open spec fn nesting(items: Seq<TrayItemView>) -> nat
    decreases items,
{
    if items.len() == 0 {
        0
    } else {
        let first: nat = match items[0] {
            TrayItemView::Submenu { items: inner, .. } => 1 + nesting(inner),
            _ => 0,
        };
        let rest = nesting(items.drop_first());
        if first >= rest { first } else { rest }
    }
}

/// Rows by what they show.
pub open spec fn rows_view(rows: Seq<(usize, Option<String>, bool)>) -> Seq<Row> {
    rows.map_values(|row: (usize, Option<String>, bool)| (row.0 as nat, crate::route::opt_text(row.1), row.2))
}

proof fn lemma_items_view(items: Seq<TrayItem>)
    ensures
        items_view(items).len() == items.len(),
        forall|i: int| 0 <= i < items.len() ==> #[trigger] items_view(items)[i] == item_view(items[i]),
    decreases items.len(),
{
    if items.len() > 0 {
        lemma_items_view(items.drop_last());
        assert forall|i: int| 0 <= i < items.len() implies #[trigger] items_view(items)[i] == item_view(items[i]) by {
            if i < items.len() - 1 {
                assert(items[i] == items.drop_last()[i]);
            }
        }
    }
}

proof fn lemma_layout_append(a: Seq<TrayItemView>, b: Seq<TrayItemView>, depth: nat)
    ensures
        layout_of(a + b, depth) == layout_of(a, depth) + layout_of(b, depth),
    decreases a.len(),
{
    if a.len() == 0 {
        assert(a + b =~= b);
    } else {
        assert((a + b).drop_first() =~= a.drop_first() + b);
        assert((a + b)[0] == a[0]);
        lemma_layout_append(a.drop_first(), b, depth);
    }
}

proof fn lemma_nesting_bounds(items: Seq<TrayItemView>, i: int)
    requires
        0 <= i < items.len(),
    ensures
        items[i] matches TrayItemView::Submenu { items: inner, .. } ==> 1 + nesting(inner) <= nesting(items),
    decreases items.len(),
{
    if i > 0 {
        lemma_nesting_bounds(items.drop_first(), i - 1);
        assert(items.drop_first()[i - 1] == items[i]);
    }
}

/// Appends the rows of `items`, at `depth`, to `out`.
fn walk(items: &Vec<TrayItem>, depth: usize, out: &mut Vec<(usize, Option<String>, bool)>)
    requires
        depth + nesting(items_view(items@)) <= usize::MAX,
    ensures
        rows_view(final(out)@) == rows_view(old(out)@) + layout_of(items_view(items@), depth as nat),
    decreases items@,
{
    let ghost all = items_view(items@);
    proof { lemma_items_view(items@); }
    let mut i: usize = 0;
    assert(all.take(0) =~= Seq::<TrayItemView>::empty());
    assert(rows_view(out@) =~= rows_view(old(out)@) + layout_of(all.take(0), depth as nat));
    while i < items.len()
        invariant
            i <= items@.len() == all.len(),
            all == items_view(items@),
            depth + nesting(all) <= usize::MAX,
            forall|j: int| 0 <= j < items@.len() ==> #[trigger] all[j] == item_view(items@[j]),
            rows_view(out@) == rows_view(old(out)@) + layout_of(all.take(i as int), depth as nat),
        decreases items@.len() - i,
    {
        let ghost before = rows_view(out@);
        let ghost one = seq![all[i as int]];
        proof {
            assert(all.take(i + 1) =~= all.take(i as int) + one);
            lemma_layout_append(all.take(i as int), one, depth as nat);
            assert(one.drop_first() =~= Seq::<TrayItemView>::empty());
            assert(layout_of(one.drop_first(), depth as nat) =~= Seq::<Row>::empty());
        }
        match &items[i] {
            TrayItem::Item { label, command } => {
                out.push((depth, Some(owned(label.as_str())), command.is_some()));
                assert(rows_view(out@) =~= before.push((depth as nat, Some(label@), command is Some)));
                assert(layout_of(one, depth as nat) =~= seq![(depth as nat, Some(label@), command is Some)]);
                assert(rows_view(out@) =~= rows_view(old(out)@) + layout_of(all.take(i + 1), depth as nat));
            }
            TrayItem::Separator => {
                out.push((depth, None, false));
                assert(rows_view(out@) =~= before.push((depth as nat, None, false)));
                assert(layout_of(one, depth as nat) =~= seq![(depth as nat, None, false)]);
                assert(rows_view(out@) =~= rows_view(old(out)@) + layout_of(all.take(i + 1), depth as nat));
            }
            TrayItem::Submenu { label, items: inner } => {
                out.push((depth, Some(owned(label.as_str())), true));
                assert(rows_view(out@) =~= before.push((depth as nat, Some(label@), true)));
                proof {
                    lemma_nesting_bounds(all, i as int);
                    broadcast use vstd::std_specs::vec::axiom_vec_decreases_to_view;
                }
                let ghost pushed = rows_view(out@);
                walk(inner, depth + 1, out);
                assert(layout_of(one, depth as nat) =~= seq![(depth as nat, Some(label@), true)]
                    + layout_of(items_view(inner@), depth as nat + 1));
                assert(rows_view(out@) =~= rows_view(old(out)@) + layout_of(all.take(i + 1), depth as nat));
            }
        }
        i = i + 1;
    }
    assert(all.take(items@.len() as int) =~= all);
}

/// What a menu shows, depth first: each entry's depth, label, and whether
/// it is enabled. Two menus with the same layout look the same, so the
/// tray isn't rebuilt for every transfer's progress.
pub fn layout(items: &Vec<TrayItem>) -> (rows: Vec<(usize, Option<String>, bool)>)
    requires
        nesting(items_view(items@)) <= usize::MAX,
    ensures
        rows_view(rows@) == layout_of(items_view(items@), 0),
{
    let mut rows = Vec::new();
    walk(items, 0, &mut rows);
    assert(rows_view(rows@) =~= Seq::<Row>::empty() + layout_of(items_view(items@), 0));
    rows
}

/// Whether two layouts show the same.
pub fn same_layout(a: &Vec<(usize, Option<String>, bool)>, b: &Vec<(usize, Option<String>, bool)>) -> (r: bool)
    ensures
        r == (rows_view(a@) == rows_view(b@)),
{
    if a.len() != b.len() {
        assert(rows_view(a@).len() != rows_view(b@).len());
        return false;
    }
    let mut i: usize = 0;
    while i < a.len()
        invariant
            i <= a@.len() == b@.len(),
            forall|j: int| 0 <= j < i ==> #[trigger] rows_view(a@)[j] == rows_view(b@)[j],
        decreases a@.len() - i,
    {
        let (x_depth, x_label, x_enabled) = &a[i];
        let (y_depth, y_label, y_enabled) = &b[i];
        let same_label = match (x_label, y_label) {
            (Some(x), Some(y)) => same(x.as_str(), y.as_str()),
            (None, None) => true,
            _ => false,
        };
        if *x_depth != *y_depth || !same_label || *x_enabled != *y_enabled {
            assert(rows_view(a@)[i as int] != rows_view(b@)[i as int]);
            return false;
        }
        i = i + 1;
    }
    assert(rows_view(a@) =~= rows_view(b@));
    true
}

/// A label for a D-Bus menu (Linux): a single underscore marks an access
/// key there, so each is doubled.
pub fn escape_dbus(label: &str) -> (r: String)
    ensures
        r@ == replaced(label@, '_', "__"@),
{
    replace_char(label, '_', "__")
}

/// A label for a `muda` menu (macOS, Windows): without Fluent's bidi
/// isolation marks, which Windows menus draw as boxes, and with each `&`
/// doubled, since a single one marks a mnemonic there.
pub fn escape_native(label: &str) -> (r: String)
    ensures
        r@ == replaced(without(label@, seq!['\u{2068}', '\u{2069}']), '&', "&&"@),
{
    let marks = "\u{2068}\u{2069}";
    proof {
        reveal_strlit("\u{2068}\u{2069}");
    }
    assert(marks@ =~= seq!['\u{2068}', '\u{2069}']);
    let plain = remove_chars(label, marks);
    replace_char(plain.as_str(), '&', "&&")
}

} // verus!
