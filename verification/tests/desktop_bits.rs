use myconnect::licenses::{beside, Layout};
use myconnect::placement::PlacementStore;
use myconnect::tray::{escape_dbus, escape_native};
use myconnect::incoming::view;

#[test]
fn the_notices_are_where_the_package_puts_them() {
    assert_eq!(
        beside("/Applications/Ferry.app/Contents/MacOS/Ferry", Layout::MacOs),
        "/Applications/Ferry.app/Contents/Resources/THIRD_PARTY_LICENSES.html"
    );
    assert_eq!(
        beside("/usr/bin/ferry-gui", Layout::Linux),
        "/usr/share/doc/ferry/THIRD_PARTY_LICENSES.html"
    );
    assert_eq!(
        beside(r"C:\Users\me\AppData\Local\Programs\Ferry\Ferry.exe", Layout::Windows),
        r"C:\Users\me\AppData\Local\Programs\Ferry\THIRD_PARTY_LICENSES.html"
    );
}

#[test]
fn the_data_dir_holds_the_file_when_given() {
    let store = PlacementStore::for_data_dir(Some("/tmp/run/data"), "/home/me/.local/state/ferry");
    assert_eq!(store.file, "/tmp/run/data/window.json");
}

#[test]
fn labels_keep_their_ampersands() {
    assert_eq!(escape_native("Tom & Jerry"), "Tom && Jerry");
}

#[test]
fn labels_lose_their_isolation_marks() {
    assert_eq!(escape_native("\u{2068}82\u{2069}%"), "82%");
}

#[test]
fn labels_keep_their_underscores() {
    assert_eq!(escape_dbus("my_phone"), "my__phone");
}

#[test]
fn nothing_shows_without_a_request() {
    assert!(view(&[], false, None).is_none());
}
