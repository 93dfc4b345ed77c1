//! Where the main window's placement is kept: `window.json`, in the data
//! dir given, else in the platform's state directory.

use vstd::prelude::*;
use crate::paths::{join, join_path};
use crate::text::owned;

verus! {

/// The placement file's name.
pub const FILE_NAME: &'static str = "window.json";

/// Keeps the window's placement in a small JSON file.
#[derive(Debug, Clone)]
pub struct PlacementStore {
    pub file: String,
}

impl PlacementStore {
    pub fn new(file: String) -> (store: Self)
        ensures
            store.file@ == file@,
    {
        PlacementStore { file }
    }

    /// The file in `data_dir` when one is given, so a test or a second
    /// instance doesn't share the owner's window, else in `default_dir`,
    /// the platform's state directory ([`default_dir`]).
    pub fn for_data_dir(data_dir: Option<&str>, default_dir: &str) -> (store: Self)
        ensures
            store.file@ == join_path(match data_dir { Some(d) => d@, None => default_dir@ }, FILE_NAME@),
    {
        let file = match data_dir {
            Some(dir) => join(dir, FILE_NAME),
            None => join(default_dir, FILE_NAME),
        };
        Self::new(file)
    }
}

/// The operating systems whose state directory is known here.
#[derive(Debug, Clone, Copy, PartialEq, Eq, Structural)]
pub enum System {
    /// XDG's state directory, meant for things like window layout.
    Linux,
    /// Application Support.
    MacOs,
}

/// Where `window.json` lives: `$XDG_STATE_HOME/ferry` (else
/// `~/.local/state/ferry`) on Linux, `~/Library/Application Support/Ferry`
/// on macOS. An empty variable counts as unset.
pub open spec fn default_dir_of(system: System, home: Seq<char>, state_home: Option<Seq<char>>) -> Seq<char> {
    match system {
        System::MacOs => join_path(home, "Library/Application Support/Ferry"@),
        System::Linux => {
            let base = match state_home {
                Some(s) if s.len() > 0 => s,
                _ => join_path(home, ".local/state"@),
            };
            join_path(base, "ferry"@)
        },
    }
}

/// Where `window.json` lives, from `$HOME` and `$XDG_STATE_HOME`.
pub fn default_dir(system: System, home: &str, state_home: Option<&str>) -> (dir: String)
    ensures
        dir@ == default_dir_of(system, home@, match state_home { Some(s) => Some(s@), None => None }),
{
    match system {
        System::MacOs => join(home, "Library/Application Support/Ferry"),
        System::Linux => {
            let base = match state_home {
                Some(s) => {
                    if s.unicode_len() > 0 { owned(s) } else { join(home, ".local/state") }
                }
                None => join(home, ".local/state"),
            };
            join(base.as_str(), "ferry")
        }
    }
}

/// On Linux the file lives in `$XDG_STATE_HOME/ferry` when that is set
/// (and not empty), else in `~/.local/state/ferry`; on macOS in
/// `~/Library/Application Support/Ferry`.
pub proof fn the_state_home_holds_the_file(home: Seq<char>, state_home: Seq<char>)
    ensures
        state_home.len() > 0 ==> default_dir_of(System::Linux, home, Some(state_home)) == join_path(state_home, "ferry"@),
        default_dir_of(System::Linux, home, None) == join_path(join_path(home, ".local/state"@), "ferry"@),
        default_dir_of(System::Linux, home, Some(Seq::empty())) == join_path(join_path(home, ".local/state"@), "ferry"@),
        default_dir_of(System::MacOs, home, Some(state_home)) == join_path(home, "Library/Application Support/Ferry"@),
{
}

} // verus!
