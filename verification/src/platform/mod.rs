//! What differs from one operating system to another.

use crate::cli::LevelFilter;
use crate::files::BinaryPlace;
use vstd::prelude::*;
use vstd::string::*;

pub mod headphone_eq;
pub mod linux;
pub mod macos;
pub mod windows;

verus! {

/// Systems without checks of their own let the daemon start.
pub fn perform_platform_preflight() -> (result: Result<(), ()>)
    ensures
        result is Ok,
{
    Ok(())
}

/// Names the program of the user interface.
pub fn get_ui_binary_name(windows: bool) -> (name: String)
    ensures
        name@ == (if windows {
            "goxlr-utility-ui.exe"@
        } else {
            "goxlr-utility-ui"@
        }),
{
    if windows {
        "goxlr-utility-ui.exe".to_owned()
    } else {
        "goxlr-utility-ui".to_owned()
    }
}

/// Decides where the user interface is taken from, given where it is; nothing where it is nowhere.
pub fn get_ui_app_path(in_current: bool, in_own: bool, in_search_path: bool) -> (place: Option<
    BinaryPlace,
>)
    ensures
        place == (if in_current {
            Some(BinaryPlace::CurrentDirectory)
        } else if in_own {
            Some(BinaryPlace::OwnDirectory)
        } else if in_search_path {
            Some(BinaryPlace::SearchPath)
        } else {
            None
        }),
{
    if in_current {
        Some(BinaryPlace::CurrentDirectory)
    } else if in_own {
        Some(BinaryPlace::OwnDirectory)
    } else if in_search_path {
        Some(BinaryPlace::SearchPath)
    } else {
        None
    }
}

/// Decides whether the daemon may start for this user: not for the administrator, unless that was
/// asked for.
pub fn may_start(is_root: bool, force_root: bool) -> (may: bool)
    ensures
        may == (!is_root || force_root),
{
    !is_root || force_root
}

/// Decides how much is written to the log: what was asked for at the start, or else what is set.
pub fn log_level(asked: Option<LevelFilter>, set: LevelFilter) -> (level: LevelFilter)
    ensures
        level == (match asked {
            Some(level) => level,
            None => set,
        }),
{
    match asked {
        Some(level) => level,
        None => set,
    }
}

/// Decides where clients may come from: what was asked for at the start, or else what is set.
pub fn bind_address(asked: Option<&str>, allow_network_access: bool) -> (address: String)
    ensures
        address@ == (match asked {
            Some(address) => address@,
            None => if allow_network_access {
                "0.0.0.0"@
            } else {
                "localhost"@
            },
        }),
{
    match asked {
        Some(address) => address.to_owned(),
        None => {
            if allow_network_access {
                "0.0.0.0".to_owned()
            } else {
                "localhost".to_owned()
            }
        },
    }
}

/// Decides whether the tray has an icon: what was asked for at the start, or else what is set.
pub fn show_tray(asked: Option<bool>, set: bool) -> (show: bool)
    ensures
        show == (match asked {
            Some(show) => show,
            None => set,
        }),
{
    match asked {
        Some(show) => show,
        None => set,
    }
}

} // verus!
