//! Windows: what keeps the daemon from starting, and how it starts with the session.

use crate::events::EventTriggers;
use crate::text::{replace_all, replaced};
use vstd::prelude::*;
use vstd::string::*;

verus! {

/// Why the daemon must not start.
#[derive(Clone, Copy, Debug, PartialEq, Eq, Structural)]
pub enum PreflightError {
    DriverMissing,
    OfficialAppRunning,
    AlreadyRunning,
}

/// Decides whether the daemon may start. The counts are those of running programs; the daemon itself
/// is one.
pub fn perform_platform_preflight(driver: bool, official_apps: usize, utilities: usize) -> (result:
    Result<(), PreflightError>)
    ensures
        result.err() == (if !driver {
            Some(PreflightError::DriverMissing)
        } else if official_apps > 0 {
            Some(PreflightError::OfficialAppRunning)
        } else if utilities > 1 {
            Some(PreflightError::AlreadyRunning)
        } else {
            None
        }),
{
    if !driver {
        return Err(PreflightError::DriverMissing);
    }
    if official_apps > 0 {
        return Err(PreflightError::OfficialAppRunning);
    }
    if utilities > 1 {
        return Err(PreflightError::AlreadyRunning);
    }
    Ok(())
}

/// Finds whether the driver is there: at the place that the registry names, or at the usual one.
pub fn locate_goxlr_driver(registered: Option<bool>, usual: bool) -> (found: bool)
    ensures
        found == (registered == Some(true) || usual),
{
    if let Some(true) = registered {
        return true;
    }
    usual
}

/// Something that happens while the daemon runs.
#[derive(Clone, Copy, Debug, PartialEq, Eq, Structural)]
pub enum RuntimeEvent {
    /// A second went by, and so many official programs run.
    Tick(usize),
    /// The console or the session ends.
    SessionEnds,
    /// The daemon stops.
    Shutdown,
}

/// What is done about it.
#[derive(Debug)]
pub enum RuntimeAction {
    Wait,
    /// The user is told, and the daemon ends without touching the devices.
    NotifyAndEnd(EventTriggers),
    Send(EventTriggers),
    End,
}

/// Decides what is done about something that happens while the daemon runs.
pub fn spawn_platform_runtime(event: RuntimeEvent) -> (action: RuntimeAction)
    ensures
        action == (match event {
            RuntimeEvent::Tick(count) => if count > 0 {
                RuntimeAction::NotifyAndEnd(EventTriggers::DevicesStopped)
            } else {
                RuntimeAction::Wait
            },
            RuntimeEvent::SessionEnds => RuntimeAction::Send(EventTriggers::Stop(false)),
            RuntimeEvent::Shutdown => RuntimeAction::End,
        }),
{
    match event {
        RuntimeEvent::Tick(count) => {
            if count > 0 {
                RuntimeAction::NotifyAndEnd(EventTriggers::DevicesStopped)
            } else {
                RuntimeAction::Wait
            }
        },
        RuntimeEvent::SessionEnds => RuntimeAction::Send(EventTriggers::Stop(false)),
        RuntimeEvent::Shutdown => RuntimeAction::End,
    }
}

/// Finds whether the daemon starts with the session. `link` says whether its link is in the directory
/// of the programs that do; nothing where there is no such directory.
pub fn has_autostart(link: Option<bool>) -> (has: bool)
    ensures
        has == (link == Some(true)),
{
    match link {
        Some(there) => there,
        None => false,
    }
}

/// Finds the directory of the programs that start with the session, from what the registry says and
/// the directory of the user.
pub fn get_startup_dir(registered: &str, profile: &str) -> (directory: String)
    ensures
        directory@ == replaced(registered@, "%USERPROFILE%"@, profile@),
{
    proof {
        reveal_strlit("%USERPROFILE%");
    }
    replace_all(registered, "%USERPROFILE%", profile)
}

} // verus!
