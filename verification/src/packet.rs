//! What clients ask of the daemon, and where each request goes.

use crate::cli::LevelFilter;
use crate::command::GoXLRCommand;
use vstd::prelude::*;
use vstd::string::*;

verus! {

/// A kind of file that has a directory of its own.
#[derive(Clone, Copy, Debug, PartialEq, Eq, Structural)]
pub enum PathTypes {
    Profiles,
    MicProfiles,
    Presets,
    Samples,
    Icons,
    Logs,
    Backups,
}

/// A command to the daemon itself.
#[derive(Debug)]
pub enum DaemonCommand {
    StopDaemon,
    OpenUi,
    Activate,
    RecoverDefaults(PathTypes),
    SetAutoStartEnabled(bool),
    SetLogLevel(LevelFilter),
    SetLocale(Option<String>),
    SetUiLaunchOnLoad(bool),
    SetShowTrayIcon(bool),
    SetTTSEnabled(bool),
    SetAllowNetworkAccess(bool),
    OpenPath(PathTypes),
    SetSampleGainPct(String, u8),
    ApplySampleChange,
    SetActivatorPath(Option<String>),
}

/// A request of a client.
#[derive(Debug)]
pub enum DaemonRequest {
    Ping,
    GetHttpState,
    OpenUi,
    RecoverDefaults(PathTypes),
    SetAutoStartEnabled(bool),
    StopDaemon,
    SetShowTrayIcon(bool),
    GetStatus,
    OpenPath(PathTypes),
    Command(String, GoXLRCommand),
}

/// A command to the task that holds the devices.
#[derive(Debug)]
pub enum DeviceCommand {
    SendDaemonStatus,
    RunDaemonCommand(DaemonCommand),
    RunDeviceCommand(String, GoXLRCommand),
    GetDeviceMicLevel(String),
    RunFirmwareUpdate(String, Option<String>),
    ClearFirmwareState(String),
}

/// An answer to a client. Status, level, settings and patches travel beside it.
#[derive(Debug)]
pub enum DaemonResponse {
    Done,
    Error(String),
    Status,
    MicLevel,
    HttpState,
    Patch,
}

/// What the client is answered once a command was sent on.
#[derive(Clone, Copy, Debug, PartialEq, Eq, Structural)]
pub enum Awaited {
    /// `Done`, without waiting for the task.
    Nothing,
    /// `Done` or the error, as the task says of a command to the daemon.
    Outcome,
    /// `Done` or the error, as the task says of a command to a device.
    DeviceOutcome,
    /// The status that the task sends.
    Status,
}

/// Where a request goes.
#[derive(Debug)]
pub enum Dispatch {
    /// It is answered at once.
    Answer(DaemonResponse),
    /// It is sent on to the task that holds the devices.
    Forward(DeviceCommand, Awaited),
}

/// Where a request goes.
pub open spec fn dispatch_of(request: DaemonRequest) -> Dispatch {
    match request {
        DaemonRequest::Ping => Dispatch::Answer(DaemonResponse::Done),
        DaemonRequest::GetHttpState => Dispatch::Answer(DaemonResponse::HttpState),
        DaemonRequest::OpenUi => Dispatch::Forward(
            DeviceCommand::RunDaemonCommand(DaemonCommand::OpenUi),
            Awaited::Outcome,
        ),
        DaemonRequest::RecoverDefaults(kind) => Dispatch::Forward(
            DeviceCommand::RunDaemonCommand(DaemonCommand::RecoverDefaults(kind)),
            Awaited::Outcome,
        ),
        DaemonRequest::SetAutoStartEnabled(enabled) => Dispatch::Forward(
            DeviceCommand::RunDaemonCommand(DaemonCommand::SetAutoStartEnabled(enabled)),
            Awaited::Outcome,
        ),
        DaemonRequest::StopDaemon => Dispatch::Forward(
            DeviceCommand::RunDaemonCommand(DaemonCommand::StopDaemon),
            Awaited::Outcome,
        ),
        DaemonRequest::SetShowTrayIcon(enabled) => Dispatch::Forward(
            DeviceCommand::RunDaemonCommand(DaemonCommand::SetShowTrayIcon(enabled)),
            Awaited::Outcome,
        ),
        DaemonRequest::GetStatus => Dispatch::Forward(
            DeviceCommand::SendDaemonStatus,
            Awaited::Status,
        ),
        DaemonRequest::OpenPath(kind) => Dispatch::Forward(
            DeviceCommand::RunDaemonCommand(DaemonCommand::OpenPath(kind)),
            Awaited::Nothing,
        ),
        DaemonRequest::Command(serial, command) => Dispatch::Forward(
            DeviceCommand::RunDeviceCommand(serial, command),
            Awaited::DeviceOutcome,
        ),
    }
}

/// Finds where a request goes.
pub fn handle_packet(request: DaemonRequest) -> (dispatch: Dispatch)
    ensures
        dispatch == dispatch_of(request),
{
    let command = match request {
        DaemonRequest::Ping => return Dispatch::Answer(DaemonResponse::Done),
        DaemonRequest::GetHttpState => return Dispatch::Answer(DaemonResponse::HttpState),
        DaemonRequest::GetStatus => {
            return Dispatch::Forward(DeviceCommand::SendDaemonStatus, Awaited::Status);
        },
        DaemonRequest::OpenPath(kind) => {
            return Dispatch::Forward(
                DeviceCommand::RunDaemonCommand(DaemonCommand::OpenPath(kind)),
                Awaited::Nothing,
            );
        },
        DaemonRequest::Command(serial, command) => {
            return Dispatch::Forward(
                DeviceCommand::RunDeviceCommand(serial, command),
                Awaited::DeviceOutcome,
            );
        },
        DaemonRequest::OpenUi => DaemonCommand::OpenUi,
        DaemonRequest::RecoverDefaults(kind) => DaemonCommand::RecoverDefaults(kind),
        DaemonRequest::SetAutoStartEnabled(enabled) => DaemonCommand::SetAutoStartEnabled(enabled),
        DaemonRequest::StopDaemon => DaemonCommand::StopDaemon,
        DaemonRequest::SetShowTrayIcon(enabled) => DaemonCommand::SetShowTrayIcon(enabled),
    };
    Dispatch::Forward(DeviceCommand::RunDaemonCommand(command), Awaited::Outcome)
}

/// What became of a command that was sent on.
#[derive(Debug)]
pub enum Delivery {
    /// The task could not be reached.
    Unsent,
    /// The task went away without an answer, as this text says.
    Unanswered(String),
    /// The task did what was asked.
    Done,
    /// The task refused, for this reason.
    Refused(String),
}

/// What the client is told where the task could not be reached.
pub open spec fn unsent_text(awaited: Awaited) -> Seq<char> {
    match awaited {
        Awaited::Outcome => "Cound not communicate with the device task"@,
        Awaited::DeviceOutcome => "Could not communicate with the GoXLR device"@,
        _ => "Could not communicate with the device task"@,
    }
}

/// Finds what the client is told where the task could not be reached.
fn get_unsent_text(awaited: Awaited) -> (text: String)
    ensures
        text@ == unsent_text(awaited),
{
    match awaited {
        Awaited::Outcome => "Cound not communicate with the device task".to_owned(),
        Awaited::DeviceOutcome => "Could not communicate with the GoXLR device".to_owned(),
        _ => "Could not communicate with the device task".to_owned(),
    }
}

/// What the client is told where the task went away, given what was said of that. A command to the
/// daemon hands it on.
pub open spec fn unanswered_text(awaited: Awaited, reason: Seq<char>) -> Seq<char> {
    match awaited {
        Awaited::Outcome => reason,
        Awaited::DeviceOutcome => "Could not execute the command on the GoXLR device"@,
        _ => "Could not execute the command on the device task"@,
    }
}

/// Finds what the client is told where the task went away.
fn get_unanswered_text(awaited: Awaited, reason: String) -> (text: String)
    ensures
        text@ == unanswered_text(awaited, reason@),
{
    match awaited {
        Awaited::Outcome => reason,
        Awaited::DeviceOutcome => "Could not execute the command on the GoXLR device".to_owned(),
        _ => "Could not execute the command on the device task".to_owned(),
    }
}

/// Finds what the client is answered once a command was sent on.
pub fn response_for(awaited: Awaited, delivery: Delivery) -> (response: DaemonResponse)
    ensures
        match delivery {
            Delivery::Unsent => response matches DaemonResponse::Error(text) && text@
                == unsent_text(awaited),
            Delivery::Unanswered(reason) => if awaited == Awaited::Nothing {
                response is Done
            } else {
                response matches DaemonResponse::Error(text) && text@ == unanswered_text(
                    awaited,
                    reason@,
                )
            },
            Delivery::Done => match awaited {
                Awaited::Status => response is Status,
                _ => response is Done,
            },
            Delivery::Refused(reason) => if awaited == Awaited::Nothing {
                response is Done
            } else {
                response == DaemonResponse::Error(reason)
            },
        },
{
    match delivery {
        Delivery::Unsent => DaemonResponse::Error(get_unsent_text(awaited)),
        Delivery::Unanswered(reason) => {
            if awaited == Awaited::Nothing {
                return DaemonResponse::Done;
            }
            DaemonResponse::Error(get_unanswered_text(awaited, reason))
        },
        Delivery::Done => match awaited {
            Awaited::Status => DaemonResponse::Status,
            _ => DaemonResponse::Done,
        },
        Delivery::Refused(reason) => {
            if awaited == Awaited::Nothing {
                return DaemonResponse::Done;
            }
            DaemonResponse::Error(reason)
        },
    }
}

/// Every request that is no command to the devices and asks for no settings is answered `Done` once
/// the task did it.
pub proof fn done_is_ok_or_status(request: DaemonRequest)
    ensures
        dispatch_of(request) matches Dispatch::Forward(_, awaited) ==> (awaited == Awaited::Status
            <==> request is GetStatus) && (awaited == Awaited::DeviceOutcome
            <==> request is Command),
        dispatch_of(request) is Answer <==> request is Ping || request is GetHttpState,
{
}

} // verus!
