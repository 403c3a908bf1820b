//! The rules of the programs beside the daemon: the sliders of the small window, the program that
//! writes the first files, the one that tries out a firmware, and the one that wakes new devices.

use crate::text::same_text;
use crate::types::DeviceType;
use crate::worker::{is_goxlr, PID_GOXLR_FULL, PID_GOXLR_MINI, VID_GOXLR};
use vstd::prelude::*;
use vstd::string::*;

verus! {

/// The percentage that is shown for the place of a slider. It is rounded down, and one is added
/// unless it is nothing.
pub open spec fn slider_percent(value: int) -> int {
    let percent = value * 1000 / 255 * 100 / 1000;
    if percent != 0 {
        percent + 1
    } else {
        0
    }
}

/// Works out the percentage that is shown for the place of a slider.
pub fn on_slider_moved(value: i32) -> (percent: i32)
    requires
        0 <= value <= 255,
    ensures
        percent == slider_percent(value as int),
{
    let percent: i32 = (((value * 1000) / 255) * 100) / 1000;
    if percent != 0 {
        percent + 1
    } else {
        percent
    }
}

/// The place of a slider for a percentage, rounded down.
pub open spec fn slider_place(percent: int) -> int {
    percent * 1000 / 100 * 255 / 1000
}

/// Works out the place of a slider for a percentage.
pub fn on_spin_change(percent: i32) -> (place: i32)
    requires
        0 <= percent <= 100,
    ensures
        place == slider_place(percent as int),
{
    (((percent * 1000) / 100) * 255) / 1000
}

/// A higher percentage never moves a slider down, and every percentage has a place on it.
pub proof fn places_are_monotonic(low: int, high: int)
    requires
        0 <= low <= high <= 100,
    ensures
        0 <= slider_place(low) <= slider_place(high) <= 255,
{
}

/// A slider that is moved up never shows less.
pub proof fn sliders_are_monotonic(low: int, high: int)
    requires
        0 <= low <= high <= 255,
    ensures
        slider_percent(low) <= slider_percent(high),
{
}

/// What is wrong with the directory that the first files are to be written to.
#[derive(Clone, Copy, Debug, PartialEq, Eq, Structural)]
pub enum DirectoryError {
    PathNotExist,
    PathNotDir,
}

/// Decides whether the first files can be written to a path.
pub fn check_directory(exists: bool, is_directory: bool) -> (result: Result<(), DirectoryError>)
    ensures
        result.err() == (if !exists {
            Some(DirectoryError::PathNotExist)
        } else if !is_directory {
            Some(DirectoryError::PathNotDir)
        } else {
            None
        }),
{
    if !exists {
        return Err(DirectoryError::PathNotExist);
    }
    if !is_directory {
        return Err(DirectoryError::PathNotDir);
    }
    Ok(())
}

/// What is done with one of the first files.
#[derive(Clone, Copy, Debug, PartialEq, Eq, Structural)]
pub enum FileAction {
    Skip,
    Replace,
    Write,
}

/// Decides what is done with one of the first files. One that is there is kept, unless it is to be
/// overwritten.
pub fn extract_file(exists: bool, overwrite: bool) -> (action: FileAction)
    ensures
        action == (if !exists {
            FileAction::Write
        } else if overwrite {
            FileAction::Replace
        } else {
            FileAction::Skip
        }),
{
    if !exists {
        FileAction::Write
    } else if overwrite {
        FileAction::Replace
    } else {
        FileAction::Skip
    }
}

/// Why a firmware is not tried out.
#[derive(Clone, Copy, Debug, PartialEq, Eq, Structural)]
pub enum TrialError {
    NotSure,
    NoDevice,
    SeveralDevices,
    NoSerial,
    UntestedDevice,
}

/// Decides whether a firmware is tried out: the user must say that they are sure, and there must be
/// one device, of the larger kind or of a kind that is not known, that tells its serial number.
pub fn check_trial(args: &Vec<String>, devices: usize, serial: &str, device_type: DeviceType) -> (result:
    Result<(), TrialError>)
    ensures
        result.err() == (if args@.len() < 3 || args@[1]@ != "I-AM-REALLY-SURE"@ {
            Some(TrialError::NotSure)
        } else if devices == 0 {
            Some(TrialError::NoDevice)
        } else if devices > 1 {
            Some(TrialError::SeveralDevices)
        } else if serial@.len() == 0 {
            Some(TrialError::NoSerial)
        } else if device_type == DeviceType::Mini {
            Some(TrialError::UntestedDevice)
        } else {
            None
        }),
{
    if args.len() < 3 || !same_text(args[1].as_str(), "I-AM-REALLY-SURE") {
        return Err(TrialError::NotSure);
    }
    if devices == 0 {
        return Err(TrialError::NoDevice);
    }
    if devices > 1 {
        return Err(TrialError::SeveralDevices);
    }
    if serial.is_empty() {
        return Err(TrialError::NoSerial);
    }
    if device_type == DeviceType::Mini {
        return Err(TrialError::UntestedDevice);
    }
    Ok(())
}

/// Takes note of bytes that the device found right on a trial, of those that were sent. Gives how
/// many it has looked at, and how many are left; nothing where it claims more than were left.
pub fn count_validated(processed: u32, remaining: u32, count: u32) -> (counts: Option<(u32, u32)>)
    requires
        processed + remaining <= u32::MAX,
    ensures
        counts == (if count > remaining {
            None
        } else {
            Some(((processed + count) as u32, (remaining - count) as u32))
        }),
{
    if count > remaining {
        return None;
    }
    Some((processed + count, remaining - count))
}

/// A transfer of one of the kinds that wake a device, or what stands around them.
#[derive(Clone, Copy, Debug, PartialEq, Eq)]
pub enum WakeStep {
    /// The system lets go of the device while it is claimed. A failure does not matter.
    DetachDriver,
    Claim(u8),
    /// A request to the vendor's interface that is answered with so many bytes.
    ReadVendor { request: u8, value: u16, index: u16, length: usize },
    /// A request to the audio interface, with four bytes.
    WriteClass { request: u8, value: u16, index: u16, data: (u8, u8, u8, u8) },
    Release(u8),
    /// The device starts anew, and the system with it.
    Reset,
}

/// What wakes a device: its own interface is switched on, then its audio at 48000 samples a second,
/// and it starts anew.
pub open spec fn wake_steps() -> Seq<WakeStep> {
    seq![
        WakeStep::DetachDriver,
        WakeStep::Claim(0),
        WakeStep::ReadVendor { request: 0, value: 0, index: 0, length: 24 },
        WakeStep::WriteClass {
            request: 1,
            value: 0x0100,
            index: 0x2900,
            data: (0x80, 0xbb, 0x00, 0x00),
        },
        WakeStep::Release(0),
        WakeStep::Reset,
    ]
}

/// Lists what wakes a device.
pub fn initialize_device() -> (steps: Vec<WakeStep>)
    ensures
        steps@ == wake_steps(),
{
    let steps: Vec<WakeStep> = vec![
        WakeStep::DetachDriver,
        WakeStep::Claim(0),
        WakeStep::ReadVendor { request: 0, value: 0, index: 0, length: 24 },
        WakeStep::WriteClass {
            request: 1,
            value: 0x0100,
            index: 0x2900,
            data: (0x80, 0xbb, 0x00, 0x00),
        },
        WakeStep::Release(0),
        WakeStep::Reset,
    ];
    assert(steps@ =~= wake_steps());
    steps
}

/// What is done about a device that was found.
#[derive(Clone, Copy, Debug, PartialEq, Eq, Structural)]
pub enum FoundAction {
    /// The device is of another kind.
    Skip,
    /// The device cannot be opened, and the user is told.
    Report,
    Wake,
    /// The device is awake; its answer to the first request, of at most 1040 bytes, is thrown away.
    Drain,
}

/// Decides what is done about a device that was found: it sleeps if it refuses the first request.
/// `opened` says whether it can be opened, and `stalled` whether it refuses.
pub fn check_state(vendor_id: u16, product_id: u16, opened: bool, stalled: bool) -> (action:
    FoundAction)
    ensures
        action == (if vendor_id != VID_GOXLR || (product_id != PID_GOXLR_FULL && product_id
            != PID_GOXLR_MINI) {
            FoundAction::Skip
        } else if !opened {
            FoundAction::Report
        } else if stalled {
            FoundAction::Wake
        } else {
            FoundAction::Drain
        }),
{
    if !is_goxlr(vendor_id, product_id) {
        return FoundAction::Skip;
    }
    if !opened {
        return FoundAction::Report;
    }
    if stalled {
        FoundAction::Wake
    } else {
        FoundAction::Drain
    }
}

} // verus!
