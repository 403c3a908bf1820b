//! The task that holds the devices: which of them there are, what clients may do with them, and when
//! clients are told that something changed.

use crate::command::GoXLRCommand;
use crate::events::EventTriggers;
use crate::firmware_update::{FirmwareMessages, UpdateState};
use crate::packet::{DaemonCommand, DeviceCommand, PathTypes};
use crate::registry::Registry;
use crate::settings::{Settings, SettingsHandle};
use crate::text::{chars_of, decimal, decimal_text, joined, same_text, stands_at};
use crate::types::DeviceType;
use vstd::prelude::*;
use vstd::string::*;

verus! {

/// Where a device is plugged in. Not every system gives devices an identifier.
#[derive(Debug)]
pub struct UsbProductInformation {
    pub bus_number: u8,
    pub address: u8,
    pub identifier: Option<String>,
}

/// The state of a firmware update, as clients see it.
#[derive(Debug)]
pub struct FirmwareStatus {
    pub state: UpdateState,
    pub progress: u8,
    pub error: Option<String>,
}

/// A device that could not be loaded, and is left alone until a time in milliseconds.
#[derive(Debug)]
pub struct IgnoredDevice {
    pub device: UsbProductInformation,
    pub expires: u64,
}

/// How long a device that could not be loaded is left alone, in milliseconds.
pub const IGNORE_DEVICE_DURATION: u64 = 10_000;

/// The task that holds the devices.
#[derive(Debug)]
pub struct Worker {
    pub devices: Registry<UsbProductInformation>,
    pub firmware: Registry<Option<FirmwareStatus>>,
    pub shutdown_triggered: bool,
    pub app_path: Option<String>,
}

/// Why the state of an update is not cleared.
#[derive(Clone, Copy, Debug, PartialEq, Eq, Structural)]
pub enum ClearError {
    InProgress,
    NotUpdating,
    NotPresent,
}

/// The state of an update of a device, where there is one.
pub open spec fn status_of(firmware: Map<Seq<char>, Option<FirmwareStatus>>, serial: Seq<char>) -> Option<
    FirmwareStatus,
> {
    if firmware.dom().contains(serial) {
        firmware[serial]
    } else {
        None
    }
}

impl Worker {
    /// No device is plugged in.
    pub fn new() -> (worker: Worker)
        ensures
            worker.devices@ == Map::<Seq<char>, UsbProductInformation>::empty(),
            worker.firmware@ == Map::<Seq<char>, Option<FirmwareStatus>>::empty(),
            !worker.shutdown_triggered,
            worker.app_path is None,
    {
        Worker {
            devices: Registry::new(),
            firmware: Registry::new(),
            shutdown_triggered: false,
            app_path: None,
        }
    }

    /// Takes the state of an update out, to be put back changed.
    fn take_status(&mut self, serial: &str) -> (status: Option<FirmwareStatus>)
        ensures
            *final(self) == (Worker { firmware: final(self).firmware, ..*old(self) }),
            status == status_of(old(self).firmware@, serial@),
            final(self).firmware@ == (if status is Some {
                old(self).firmware@.remove(serial@)
            } else {
                old(self).firmware@
            }),
    {
        match self.firmware.remove(serial) {
            Some(Some(status)) => Some(status),
            Some(None) => {
                self.firmware.insert(serial.to_owned(), None);
                assert(self.firmware@ =~= old(self).firmware@);
                None
            },
            None => {
                assert(self.firmware@ =~= old(self).firmware@);
                None
            },
        }
    }

    /// Sets how far an update is: a new stage begins at nothing. An update that is not known yet
    /// counts only if its device is plugged in. Says whether anything changed.
    pub fn set_update_state(&mut self, serial: String, state: UpdateState) -> (changed: bool)
        ensures
            *final(self) == (Worker { firmware: final(self).firmware, ..*old(self) }),
            match status_of(old(self).firmware@, serial@) {
                Some(status) => changed && final(self).firmware@ == old(self).firmware@.insert(
                    serial@,
                    Some((FirmwareStatus { state, progress: 0, error: status.error })),
                ),
                None => if old(self).devices@.dom().contains(serial@) {
                    changed && final(self).firmware@ == old(self).firmware@.insert(
                        serial@,
                        Some((FirmwareStatus { state, progress: 0, error: None })),
                    )
                } else {
                    !changed && final(self).firmware@ == old(self).firmware@
                },
            },
    {
        let error = match self.take_status(serial.as_str()) {
            Some(status) => status.error,
            None => {
                if !self.devices.contains_key(serial.as_str()) {
                    return false;
                }
                None
            },
        };
        let ghost key = serial@;
        self.firmware.insert(serial, Some(FirmwareStatus { state, progress: 0, error }));
        assert(self.firmware@ =~= old(self).firmware@.insert(
            key,
            Some((FirmwareStatus { state, progress: 0, error })),
        ));
        true
    }

    /// Sets how far a stage of an update is. Says whether anything changed.
    pub fn set_state_progress(&mut self, serial: String, progress: u8) -> (changed: bool)
        ensures
            *final(self) == (Worker { firmware: final(self).firmware, ..*old(self) }),
            match status_of(old(self).firmware@, serial@) {
                Some(status) => changed && final(self).firmware@ == old(self).firmware@.insert(
                    serial@,
                    Some((FirmwareStatus { progress, ..status })),
                ),
                None => !changed && final(self).firmware@ == old(self).firmware@,
            },
    {
        match self.take_status(serial.as_str()) {
            Some(status) => {
                let ghost key = serial@;
                let changed = FirmwareStatus {
                    state: status.state,
                    progress,
                    error: status.error,
                };
                self.firmware.insert(serial, Some(changed));
                assert(self.firmware@ =~= old(self).firmware@.insert(key, Some(changed)));
                true
            },
            None => false,
        }
    }

    /// Sets what went wrong with an update. Says whether anything changed.
    pub fn set_error(&mut self, serial: String, error: String) -> (changed: bool)
        ensures
            *final(self) == (Worker { firmware: final(self).firmware, ..*old(self) }),
            match status_of(old(self).firmware@, serial@) {
                Some(status) => changed && final(self).firmware@ == old(self).firmware@.insert(
                    serial@,
                    Some((FirmwareStatus { error: Some(error), ..status })),
                ),
                None => !changed && final(self).firmware@ == old(self).firmware@,
            },
    {
        match self.take_status(serial.as_str()) {
            Some(status) => {
                let ghost key = serial@;
                let changed = FirmwareStatus {
                    state: status.state,
                    progress: status.progress,
                    error: Some(error),
                };
                self.firmware.insert(serial, Some(changed));
                assert(self.firmware@ =~= old(self).firmware@.insert(key, Some(changed)));
                true
            },
            None => false,
        }
    }

    /// Finds whether a device is plugged in, so that a message or a command can go to it.
    pub fn is_connected(&self, serial: &str) -> (connected: bool)
        ensures
            connected == self.devices@.dom().contains(serial@),
    {
        self.devices.contains_key(serial)
    }

    /// Takes a device that was loaded. What was known of an update of it is forgotten.
    pub fn device_loaded(&mut self, serial: &str, device: UsbProductInformation)
        ensures
            *final(self) == (Worker {
                devices: final(self).devices,
                firmware: final(self).firmware,
                ..*old(self)
            }),
            final(self).devices@ == old(self).devices@.insert(serial@, device),
            final(self).firmware@ == old(self).firmware@.insert(serial@, None),
    {
        self.devices.insert(serial.to_owned(), device);
        self.firmware.insert(serial.to_owned(), None);
    }

    /// Takes note that a device was unplugged. The state of an update stays, since a device restarts
    /// at the end of one.
    pub fn disconnected(&mut self, serial: &str)
        ensures
            *final(self) == (Worker {
                devices: final(self).devices,
                firmware: final(self).firmware,
                ..*old(self)
            }),
            final(self).devices@ == old(self).devices@.remove(serial@),
            final(self).firmware@ == (if status_of(old(self).firmware@, serial@) is Some {
                old(self).firmware@
            } else {
                old(self).firmware@.remove(serial@)
            }),
    {
        self.devices.remove(serial);
        match self.firmware.remove(serial) {
            Some(Some(status)) => {
                self.firmware.insert(serial.to_owned(), Some(status));
                assert(self.firmware@ =~= old(self).firmware@);
            },
            _ => {
                assert(self.firmware@ =~= old(self).firmware@.remove(serial@));
            },
        }
    }

    /// Takes the order to shut down; says whether it is the first, which is the only one that counts.
    pub fn shutdown(&mut self) -> (first: bool)
        ensures
            *final(self) == (Worker { shutdown_triggered: true, ..*old(self) }),
            first == !old(self).shutdown_triggered,
    {
        let first = !self.shutdown_triggered;
        self.shutdown_triggered = true;
        first
    }

    /// Forgets an update that ended. Says what stands against it.
    pub fn clear_firmware_state(&mut self, serial: &str) -> (error: Option<ClearError>)
        ensures
            *final(self) == (Worker { firmware: final(self).firmware, ..*old(self) }),
            error == clear_error(old(self).firmware@, serial@),
            final(self).firmware@ == (if error is None {
                old(self).firmware@.insert(serial@, None)
            } else {
                old(self).firmware@
            }),
    {
        let status = match self.firmware.get(serial) {
            Some(Some(status)) => status,
            Some(None) => return Some(ClearError::NotUpdating),
            None => return Some(ClearError::NotPresent),
        };
        if status.state != UpdateState::Complete && status.state != UpdateState::Failed {
            return Some(ClearError::InProgress);
        }
        self.firmware.insert(serial.to_owned(), None);
        None
    }

    /// Takes the place at which the user interface was found. The path is kept in quotes, of the kind
    /// that the system uses. Says whether anything changed.
    pub fn get_app_path(&mut self, found: Option<&str>, windows: bool) -> (changed: bool)
        ensures
            *final(self) == (Worker { app_path: final(self).app_path, ..*old(self) }),
            match found {
                Some(path) => final(self).app_path matches Some(kept) && kept@ == quoted(
                    path@,
                    windows,
                ),
                None => final(self).app_path is None,
            },
            changed == (path_view(final(self).app_path) != path_view(old(self).app_path)),
    {
        let path = match found {
            Some(path) => path,
            None => {
                return self.app_path.take().is_some();
            },
        };
        let quote = if windows {
            "\""
        } else {
            "'"
        };
        let mut text = joined(quote, path);
        text.append(quote);
        if let Some(known) = &self.app_path {
            if same_text(known.as_str(), text.as_str()) {
                return false;
            }
        }
        self.app_path = Some(text);
        true
    }
}

/// A path in quotes.
pub open spec fn quoted(path: Seq<char>, windows: bool) -> Seq<char> {
    let quote = if windows {
        "\""@
    } else {
        "'"@
    };
    quote + path + quote
}

/// The text of a path that may be missing.
pub open spec fn path_view(path: Option<String>) -> Option<Seq<char>> {
    match path {
        Some(path) => Some(path@),
        None => None,
    }
}

/// Decides whether clients are told of a change after all devices were asked: the last that answered
/// decides.
pub fn last_answer(answers: &Vec<Option<bool>>) -> (changed: bool)
    ensures
        changed == decided(answers@),
{
    let mut changed = false;
    let mut i: usize = 0;
    assert(answers@.take(0) =~= Seq::empty());
    while i < answers.len()
        invariant
            i <= answers@.len(),
            changed == decided(answers@.take(i as int)),
        decreases answers@.len() - i,
    {
        assert(answers@.take(i + 1).drop_last() =~= answers@.take(i as int));
        if let Some(answer) = answers[i] {
            changed = answer;
        }
        i = i + 1;
    }
    assert(answers@.take(i as int) =~= answers@);
    changed
}

/// The last answer that was given.
pub open spec fn decided(answers: Seq<Option<bool>>) -> bool
    decreases answers.len(),
{
    if answers.len() == 0 {
        false
    } else {
        match answers.last() {
            Some(answer) => answer,
            None => decided(answers.drop_last()),
        }
    }
}

/// Whether two places are the same: by their identifiers where both have one, else by bus and
/// address.
pub open spec fn same_device(a: UsbProductInformation, b: UsbProductInformation) -> bool {
    match (a.identifier, b.identifier) {
        (Some(a), Some(b)) => a@ == b@,
        _ => a.bus_number == b.bus_number && a.address == b.address,
    }
}

/// Finds whether two places are the same.
pub fn is_same_device(a: &UsbProductInformation, b: &UsbProductInformation) -> (same: bool)
    ensures
        same == same_device(*a, *b),
{
    if let Some(first) = &a.identifier {
        if let Some(second) = &b.identifier {
            return same_text(first.as_str(), second.as_str());
        }
    }
    a.bus_number == b.bus_number && a.address == b.address
}

/// Whether a device is new: it is not known, and is not left alone.
pub open spec fn is_new(
    device: UsbProductInformation,
    known: Seq<UsbProductInformation>,
    ignored: Seq<IgnoredDevice>,
    now: u64,
) -> bool {
    &&& forall|i: int| 0 <= i < known.len() ==> !same_device(device, #[trigger] known[i])
    &&& forall|i: int|
        0 <= i < ignored.len() ==> !(same_device(device, (#[trigger] ignored[i]).device)
            && ignored[i].expires > now)
}

/// Finds whether a device is new.
fn find_whether_new(
    device: &UsbProductInformation,
    known: &Vec<UsbProductInformation>,
    ignored: &Vec<IgnoredDevice>,
    now: u64,
) -> (new: bool)
    ensures
        new == is_new(*device, known@, ignored@, now),
{
    let mut i: usize = 0;
    while i < known.len()
        invariant
            i <= known@.len(),
            forall|j: int| 0 <= j < i ==> !same_device(*device, #[trigger] known@[j]),
        decreases known@.len() - i,
    {
        if is_same_device(device, &known[i]) {
            return false;
        }
        i = i + 1;
    }
    let mut k: usize = 0;
    while k < ignored.len()
        invariant
            k <= ignored@.len(),
            forall|j: int| 0 <= j < known@.len() ==> !same_device(*device, #[trigger] known@[j]),
            forall|j: int|
                0 <= j < k ==> !(same_device(*device, (#[trigger] ignored@[j]).device)
                    && ignored@[j].expires > now),
        decreases ignored@.len() - k,
    {
        if is_same_device(device, &ignored[k].device) && ignored[k].expires > now {
            return false;
        }
        k = k + 1;
    }
    true
}

/// Finds the first device that is new among those that are plugged in.
pub fn find_new_device(
    found: &Vec<UsbProductInformation>,
    known: &Vec<UsbProductInformation>,
    ignored: &Vec<IgnoredDevice>,
    now: u64,
) -> (place: Option<usize>)
    ensures
        match place {
            Some(i) => {
                &&& i < found@.len()
                &&& is_new(found@[i as int], known@, ignored@, now)
                &&& forall|j: int|
                    0 <= j < i ==> !is_new(#[trigger] found@[j], known@, ignored@, now)
            },
            None => forall|j: int|
                0 <= j < found@.len() ==> !is_new(#[trigger] found@[j], known@, ignored@, now),
        },
{
    let mut i: usize = 0;
    while i < found.len()
        invariant
            i <= found@.len(),
            forall|j: int| 0 <= j < i ==> !is_new(#[trigger] found@[j], known@, ignored@, now),
        decreases found@.len() - i,
    {
        if find_whether_new(&found[i], known, ignored, now) {
            return Some(i);
        }
        i = i + 1;
    }
    None
}

/// The serial number that is made up for a device that has none.
pub open spec fn made_up_serial(n: nat) -> Seq<char> {
    "UNKNOWN-SN-"@ + decimal(n)
}

/// Whether a text is among others.
pub open spec fn among(text: Seq<char>, others: Seq<String>) -> bool {
    exists|i: int| 0 <= i < others.len() && #[trigger] others[i]@ == text
}

/// Finds whether a text is among others.
fn is_among(text: &str, others: &Vec<String>) -> (result: bool)
    ensures
        result == among(text@, others@),
{
    let mut i: usize = 0;
    while i < others.len()
        invariant
            i <= others@.len(),
            forall|j: int| 0 <= j < i ==> #[trigger] others@[j]@ != text@,
        decreases others@.len() - i,
    {
        if same_text(others[i].as_str(), text) {
            return true;
        }
        i = i + 1;
    }
    false
}

/// The first serial number from `n` on that is free, or the last that is made up.
pub open spec fn free_serial(existing: Seq<String>, n: nat) -> Seq<char>
    decreases 24 - n,
{
    if n < 24 && among(made_up_serial(n), existing) {
        free_serial(existing, n + 1)
    } else {
        made_up_serial(n)
    }
}

/// Makes up a serial number for a device that has none.
pub fn generate_serial(existing: &Vec<String>) -> (serial: String)
    ensures
        serial@ == free_serial(existing@, 0),
{
    let mut n: u64 = 0;
    while n < 24
        invariant
            n <= 24,
            free_serial(existing@, 0) == free_serial(existing@, n as nat),
        decreases 24 - n,
    {
        let serial = joined("UNKNOWN-SN-", decimal_text(n).as_str());
        if !is_among(serial.as_str(), existing) {
            return serial;
        }
        n = n + 1;
    }
    joined("UNKNOWN-SN-", decimal_text(24).as_str())
}

/// A serial number that is made up is free, unless all of the first that could be made up are taken.
pub proof fn made_up_serial_is_free(existing: Seq<String>, n: nat)
    requires
        n <= 24,
    ensures
        among(free_serial(existing, n), existing) ==> forall|k: nat|
            n <= k <= 24 ==> among(#[trigger] made_up_serial(k), existing),
    decreases 24 - n,
{
    if n < 24 && among(made_up_serial(n), existing) {
        made_up_serial_is_free(existing, n + 1);
    }
}

/// The colour of a device.
#[derive(Clone, Copy, Debug, PartialEq, Eq, Structural)]
pub enum ColourWay {
    Black,
    White,
}

/// Whether a text ends with another.
pub open spec fn ends_with(text: Seq<char>, end: Seq<char>) -> bool {
    end.len() <= text.len() && text.skip(text.len() - end.len()) == end
}

/// Finds whether a text ends with another.
fn text_ends_with(text: &str, end: &str) -> (ends: bool)
    ensures
        ends == ends_with(text@, end@),
{
    let text = chars_of(text);
    let end = chars_of(end);
    if end.len() > text.len() {
        return false;
    }
    let start: usize = text.len() - end.len();
    assert(text@.skip(start as int).take(end@.len() as int) =~= text@.skip(start as int));
    stands_at(&text, start, &end)
}

/// Tells the colour of a device by its serial number.
pub fn colour_way(serial: &str) -> (colour: ColourWay)
    ensures
        colour == (if ends_with(serial@, "AAI"@) || ends_with(serial@, "3AA"@) {
            ColourWay::White
        } else {
            ColourWay::Black
        }),
{
    if text_ends_with(serial, "AAI") || text_ends_with(serial, "3AA") {
        ColourWay::White
    } else {
        ColourWay::Black
    }
}

/// The vendor of the devices.
pub const VID_GOXLR: u16 = 0x1220;

/// The smaller device.
pub const PID_GOXLR_MINI: u16 = 0x8fe4;

/// The larger device.
pub const PID_GOXLR_FULL: u16 = 0x8fe0;

/// Tells the type of a device by its product number.
pub fn device_type(product_id: u16) -> (device_type: DeviceType)
    ensures
        device_type == (if product_id == PID_GOXLR_FULL {
            DeviceType::Full
        } else if product_id == PID_GOXLR_MINI {
            DeviceType::Mini
        } else {
            DeviceType::Unknown
        }),
{
    if product_id == PID_GOXLR_FULL {
        DeviceType::Full
    } else if product_id == PID_GOXLR_MINI {
        DeviceType::Mini
    } else {
        DeviceType::Unknown
    }
}

/// Finds whether a device on the bus is one that the daemon drives.
pub fn is_goxlr(vendor_id: u16, product_id: u16) -> (is: bool)
    ensures
        is == (vendor_id == VID_GOXLR && (product_id == PID_GOXLR_FULL || product_id
            == PID_GOXLR_MINI)),
{
    vendor_id == VID_GOXLR && (product_id == PID_GOXLR_FULL || product_id == PID_GOXLR_MINI)
}

/// A sample, and how loud it is played in percent.
#[derive(Debug)]
pub struct SampleFile {
    pub path: String,
    pub name: String,
    pub gain_pct: u8,
}

/// Puts the samples and their gains together. `paths` and `names` go together.
pub fn get_sample_files(paths: Vec<String>, names: Vec<String>, settings: &SettingsHandle) -> (samples:
    Vec<SampleFile>)
    requires
        paths@.len() == names@.len(),
    ensures
        samples@.len() == paths@.len(),
        forall|i: int|
            0 <= i < samples@.len() ==> (#[trigger] samples@[i]).path == paths@[i]
                && samples@[i].name == names@[i] && samples@[i].gain_pct == settings.gain_of(
                names@[i]@,
            ),
{
    let mut samples: Vec<SampleFile> = Vec::new();
    let mut i: usize = 0;
    while i < paths.len()
        invariant
            i <= paths@.len(),
            paths@.len() == names@.len(),
            samples@.len() == i,
            forall|j: int|
                0 <= j < i ==> (#[trigger] samples@[j]).path == paths@[j] && samples@[j].name
                    == names@[j] && samples@[j].gain_pct == settings.gain_of(names@[j]@),
        decreases paths@.len() - i,
    {
        let gain_pct: u8 = settings.get_sample_gain_percent(names[i].as_str());
        samples.push(SampleFile { path: paths[i].clone(), name: names[i].clone(), gain_pct });
        i = i + 1;
    }
    samples
}

/// The files that clients are offered.
#[derive(Debug)]
pub struct Files {
    pub profiles: Vec<String>,
    pub mic_profiles: Vec<String>,
    pub presets: Vec<String>,
    pub samples: Vec<SampleFile>,
    pub icons: Vec<String>,
}

/// Files of one kind, listed anew.
#[derive(Debug)]
pub enum Listing {
    Profiles(Vec<String>),
    MicProfiles(Vec<String>),
    Presets(Vec<String>),
    Samples(Vec<SampleFile>),
    Icons(Vec<String>),
    /// No kind that clients are offered.
    Other,
}

/// Replaces the files of one kind, and keeps all others.
pub fn update_files(files: Files, listing: Listing) -> (result: Files)
    ensures
        result == (match listing {
            Listing::Profiles(profiles) => Files { profiles, ..files },
            Listing::MicProfiles(mic_profiles) => Files { mic_profiles, ..files },
            Listing::Presets(presets) => Files { presets, ..files },
            Listing::Samples(samples) => Files { samples, ..files },
            Listing::Icons(icons) => Files { icons, ..files },
            Listing::Other => files,
        }),
{
    let mut files = files;
    match listing {
        Listing::Profiles(profiles) => files.profiles = profiles,
        Listing::MicProfiles(mic_profiles) => files.mic_profiles = mic_profiles,
        Listing::Presets(presets) => files.presets = presets,
        Listing::Samples(samples) => files.samples = samples,
        Listing::Icons(icons) => files.icons = icons,
        Listing::Other => {},
    }
    files
}

/// What is done about a command to the daemon, beside the change of a setting.
#[derive(Debug)]
pub enum DaemonEffect {
    /// The daemon as a whole is told.
    Trigger(EventTriggers),
    /// The first files of a kind are written again, and the client is told how that went.
    RecoverDefaults(PathTypes),
    /// The client is told that there are no first files of the kind, and the task ends.
    InvalidPath,
    /// Starting with the system is set, and the client is told how that went.
    SetAutostart(bool),
    /// The settings are written.
    Save,
    /// The settings are written, and the samples listed anew.
    SaveAndListSamples,
    Nothing,
}

/// What is done about a command to the daemon.
pub open spec fn daemon_effect(command: DaemonCommand) -> DaemonEffect {
    match command {
        DaemonCommand::StopDaemon => DaemonEffect::Trigger(EventTriggers::Stop(false)),
        DaemonCommand::OpenUi => DaemonEffect::Trigger(EventTriggers::OpenUi),
        DaemonCommand::Activate => DaemonEffect::Trigger(EventTriggers::Activate),
        DaemonCommand::OpenPath(kind) => DaemonEffect::Trigger(EventTriggers::Open(kind)),
        DaemonCommand::RecoverDefaults(kind) => match kind {
            PathTypes::Profiles | PathTypes::Presets | PathTypes::Icons | PathTypes::MicProfiles => {
                DaemonEffect::RecoverDefaults(kind)
            },
            _ => DaemonEffect::InvalidPath,
        },
        DaemonCommand::SetAutoStartEnabled(enabled) => DaemonEffect::SetAutostart(enabled),
        DaemonCommand::SetSampleGainPct(_, _) => DaemonEffect::Nothing,
        DaemonCommand::ApplySampleChange => DaemonEffect::SaveAndListSamples,
        _ => DaemonEffect::Save,
    }
}

/// Whether clients are told of a change after a command to the daemon.
pub open spec fn daemon_changes(command: DaemonCommand) -> bool {
    match command {
        DaemonCommand::StopDaemon | DaemonCommand::OpenUi | DaemonCommand::Activate
        | DaemonCommand::OpenPath(_) | DaemonCommand::RecoverDefaults(_)
        | DaemonCommand::SetSampleGainPct(_, _) => false,
        _ => true,
    }
}

/// Whether these are the settings after a command to the daemon.
pub open spec fn settings_after(before: SettingsHandle, command: DaemonCommand, after: SettingsHandle) -> bool {
    match command {
        DaemonCommand::SetLogLevel(level) => after.settings == (Settings {
            log_level: Some(level),
            ..before.settings
        }),
        DaemonCommand::SetLocale(locale) => after.settings == (Settings {
            selected_locale: locale,
            ..before.settings
        }),
        DaemonCommand::SetUiLaunchOnLoad(value) => after.settings == (Settings {
            open_ui_on_launch: Some(value),
            ..before.settings
        }),
        DaemonCommand::SetShowTrayIcon(enabled) => after.settings == (Settings {
            show_tray_icon: Some(enabled),
            ..before.settings
        }),
        DaemonCommand::SetTTSEnabled(enabled) => after.settings == (Settings {
            tts_enabled: Some(enabled),
            ..before.settings
        }),
        DaemonCommand::SetAllowNetworkAccess(enabled) => after.settings == (Settings {
            allow_network_access: Some(enabled),
            ..before.settings
        }),
        DaemonCommand::SetActivatorPath(path) => after.settings == (Settings {
            activate: path,
            ..before.settings
        }),
        DaemonCommand::SetSampleGainPct(name, gain) => {
            &&& after.settings == (Settings {
                sample_gain: after.settings.sample_gain,
                ..before.settings
            })
            &&& after.settings.sample_gain matches Some(gains) && gains@ == (
            match before.settings.sample_gain {
                Some(known) => known@,
                None => Map::<Seq<char>, u8>::empty(),
            }).insert(name@, gain)
        },
        _ => after.settings == before.settings,
    }
}

/// Runs a command to the daemon: changes the setting, and says what else is done and whether clients
/// are told of a change.
pub fn run_daemon_command(settings: &mut SettingsHandle, command: DaemonCommand) -> (result: (
    DaemonEffect,
    bool,
))
    ensures
        result.0 == daemon_effect(command),
        result.1 == daemon_changes(command),
        settings_after(*old(settings), command, *final(settings)),
{
    match command {
        DaemonCommand::StopDaemon => (DaemonEffect::Trigger(EventTriggers::Stop(false)), false),
        DaemonCommand::OpenUi => (DaemonEffect::Trigger(EventTriggers::OpenUi), false),
        DaemonCommand::Activate => (DaemonEffect::Trigger(EventTriggers::Activate), false),
        DaemonCommand::OpenPath(kind) => (DaemonEffect::Trigger(EventTriggers::Open(kind)), false),
        DaemonCommand::RecoverDefaults(kind) => match kind {
            PathTypes::Profiles | PathTypes::Presets | PathTypes::Icons | PathTypes::MicProfiles => {
                (DaemonEffect::RecoverDefaults(kind), false)
            },
            _ => (DaemonEffect::InvalidPath, false),
        },
        DaemonCommand::SetAutoStartEnabled(enabled) => (DaemonEffect::SetAutostart(enabled), true),
        DaemonCommand::SetLogLevel(level) => {
            settings.set_log_level(level);
            (DaemonEffect::Save, true)
        },
        DaemonCommand::SetLocale(locale) => {
            settings.set_selected_locale(locale);
            (DaemonEffect::Save, true)
        },
        DaemonCommand::SetUiLaunchOnLoad(value) => {
            settings.set_open_ui_on_launch(value);
            (DaemonEffect::Save, true)
        },
        DaemonCommand::SetShowTrayIcon(enabled) => {
            settings.set_show_tray_icon(enabled);
            (DaemonEffect::Save, true)
        },
        DaemonCommand::SetTTSEnabled(enabled) => {
            settings.set_tts_enabled(enabled);
            (DaemonEffect::Save, true)
        },
        DaemonCommand::SetAllowNetworkAccess(enabled) => {
            settings.set_allow_network_access(enabled);
            (DaemonEffect::Save, true)
        },
        DaemonCommand::SetActivatorPath(path) => {
            settings.set_activate(path);
            (DaemonEffect::Save, true)
        },
        DaemonCommand::SetSampleGainPct(name, gain) => {
            settings.set_sample_gain_percent(name, gain);
            (DaemonEffect::Nothing, false)
        },
        DaemonCommand::ApplySampleChange => (DaemonEffect::SaveAndListSamples, true),
    }
}

/// A device that is known, or that could not be loaded a moment ago, is not taken for a new one.
pub proof fn known_is_not_new(
    device: UsbProductInformation,
    known: Seq<UsbProductInformation>,
    ignored: Seq<IgnoredDevice>,
    now: u64,
    i: int,
)
    requires
        (0 <= i < known.len() && same_device(device, known[i])) || (0 <= i < ignored.len()
            && same_device(device, ignored[i].device) && ignored[i].expires > now),
    ensures
        !is_new(device, known, ignored, now),
{
}

/// The state of an update outlives the restart of its device: unplugging keeps it.
pub proof fn update_survives_restart(
    firmware: Map<Seq<char>, Option<FirmwareStatus>>,
    after: Map<Seq<char>, Option<FirmwareStatus>>,
    serial: Seq<char>,
)
    requires
        after == (if status_of(firmware, serial) is Some {
            firmware
        } else {
            firmware.remove(serial)
        }),
    ensures
        status_of(after, serial) == status_of(firmware, serial),
        forall|other: Seq<char>| #[trigger] status_of(after, other) == status_of(firmware, other),
{
}

/// Something that the task learns.
#[derive(Debug)]
pub enum WorkerEvent {
    /// The latest versions of the firmware are known.
    VersionsChecked,
    UpdateState(String, UpdateState),
    UpdateProgress(String, u8),
    UpdateFailed(String, String),
    /// An update has something to tell a device.
    FirmwareMessage(String, FirmwareMessages),
    DeviceLoaded(String, UsbProductInformation),
    /// The devices were looked at: whether each changed, or nothing where that failed.
    DevicesPolled(Vec<Option<bool>>),
    Disconnected(String),
    /// A control of a device was used.
    InputWaiting(String),
    /// The controls of a device were read: whether anything changed, or nothing where that failed.
    InputRead(Option<bool>),
    /// The devices are to shut down, with or without being written to.
    Shutdown(bool),
    Sleep,
    Wake,
    /// The daemon ends.
    Ended,
    Command(DeviceCommand),
    FilesChanged(PathTypes),
}

/// What the task does.
#[derive(Debug)]
pub enum WorkerAction {
    Nothing,
    TellDevice(String, FirmwareMessages),
    /// The update is told that its device is gone.
    AnswerDeviceGone,
    ReadInputs(String),
    /// The devices are shut down, and the daemon is told so.
    ShutDownDevices(bool),
    SleepDevices,
    WakeDevices,
    End,
    SendStatus,
    RunDaemonCommand(DaemonCommand),
    RunDeviceCommand(String, GoXLRCommand),
    /// The client is told that the device is not there.
    AnswerNotConnected(String),
    ReadMicLevel(String),
    StartUpdate(String, Option<String>),
    /// The client is told why the state of an update is not cleared.
    RefuseClear(ClearError),
    /// Files of a kind are listed anew; the flag says that the devices look for their samples first.
    ListFiles(PathTypes, bool),
}

/// Why the state of an update is not cleared, if it is not.
pub open spec fn clear_error(firmware: Map<Seq<char>, Option<FirmwareStatus>>, serial: Seq<char>) -> Option<
    ClearError,
> {
    if !firmware.dom().contains(serial) {
        Some(ClearError::NotPresent)
    } else {
        match firmware[serial] {
            None => Some(ClearError::NotUpdating),
            Some(status) => if status.state == UpdateState::Complete || status.state
                == UpdateState::Failed {
                None
            } else {
                Some(ClearError::InProgress)
            },
        }
    }
}

impl Worker {
    /// Whether a device is plugged in.
    pub open spec fn connected(self, serial: Seq<char>) -> bool {
        self.devices@.dom().contains(serial)
    }

    /// What the task does about a command.
    pub open spec fn command_action(self, command: DeviceCommand) -> WorkerAction {
        match command {
            DeviceCommand::SendDaemonStatus => WorkerAction::SendStatus,
            DeviceCommand::RunDaemonCommand(command) => WorkerAction::RunDaemonCommand(command),
            DeviceCommand::RunDeviceCommand(serial, command) => if self.connected(serial@) {
                WorkerAction::RunDeviceCommand(serial, command)
            } else {
                WorkerAction::AnswerNotConnected(serial)
            },
            DeviceCommand::GetDeviceMicLevel(serial) => if self.connected(serial@) {
                WorkerAction::ReadMicLevel(serial)
            } else {
                WorkerAction::AnswerNotConnected(serial)
            },
            DeviceCommand::RunFirmwareUpdate(serial, file) => if self.connected(serial@) {
                WorkerAction::StartUpdate(serial, file)
            } else {
                WorkerAction::AnswerNotConnected(serial)
            },
            DeviceCommand::ClearFirmwareState(serial) => match clear_error(
                self.firmware@,
                serial@,
            ) {
                Some(error) => WorkerAction::RefuseClear(error),
                None => WorkerAction::Nothing,
            },
        }
    }

    /// What the task does about an event.
    pub open spec fn action(self, event: WorkerEvent) -> WorkerAction {
        match event {
            WorkerEvent::FirmwareMessage(serial, message) => if self.connected(serial@) {
                WorkerAction::TellDevice(serial, message)
            } else {
                WorkerAction::AnswerDeviceGone
            },
            WorkerEvent::InputWaiting(serial) => if self.connected(serial@) {
                WorkerAction::ReadInputs(serial)
            } else {
                WorkerAction::Nothing
            },
            WorkerEvent::Shutdown(avoid_write) => if self.shutdown_triggered {
                WorkerAction::Nothing
            } else {
                WorkerAction::ShutDownDevices(avoid_write)
            },
            WorkerEvent::Sleep => WorkerAction::SleepDevices,
            WorkerEvent::Wake => WorkerAction::WakeDevices,
            WorkerEvent::Ended => WorkerAction::End,
            WorkerEvent::Command(command) => self.command_action(command),
            WorkerEvent::FilesChanged(kind) => WorkerAction::ListFiles(
                kind,
                kind == PathTypes::Samples,
            ),
            _ => WorkerAction::Nothing,
        }
    }

    /// Whether clients are told of a change after an event. A command to the daemon tells for itself.
    pub open spec fn changes(self, event: WorkerEvent) -> bool {
        match event {
            WorkerEvent::VersionsChecked => true,
            WorkerEvent::UpdateState(serial, _) => status_of(self.firmware@, serial@) is Some
                || self.connected(serial@),
            WorkerEvent::UpdateProgress(serial, _) => status_of(self.firmware@, serial@) is Some,
            WorkerEvent::UpdateFailed(serial, _) => status_of(self.firmware@, serial@) is Some,
            WorkerEvent::FirmwareMessage(serial, _) => self.connected(serial@),
            WorkerEvent::DeviceLoaded(_, _) => true,
            WorkerEvent::DevicesPolled(answers) => decided(answers@),
            WorkerEvent::Disconnected(_) => true,
            WorkerEvent::InputRead(answer) => answer == Some(true),
            WorkerEvent::Command(DeviceCommand::RunDeviceCommand(serial, _)) => self.connected(
                serial@,
            ),
            WorkerEvent::FilesChanged(_) => true,
            _ => false,
        }
    }

    /// The devices after an event.
    pub open spec fn devices_after(self, event: WorkerEvent) -> Map<
        Seq<char>,
        UsbProductInformation,
    > {
        match event {
            WorkerEvent::DeviceLoaded(serial, device) => self.devices@.insert(serial@, device),
            WorkerEvent::Disconnected(serial) => self.devices@.remove(serial@),
            _ => self.devices@,
        }
    }

    /// The states of updates after an event.
    pub open spec fn firmware_after(self, event: WorkerEvent) -> Map<
        Seq<char>,
        Option<FirmwareStatus>,
    > {
        let firmware = self.firmware@;
        match event {
            WorkerEvent::UpdateState(serial, state) => match status_of(firmware, serial@) {
                Some(status) => firmware.insert(
                    serial@,
                    Some(FirmwareStatus { state, progress: 0, error: status.error }),
                ),
                None => if self.connected(serial@) {
                    firmware.insert(
                        serial@,
                        Some(FirmwareStatus { state, progress: 0, error: None }),
                    )
                } else {
                    firmware
                },
            },
            WorkerEvent::UpdateProgress(serial, progress) => match status_of(firmware, serial@) {
                Some(status) => firmware.insert(serial@, Some(FirmwareStatus { progress, ..status })),
                None => firmware,
            },
            WorkerEvent::UpdateFailed(serial, error) => match status_of(firmware, serial@) {
                Some(status) => firmware.insert(
                    serial@,
                    Some(FirmwareStatus { error: Some(error), ..status }),
                ),
                None => firmware,
            },
            WorkerEvent::DeviceLoaded(serial, _) => firmware.insert(serial@, None),
            WorkerEvent::Disconnected(serial) => if status_of(firmware, serial@) is Some {
                firmware
            } else {
                firmware.remove(serial@)
            },
            WorkerEvent::Command(DeviceCommand::ClearFirmwareState(serial)) => if clear_error(
                firmware,
                serial@,
            ) is None {
                firmware.insert(serial@, None)
            } else {
                firmware
            },
            _ => firmware,
        }
    }

    /// Takes a command. Says what the task does, and whether clients are told of a change.
    fn handle_command(&mut self, command: DeviceCommand) -> (result: (WorkerAction, bool))
        ensures
            result.0 == old(self).action(WorkerEvent::Command(command)),
            result.1 == old(self).changes(WorkerEvent::Command(command)),
            final(self).devices@ == old(self).devices@,
            final(self).firmware@ == old(self).firmware_after(WorkerEvent::Command(command)),
            final(self).shutdown_triggered == old(self).shutdown_triggered,
            final(self).app_path == old(self).app_path,
    {
        match command {
            DeviceCommand::SendDaemonStatus => (WorkerAction::SendStatus, false),
            DeviceCommand::RunDaemonCommand(command) => (
                WorkerAction::RunDaemonCommand(command),
                false,
            ),
            DeviceCommand::RunDeviceCommand(serial, command) => {
                if self.is_connected(serial.as_str()) {
                    (WorkerAction::RunDeviceCommand(serial, command), true)
                } else {
                    (WorkerAction::AnswerNotConnected(serial), false)
                }
            },
            DeviceCommand::GetDeviceMicLevel(serial) => {
                if self.is_connected(serial.as_str()) {
                    (WorkerAction::ReadMicLevel(serial), false)
                } else {
                    (WorkerAction::AnswerNotConnected(serial), false)
                }
            },
            DeviceCommand::RunFirmwareUpdate(serial, file) => {
                if self.is_connected(serial.as_str()) {
                    (WorkerAction::StartUpdate(serial, file), false)
                } else {
                    (WorkerAction::AnswerNotConnected(serial), false)
                }
            },
            DeviceCommand::ClearFirmwareState(serial) => match self.clear_firmware_state(
                serial.as_str(),
            ) {
                Some(error) => (WorkerAction::RefuseClear(error), false),
                None => (WorkerAction::Nothing, false),
            },
        }
    }

    /// Takes an event. Says what the task does, and whether clients are told of a change.
    pub fn handle(&mut self, event: WorkerEvent) -> (result: (WorkerAction, bool))
        ensures
            result.0 == old(self).action(event),
            result.1 == old(self).changes(event),
            final(self).devices@ == old(self).devices_after(event),
            final(self).firmware@ == old(self).firmware_after(event),
            final(self).shutdown_triggered == (old(self).shutdown_triggered || event is Shutdown),
            final(self).app_path == old(self).app_path,
    {
        match event {
            WorkerEvent::VersionsChecked => (WorkerAction::Nothing, true),
            WorkerEvent::UpdateState(serial, state) => {
                let changed = self.set_update_state(serial, state);
                (WorkerAction::Nothing, changed)
            },
            WorkerEvent::UpdateProgress(serial, progress) => {
                let changed = self.set_state_progress(serial, progress);
                (WorkerAction::Nothing, changed)
            },
            WorkerEvent::UpdateFailed(serial, error) => {
                let changed = self.set_error(serial, error);
                (WorkerAction::Nothing, changed)
            },
            WorkerEvent::FirmwareMessage(serial, message) => {
                if self.is_connected(serial.as_str()) {
                    (WorkerAction::TellDevice(serial, message), true)
                } else {
                    (WorkerAction::AnswerDeviceGone, false)
                }
            },
            WorkerEvent::DeviceLoaded(serial, device) => {
                self.device_loaded(serial.as_str(), device);
                (WorkerAction::Nothing, true)
            },
            WorkerEvent::DevicesPolled(answers) => {
                let changed = last_answer(&answers);
                (WorkerAction::Nothing, changed)
            },
            WorkerEvent::Disconnected(serial) => {
                self.disconnected(serial.as_str());
                (WorkerAction::Nothing, true)
            },
            WorkerEvent::InputWaiting(serial) => {
                if self.is_connected(serial.as_str()) {
                    (WorkerAction::ReadInputs(serial), false)
                } else {
                    (WorkerAction::Nothing, false)
                }
            },
            WorkerEvent::InputRead(answer) => match answer {
                Some(changed) => (WorkerAction::Nothing, changed),
                None => (WorkerAction::Nothing, false),
            },
            WorkerEvent::Shutdown(avoid_write) => {
                if self.shutdown() {
                    (WorkerAction::ShutDownDevices(avoid_write), false)
                } else {
                    (WorkerAction::Nothing, false)
                }
            },
            WorkerEvent::Sleep => (WorkerAction::SleepDevices, false),
            WorkerEvent::Wake => (WorkerAction::WakeDevices, false),
            WorkerEvent::Ended => (WorkerAction::End, false),
            WorkerEvent::Command(command) => self.handle_command(command),
            WorkerEvent::FilesChanged(kind) => (
                WorkerAction::ListFiles(kind, kind == PathTypes::Samples),
                true,
            ),
        }
    }
}

/// Only plugging in and unplugging change which devices there are, and a device that is unplugged is
/// told nothing.
pub proof fn gone_device_is_told_nothing(worker: Worker, event: WorkerEvent, serial: Seq<char>)
    requires
        !worker.connected(serial),
    ensures
        worker.action(event) matches WorkerAction::TellDevice(to, _) ==> to@ != serial,
        worker.action(event) matches WorkerAction::ReadInputs(to) ==> to@ != serial,
        worker.action(event) matches WorkerAction::RunDeviceCommand(to, _) ==> to@ != serial,
        worker.action(event) matches WorkerAction::StartUpdate(to, _) ==> to@ != serial,
        worker.devices_after(event).dom().contains(serial) ==> event is DeviceLoaded,
{
}

} // verus!
