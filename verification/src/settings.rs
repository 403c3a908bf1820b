//! The settings of the daemon, and what holds where one is missing.

use crate::cli::LevelFilter;
use crate::command::GoXLRCommand;
use crate::packet::PathTypes;
use crate::registry::Registry;
use vstd::prelude::*;
use vstd::string::*;

verus! {

/// How the output for recordings is fed.
#[derive(Clone, Copy, Debug, PartialEq, Eq, Structural)]
pub enum VodMode {
    Routable,
    StreamNoMusic,
}

/// Where firmware is fetched from.
#[derive(Clone, Copy, Debug, PartialEq, Eq, Structural)]
pub enum FirmwareSource {
    Live,
    Beta,
}

/// The settings of one device.
#[derive(Debug)]
pub struct DeviceSettings {
    pub profile: String,
    pub mic_profile: String,
    pub hold_delay: Option<u16>,
    pub sampler_pre_buffer: Option<u16>,
    /// Muting the voice chat to all also mutes the microphone in it.
    pub chat_mute_mutes_mic_to_chat: Option<bool>,
    /// Faders stay where they are when their channel is muted to all.
    pub lock_faders: Option<bool>,
    pub enable_monitor_with_fx: Option<bool>,
    pub sampler_reset_on_clear: Option<bool>,
    pub sampler_fade_duration: Option<u32>,
    pub vod_mode: Option<VodMode>,
    pub shutdown_commands: Vec<GoXLRCommand>,
    pub sleep_commands: Vec<GoXLRCommand>,
    pub wake_commands: Vec<GoXLRCommand>,
}

/// The settings of the daemon.
#[derive(Debug)]
pub struct Settings {
    pub show_tray_icon: Option<bool>,
    pub selected_locale: Option<String>,
    pub tts_enabled: Option<bool>,
    pub allow_network_access: Option<bool>,
    pub macos_handle_aggregates: Option<bool>,
    pub profile_directory: Option<String>,
    pub mic_profile_directory: Option<String>,
    pub samples_directory: Option<String>,
    pub presets_directory: Option<String>,
    pub icons_directory: Option<String>,
    pub logs_directory: Option<String>,
    pub backup_directory: Option<String>,
    pub log_level: Option<LevelFilter>,
    pub open_ui_on_launch: Option<bool>,
    pub activate: Option<String>,
    pub firmware_source: Option<FirmwareSource>,
    pub devices: Option<Registry<DeviceSettings>>,
    pub sample_gain: Option<Registry<u8>>,
}

/// Which directories are set to what they would be without a setting.
#[derive(Clone, Copy, Debug, PartialEq, Eq, Structural)]
pub struct UsualDirectories {
    pub profiles: bool,
    pub mic_profiles: bool,
    pub samples: bool,
    pub presets: bool,
    pub icons: bool,
    pub logs: bool,
}

/// Where files of a kind are.
#[derive(Debug)]
pub enum Directory {
    Custom(String),
    /// The directory of this name among the data of the daemon.
    Usual(String),
}

/// The settings, complete.
#[derive(Debug)]
pub struct SettingsHandle {
    pub settings: Settings,
}

/// The name of the usual directory for files of a kind.
pub open spec fn usual_name(kind: PathTypes) -> Seq<char> {
    match kind {
        PathTypes::Profiles => "profiles"@,
        PathTypes::MicProfiles => "mic-profiles"@,
        PathTypes::Samples => "samples"@,
        PathTypes::Presets => "presets"@,
        PathTypes::Icons => "icons"@,
        PathTypes::Logs => "logs"@,
        PathTypes::Backups => "backups"@,
    }
}

/// Names the usual directory for files of a kind.
pub fn usual_directory(kind: PathTypes) -> (name: String)
    ensures
        name@ == usual_name(kind),
{
    match kind {
        PathTypes::Profiles => "profiles".to_owned(),
        PathTypes::MicProfiles => "mic-profiles".to_owned(),
        PathTypes::Samples => "samples".to_owned(),
        PathTypes::Presets => "presets".to_owned(),
        PathTypes::Icons => "icons".to_owned(),
        PathTypes::Logs => "logs".to_owned(),
        PathTypes::Backups => "backups".to_owned(),
    }
}

/// Different kinds of files are in different directories, as far as these are the usual ones.
pub proof fn usual_names_differ(a: PathTypes, b: PathTypes)
    requires
        a != b,
    ensures
        usual_name(a) != usual_name(b),
{
    reveal_strlit("profiles");
    reveal_strlit("mic-profiles");
    reveal_strlit("samples");
    reveal_strlit("presets");
    reveal_strlit("icons");
    reveal_strlit("logs");
    reveal_strlit("backups");
    let first = usual_name(a);
    let second = usual_name(b);
    if first.len() == second.len() {
        assert(first[0] != second[0] || first[1] != second[1]);
    }
}

/// Where files are, given what is set.
pub open spec fn directory_is(custom: Option<String>, kind: PathTypes, directory: Directory) -> bool {
    match custom {
        Some(path) => directory == Directory::Custom(path),
        None => directory matches Directory::Usual(name) && name@ == usual_name(kind),
    }
}

/// Finds where files are, given what is set.
fn directory_of(custom: &Option<String>, kind: PathTypes) -> (directory: Directory)
    ensures
        directory_is(*custom, kind, directory),
{
    match custom {
        Some(path) => Directory::Custom(path.clone()),
        None => Directory::Usual(usual_directory(kind)),
    }
}

/// Whether these are the settings of a device of which nothing is known.
pub open spec fn is_default(device: DeviceSettings) -> bool {
    &&& device.profile@ == "DEFAULT"@
    &&& device.mic_profile@ == "DEFAULT"@
    &&& device.hold_delay == Some(500u16)
    &&& device.sampler_pre_buffer == None::<u16>
    &&& device.chat_mute_mutes_mic_to_chat == Some(true)
    &&& device.lock_faders == Some(false)
    &&& device.enable_monitor_with_fx == Some(false)
    &&& device.sampler_reset_on_clear == Some(true)
    &&& device.sampler_fade_duration == Some(500u32)
    &&& device.vod_mode == Some(VodMode::Routable)
    &&& device.shutdown_commands@.len() == 0
    &&& device.sleep_commands@.len() == 0
    &&& device.wake_commands@.len() == 0
}

/// The settings of a device before one of them is set: those that are there, or those of a device of
/// which nothing is known.
pub open spec fn entry_is(devices: Map<Seq<char>, DeviceSettings>, serial: Seq<char>, device: DeviceSettings) -> bool {
    if devices.dom().contains(serial) {
        device == devices[serial]
    } else {
        is_default(device)
    }
}

impl Default for DeviceSettings {
    fn default() -> (device: DeviceSettings)
        ensures
            is_default(device),
    {
        DeviceSettings {
            profile: "DEFAULT".to_owned(),
            mic_profile: "DEFAULT".to_owned(),
            hold_delay: Some(500),
            sampler_pre_buffer: None,
            chat_mute_mutes_mic_to_chat: Some(true),
            lock_faders: Some(false),
            enable_monitor_with_fx: Some(false),
            sampler_reset_on_clear: Some(true),
            sampler_fade_duration: Some(500),
            vod_mode: Some(VodMode::Routable),
            shutdown_commands: Vec::new(),
            sleep_commands: Vec::new(),
            wake_commands: Vec::new(),
        }
    }
}

impl Settings {
    /// The settings of a daemon that starts for the first time.
    pub fn first() -> (settings: Settings)
        ensures
            settings.show_tray_icon == Some(true),
            settings.selected_locale is None,
            settings.tts_enabled == Some(false),
            settings.allow_network_access == Some(false),
            settings.macos_handle_aggregates is None,
            settings.profile_directory is None,
            settings.mic_profile_directory is None,
            settings.samples_directory is None,
            settings.presets_directory is None,
            settings.icons_directory is None,
            settings.logs_directory is None,
            settings.backup_directory is None,
            settings.log_level == Some(LevelFilter::Debug),
            settings.open_ui_on_launch is None,
            settings.activate is None,
            settings.firmware_source is None,
            settings.devices matches Some(devices) && devices@ == Map::<
                Seq<char>,
                DeviceSettings,
            >::empty(),
            settings.sample_gain matches Some(gains) && gains@ == Map::<Seq<char>, u8>::empty(),
    {
        Settings {
            show_tray_icon: Some(true),
            selected_locale: None,
            tts_enabled: Some(false),
            allow_network_access: Some(false),
            macos_handle_aggregates: None,
            profile_directory: None,
            mic_profile_directory: None,
            samples_directory: None,
            presets_directory: None,
            icons_directory: None,
            logs_directory: None,
            backup_directory: None,
            log_level: Some(LevelFilter::Debug),
            open_ui_on_launch: None,
            activate: None,
            firmware_source: None,
            devices: Some(Registry::new()),
            sample_gain: Some(Registry::new()),
        }
    }
}

/// The value that is set, or another where none is.
pub open spec fn or_else<T>(value: Option<T>, otherwise: T) -> T {
    match value {
        Some(value) => value,
        None => otherwise,
    }
}

/// The path that is kept: none where it is the usual one.
pub open spec fn kept(path: Option<String>, usual: bool) -> Option<String> {
    if usual {
        None
    } else {
        path
    }
}

/// Drops a path that is the usual one.
fn keep(path: Option<String>, usual: bool) -> (result: Option<String>)
    ensures
        result == kept(path, usual),
{
    if usual {
        None
    } else {
        path
    }
}

/// Gives a flag that is missing a value.
fn complete(value: Option<bool>, otherwise: bool) -> (result: Option<bool>)
    ensures
        result == Some(or_else(value, otherwise)),
{
    match value {
        Some(value) => Some(value),
        None => Some(otherwise),
    }
}

impl SettingsHandle {
    /// Whether every setting that must have a value has one.
    pub open spec fn complete(self) -> bool {
        let settings = self.settings;
        &&& settings.show_tray_icon is Some
        &&& settings.tts_enabled is Some
        &&& settings.allow_network_access is Some
        &&& settings.macos_handle_aggregates is Some
        &&& settings.log_level is Some
        &&& settings.open_ui_on_launch is Some
        &&& settings.firmware_source is Some
        &&& settings.devices is Some
    }

    /// The devices that have settings.
    pub open spec fn devices(self) -> Map<Seq<char>, DeviceSettings> {
        self.settings.devices->0@
    }

    /// Whether only the settings of devices may differ.
    pub open spec fn same_but_devices(self, other: SettingsHandle) -> bool {
        self.settings == (Settings { devices: self.settings.devices, ..other.settings })
    }

    /// Completes the settings that were read; where none were, the daemon starts for the first time.
    /// `usual` says which directories are set to what they would be anyway: these settings are
    /// dropped.
    pub fn load(settings: Settings, usual: UsualDirectories) -> (handle: SettingsHandle)
        ensures
            handle.complete(),
            handle.settings.show_tray_icon == Some(or_else(settings.show_tray_icon, true)),
            handle.settings.selected_locale == settings.selected_locale,
            handle.settings.tts_enabled == Some(or_else(settings.tts_enabled, false)),
            handle.settings.allow_network_access == Some(
                or_else(settings.allow_network_access, false),
            ),
            handle.settings.macos_handle_aggregates == Some(
                or_else(settings.macos_handle_aggregates, true),
            ),
            handle.settings.profile_directory == kept(settings.profile_directory, usual.profiles),
            handle.settings.mic_profile_directory == kept(
                settings.mic_profile_directory,
                usual.mic_profiles,
            ),
            handle.settings.samples_directory == kept(settings.samples_directory, usual.samples),
            handle.settings.presets_directory == kept(settings.presets_directory, usual.presets),
            handle.settings.icons_directory == kept(settings.icons_directory, usual.icons),
            handle.settings.logs_directory == kept(settings.logs_directory, usual.logs),
            handle.settings.backup_directory == settings.backup_directory,
            handle.settings.log_level == Some(or_else(settings.log_level, LevelFilter::Debug)),
            handle.settings.open_ui_on_launch == Some(or_else(settings.open_ui_on_launch, false)),
            handle.settings.activate == settings.activate,
            handle.settings.firmware_source == Some(
                or_else(settings.firmware_source, FirmwareSource::Live),
            ),
            settings.devices is Some ==> handle.settings.devices == settings.devices,
            settings.devices is None ==> handle.devices() == Map::<
                Seq<char>,
                DeviceSettings,
            >::empty(),
            handle.settings.sample_gain == settings.sample_gain,
    {
        let devices = match settings.devices {
            Some(devices) => devices,
            None => Registry::new(),
        };
        let log_level = match settings.log_level {
            Some(level) => level,
            None => LevelFilter::Debug,
        };
        let firmware_source = match settings.firmware_source {
            Some(source) => source,
            None => FirmwareSource::Live,
        };
        SettingsHandle {
            settings: Settings {
                show_tray_icon: complete(settings.show_tray_icon, true),
                selected_locale: settings.selected_locale,
                tts_enabled: complete(settings.tts_enabled, false),
                allow_network_access: complete(settings.allow_network_access, false),
                macos_handle_aggregates: complete(settings.macos_handle_aggregates, true),
                profile_directory: keep(settings.profile_directory, usual.profiles),
                mic_profile_directory: keep(settings.mic_profile_directory, usual.mic_profiles),
                samples_directory: keep(settings.samples_directory, usual.samples),
                presets_directory: keep(settings.presets_directory, usual.presets),
                icons_directory: keep(settings.icons_directory, usual.icons),
                logs_directory: keep(settings.logs_directory, usual.logs),
                backup_directory: settings.backup_directory,
                log_level: Some(log_level),
                open_ui_on_launch: complete(settings.open_ui_on_launch, false),
                activate: settings.activate,
                firmware_source: Some(firmware_source),
                devices: Some(devices),
                sample_gain: settings.sample_gain,
            },
        }
    }

    /// Says whether there is an icon in the tray.
    pub fn get_show_tray_icon(&self) -> (value: bool)
        requires
            self.complete(),
        ensures
            Some(value) == self.settings.show_tray_icon,
    {
        self.settings.show_tray_icon.unwrap()
    }

    /// Sets whether there is an icon in the tray.
    pub fn set_show_tray_icon(&mut self, value: bool)
        ensures
            final(self).settings == (Settings { show_tray_icon: Some(value), ..old(self).settings }),
    {
        self.settings.show_tray_icon = Some(value);
    }

    /// Says where firmware is fetched from.
    pub fn get_firmware_source(&self) -> (value: FirmwareSource)
        requires
            self.complete(),
        ensures
            Some(value) == self.settings.firmware_source,
    {
        self.settings.firmware_source.unwrap()
    }

    /// Sets where firmware is fetched from.
    pub fn set_firmware_source(&mut self, value: FirmwareSource)
        ensures
            final(self).settings == (Settings { firmware_source: Some(value), ..old(self).settings }),
    {
        self.settings.firmware_source = Some(value);
    }

    /// Says whether other machines may reach the daemon.
    pub fn get_allow_network_access(&self) -> (value: bool)
        requires
            self.complete(),
        ensures
            Some(value) == self.settings.allow_network_access,
    {
        self.settings.allow_network_access.unwrap()
    }

    /// Sets whether other machines may reach the daemon.
    pub fn set_allow_network_access(&mut self, value: bool)
        ensures
            final(self).settings == (Settings { allow_network_access: Some(value), ..old(self).settings }),
    {
        self.settings.allow_network_access = Some(value);
    }

    /// Says whether devices are put together on macOS.
    pub fn get_macos_handle_aggregates(&self) -> (value: bool)
        requires
            self.complete(),
        ensures
            Some(value) == self.settings.macos_handle_aggregates,
    {
        self.settings.macos_handle_aggregates.unwrap()
    }

    /// Sets whether devices are put together on macOS.
    pub fn set_macos_handle_aggregates(&mut self, value: bool)
        ensures
            final(self).settings == (Settings { macos_handle_aggregates: Some(value), ..old(self).settings }),
    {
        self.settings.macos_handle_aggregates = Some(value);
    }

    /// Says how much is written to the log.
    pub fn get_log_level(&self) -> (value: LevelFilter)
        requires
            self.complete(),
        ensures
            Some(value) == self.settings.log_level,
    {
        self.settings.log_level.unwrap()
    }

    /// Sets how much is written to the log.
    pub fn set_log_level(&mut self, value: LevelFilter)
        ensures
            final(self).settings == (Settings { log_level: Some(value), ..old(self).settings }),
    {
        self.settings.log_level = Some(value);
    }

    /// Says whether the user interface is opened at the start.
    pub fn get_open_ui_on_launch(&self) -> (value: bool)
        requires
            self.complete(),
        ensures
            Some(value) == self.settings.open_ui_on_launch,
    {
        self.settings.open_ui_on_launch.unwrap()
    }

    /// Sets whether the user interface is opened at the start.
    pub fn set_open_ui_on_launch(&mut self, value: bool)
        ensures
            final(self).settings == (Settings { open_ui_on_launch: Some(value), ..old(self).settings }),
    {
        self.settings.open_ui_on_launch = Some(value);
    }

    /// Says whether changes are spoken; nothing where the daemon cannot speak.
    pub fn get_tts_enabled(&self, can_speak: bool) -> (value: Option<bool>)
        requires
            self.complete(),
        ensures
            value == (if can_speak {
                self.settings.tts_enabled
            } else {
                None
            }),
    {
        if can_speak {
            self.settings.tts_enabled
        } else {
            None
        }
    }

    /// Sets whether changes are spoken.
    pub fn set_tts_enabled(&mut self, enabled: bool)
        ensures
            final(self).settings == (Settings { tts_enabled: Some(enabled), ..old(self).settings }),
    {
        self.settings.tts_enabled = Some(enabled);
    }

    /// Names the language that the user chose.
    pub fn get_selected_locale(&self) -> (locale: Option<String>)
        ensures
            locale == self.settings.selected_locale,
    {
        match &self.settings.selected_locale {
            Some(locale) => Some(locale.clone()),
            None => None,
        }
    }

    /// Sets the language that the user chose.
    pub fn set_selected_locale(&mut self, locale: Option<String>)
        ensures
            final(self).settings == (Settings { selected_locale: locale, ..old(self).settings }),
    {
        self.settings.selected_locale = locale;
    }

    /// Names the command that brings up the user interface.
    pub fn get_activate(&self) -> (activate: Option<String>)
        ensures
            activate == self.settings.activate,
    {
        match &self.settings.activate {
            Some(activate) => Some(activate.clone()),
            None => None,
        }
    }

    /// Sets the command that brings up the user interface.
    pub fn set_activate(&mut self, activate: Option<String>)
        ensures
            final(self).settings == (Settings { activate, ..old(self).settings }),
    {
        self.settings.activate = activate;
    }

    /// Says where profiles are.
    pub fn get_profile_directory(&self) -> (directory: Directory)
        ensures
            directory_is(self.settings.profile_directory, PathTypes::Profiles, directory),
    {
        directory_of(&self.settings.profile_directory, PathTypes::Profiles)
    }

    /// Says where microphone profiles are.
    pub fn get_mic_profile_directory(&self) -> (directory: Directory)
        ensures
            directory_is(self.settings.mic_profile_directory, PathTypes::MicProfiles, directory),
    {
        directory_of(&self.settings.mic_profile_directory, PathTypes::MicProfiles)
    }

    /// Says where samples are.
    pub fn get_samples_directory(&self) -> (directory: Directory)
        ensures
            directory_is(self.settings.samples_directory, PathTypes::Samples, directory),
    {
        directory_of(&self.settings.samples_directory, PathTypes::Samples)
    }

    /// Says where presets are.
    pub fn get_presets_directory(&self) -> (directory: Directory)
        ensures
            directory_is(self.settings.presets_directory, PathTypes::Presets, directory),
    {
        directory_of(&self.settings.presets_directory, PathTypes::Presets)
    }

    /// Says where icons are.
    pub fn get_icons_directory(&self) -> (directory: Directory)
        ensures
            directory_is(self.settings.icons_directory, PathTypes::Icons, directory),
    {
        directory_of(&self.settings.icons_directory, PathTypes::Icons)
    }

    /// Says where logs are.
    pub fn get_log_directory(&self) -> (directory: Directory)
        ensures
            directory_is(self.settings.logs_directory, PathTypes::Logs, directory),
    {
        directory_of(&self.settings.logs_directory, PathTypes::Logs)
    }

    /// Says where backups are.
    pub fn get_backup_directory(&self) -> (directory: Directory)
        ensures
            directory_is(self.settings.backup_directory, PathTypes::Backups, directory),
    {
        directory_of(&self.settings.backup_directory, PathTypes::Backups)
    }

    /// Says where files of a kind are.
    pub fn get_directory(&self, kind: PathTypes) -> (directory: Directory)
        ensures
            directory_is(self.custom_directory(kind), kind, directory),
    {
        match kind {
            PathTypes::Profiles => self.get_profile_directory(),
            PathTypes::MicProfiles => self.get_mic_profile_directory(),
            PathTypes::Samples => self.get_samples_directory(),
            PathTypes::Presets => self.get_presets_directory(),
            PathTypes::Icons => self.get_icons_directory(),
            PathTypes::Logs => self.get_log_directory(),
            PathTypes::Backups => self.get_backup_directory(),
        }
    }

    /// The path that is set for files of a kind.
    pub open spec fn custom_directory(self, kind: PathTypes) -> Option<String> {
        match kind {
            PathTypes::Profiles => self.settings.profile_directory,
            PathTypes::MicProfiles => self.settings.mic_profile_directory,
            PathTypes::Samples => self.settings.samples_directory,
            PathTypes::Presets => self.settings.presets_directory,
            PathTypes::Icons => self.settings.icons_directory,
            PathTypes::Logs => self.settings.logs_directory,
            PathTypes::Backups => self.settings.backup_directory,
        }
    }

    /// Names the profile of a device.
    pub fn get_device_profile_name(&self, device_serial: &str) -> (name: Option<String>)
        requires
            self.complete(),
        ensures
            name == (if self.devices().dom().contains(device_serial@) {
                Some(self.devices()[device_serial@].profile)
            } else {
                None
            }),
    {
        match self.settings.devices.as_ref().unwrap().get(device_serial) {
            Some(device) => Some(device.profile.clone()),
            None => None,
        }
    }

    /// Names the microphone profile of a device.
    pub fn get_device_mic_profile_name(&self, device_serial: &str) -> (name: Option<String>)
        requires
            self.complete(),
        ensures
            name == (if self.devices().dom().contains(device_serial@) {
                Some(self.devices()[device_serial@].mic_profile)
            } else {
                None
            }),
    {
        match self.settings.devices.as_ref().unwrap().get(device_serial) {
            Some(device) => Some(device.mic_profile.clone()),
            None => None,
        }
    }

    /// A setting of a device, or another value where the device or the setting is missing.
    pub open spec fn device_value<T>(self, serial: Seq<char>, value: Option<T>, otherwise: T) -> T {
        if self.devices().dom().contains(serial) {
            or_else(value, otherwise)
        } else {
            otherwise
        }
    }

    /// Says how long is recorded before the button is pressed.
    pub fn get_device_sampler_pre_buffer(&self, device_serial: &str) -> (value: u16)
        requires
            self.complete(),
        ensures
            value == self.device_value(
                device_serial@,
                self.devices()[device_serial@].sampler_pre_buffer,
                0u16,
            ),
    {
        match self.settings.devices.as_ref().unwrap().get(device_serial) {
            Some(device) => match device.sampler_pre_buffer {
                Some(value) => value,
                None => 0,
            },
            None => 0,
        }
    }

    /// Says how long a button is held until it counts as held.
    pub fn get_device_hold_time(&self, device_serial: &str) -> (value: u16)
        requires
            self.complete(),
        ensures
            value == self.device_value(
                device_serial@,
                self.devices()[device_serial@].hold_delay,
                500u16,
            ),
    {
        match self.settings.devices.as_ref().unwrap().get(device_serial) {
            Some(device) => match device.hold_delay {
                Some(value) => value,
                None => 500,
            },
            None => 500,
        }
    }

    /// Says whether muting the voice chat also mutes the microphone in it.
    pub fn get_device_chat_mute_mutes_mic_to_chat(&self, device_serial: &str) -> (value: bool)
        requires
            self.complete(),
        ensures
            value == self.device_value(
                device_serial@,
                self.devices()[device_serial@].chat_mute_mutes_mic_to_chat,
                true,
            ),
    {
        match self.settings.devices.as_ref().unwrap().get(device_serial) {
            Some(device) => match device.chat_mute_mutes_mic_to_chat {
                Some(value) => value,
                None => true,
            },
            None => true,
        }
    }

    /// Says whether faders stay where they are when muted.
    pub fn get_device_lock_faders(&self, device_serial: &str) -> (value: bool)
        requires
            self.complete(),
        ensures
            value == self.device_value(
                device_serial@,
                self.devices()[device_serial@].lock_faders,
                true,
            ),
    {
        match self.settings.devices.as_ref().unwrap().get(device_serial) {
            Some(device) => match device.lock_faders {
                Some(value) => value,
                None => true,
            },
            None => true,
        }
    }

    /// Says whether the user hears themselves while effects are on.
    pub fn get_enable_monitor_with_fx(&self, device_serial: &str) -> (value: bool)
        requires
            self.complete(),
        ensures
            value == self.device_value(
                device_serial@,
                self.devices()[device_serial@].enable_monitor_with_fx,
                false,
            ),
    {
        match self.settings.devices.as_ref().unwrap().get(device_serial) {
            Some(device) => match device.enable_monitor_with_fx {
                Some(value) => value,
                None => false,
            },
            None => false,
        }
    }

    /// Says how the output for recordings is fed.
    pub fn get_device_vod_mode(&self, device_serial: &str) -> (value: VodMode)
        requires
            self.complete(),
        ensures
            value == self.device_value(
                device_serial@,
                self.devices()[device_serial@].vod_mode,
                VodMode::Routable,
            ),
    {
        match self.settings.devices.as_ref().unwrap().get(device_serial) {
            Some(device) => match device.vod_mode {
                Some(value) => value,
                None => VodMode::Routable,
            },
            None => VodMode::Routable,
        }
    }

    /// Says whether clearing a sample button resets its settings.
    pub fn get_sampler_reset_on_clear(&self, device_serial: &str) -> (value: bool)
        requires
            self.complete(),
        ensures
            value == self.device_value(
                device_serial@,
                self.devices()[device_serial@].sampler_reset_on_clear,
                true,
            ),
    {
        match self.settings.devices.as_ref().unwrap().get(device_serial) {
            Some(device) => match device.sampler_reset_on_clear {
                Some(value) => value,
                None => true,
            },
            None => true,
        }
    }

    /// Says how long a sample takes to fade out.
    pub fn get_sampler_fade_duration(&self, device_serial: &str) -> (value: u32)
        requires
            self.complete(),
        ensures
            value == self.device_value(
                device_serial@,
                self.devices()[device_serial@].sampler_fade_duration,
                500u32,
            ),
    {
        match self.settings.devices.as_ref().unwrap().get(device_serial) {
            Some(device) => match device.sampler_fade_duration {
                Some(value) => value,
                None => 500,
            },
            None => 500,
        }
    }

    /// Lists the commands that a device runs at shutdown.
    pub fn get_device_shutdown_commands(&self, device_serial: &str) -> (commands: &[GoXLRCommand])
        requires
            self.complete(),
        ensures
            commands@ == (if self.devices().dom().contains(device_serial@) {
                self.devices()[device_serial@].shutdown_commands@
            } else {
                Seq::empty()
            }),
    {
        match self.settings.devices.as_ref().unwrap().get(device_serial) {
            Some(device) => device.shutdown_commands.as_slice(),
            None => &[],
        }
    }

    /// Lists the commands that a device runs at sleep.
    pub fn get_device_sleep_commands(&self, device_serial: &str) -> (commands: &[GoXLRCommand])
        requires
            self.complete(),
        ensures
            commands@ == (if self.devices().dom().contains(device_serial@) {
                self.devices()[device_serial@].sleep_commands@
            } else {
                Seq::empty()
            }),
    {
        match self.settings.devices.as_ref().unwrap().get(device_serial) {
            Some(device) => device.sleep_commands.as_slice(),
            None => &[],
        }
    }

    /// Lists the commands that a device runs at waking.
    pub fn get_device_wake_commands(&self, device_serial: &str) -> (commands: &[GoXLRCommand])
        requires
            self.complete(),
        ensures
            commands@ == (if self.devices().dom().contains(device_serial@) {
                self.devices()[device_serial@].wake_commands@
            } else {
                Seq::empty()
            }),
    {
        match self.settings.devices.as_ref().unwrap().get(device_serial) {
            Some(device) => device.wake_commands.as_slice(),
            None => &[],
        }
    }

    /// Takes the settings of a device out, to be put back changed.
    fn take_device(&mut self, device_serial: &str) -> (device: DeviceSettings)
        requires
            old(self).complete(),
        ensures
            final(self).complete(),
            final(self).same_but_devices(*old(self)),
            final(self).devices() == old(self).devices().remove(device_serial@),
            entry_is(old(self).devices(), device_serial@, device),
    {
        let mut devices = self.settings.devices.take().unwrap();
        let device = match devices.remove(device_serial) {
            Some(device) => device,
            None => DeviceSettings::default(),
        };
        self.settings.devices = Some(devices);
        device
    }

    /// Puts the settings of a device back.
    fn put_device(&mut self, device_serial: &str, device: DeviceSettings)
        requires
            old(self).complete(),
        ensures
            final(self).complete(),
            final(self).same_but_devices(*old(self)),
            final(self).devices() == old(self).devices().insert(device_serial@, device),
    {
        let mut devices = self.settings.devices.take().unwrap();
        devices.insert(device_serial.to_owned(), device);
        self.settings.devices = Some(devices);
    }

    /// Sets how long is recorded before the button is pressed.
    pub fn set_device_sampler_pre_buffer(&mut self, device_serial: &str, duration: u16)
        requires
            old(self).complete(),
        ensures
            final(self).complete(),
            final(self).same_but_devices(*old(self)),
            exists|device: DeviceSettings| #[trigger]
                entry_is(old(self).devices(), device_serial@, device) && final(self).devices()
                    == old(self).devices().insert(
                    device_serial@,
                    (DeviceSettings { sampler_pre_buffer: Some(duration), ..device }),
                ),
    {
        let mut device = self.take_device(device_serial);
        let ghost before = device;
        device.sampler_pre_buffer = Some(duration);
        self.put_device(device_serial, device);
        proof {
            assert(entry_is(old(self).devices(), device_serial@, before));
            assert(self.devices() =~= old(self).devices().insert(device_serial@, device));
        }
    }

    /// Sets how long a button is held until it counts as held.
    pub fn set_device_mute_hold_duration(&mut self, device_serial: &str, duration: u16)
        requires
            old(self).complete(),
        ensures
            final(self).complete(),
            final(self).same_but_devices(*old(self)),
            exists|device: DeviceSettings| #[trigger]
                entry_is(old(self).devices(), device_serial@, device) && final(self).devices()
                    == old(self).devices().insert(
                    device_serial@,
                    (DeviceSettings { hold_delay: Some(duration), ..device }),
                ),
    {
        let mut device = self.take_device(device_serial);
        let ghost before = device;
        device.hold_delay = Some(duration);
        self.put_device(device_serial, device);
        proof {
            assert(entry_is(old(self).devices(), device_serial@, before));
            assert(self.devices() =~= old(self).devices().insert(device_serial@, device));
        }
    }

    /// Sets whether muting the voice chat also mutes the microphone in it.
    pub fn set_device_vc_mute_also_mute_cm(&mut self, device_serial: &str, setting: bool)
        requires
            old(self).complete(),
        ensures
            final(self).complete(),
            final(self).same_but_devices(*old(self)),
            exists|device: DeviceSettings| #[trigger]
                entry_is(old(self).devices(), device_serial@, device) && final(self).devices()
                    == old(self).devices().insert(
                    device_serial@,
                    (DeviceSettings { chat_mute_mutes_mic_to_chat: Some(setting), ..device }),
                ),
    {
        let mut device = self.take_device(device_serial);
        let ghost before = device;
        device.chat_mute_mutes_mic_to_chat = Some(setting);
        self.put_device(device_serial, device);
        proof {
            assert(entry_is(old(self).devices(), device_serial@, before));
            assert(self.devices() =~= old(self).devices().insert(device_serial@, device));
        }
    }

    /// Sets whether faders stay where they are when muted.
    pub fn set_device_lock_faders(&mut self, device_serial: &str, setting: bool)
        requires
            old(self).complete(),
        ensures
            final(self).complete(),
            final(self).same_but_devices(*old(self)),
            exists|device: DeviceSettings| #[trigger]
                entry_is(old(self).devices(), device_serial@, device) && final(self).devices()
                    == old(self).devices().insert(
                    device_serial@,
                    (DeviceSettings { lock_faders: Some(setting), ..device }),
                ),
    {
        let mut device = self.take_device(device_serial);
        let ghost before = device;
        device.lock_faders = Some(setting);
        self.put_device(device_serial, device);
        proof {
            assert(entry_is(old(self).devices(), device_serial@, before));
            assert(self.devices() =~= old(self).devices().insert(device_serial@, device));
        }
    }

    /// Sets whether the user hears themselves while effects are on.
    pub fn set_enable_monitor_with_fx(&mut self, device_serial: &str, setting: bool)
        requires
            old(self).complete(),
        ensures
            final(self).complete(),
            final(self).same_but_devices(*old(self)),
            exists|device: DeviceSettings| #[trigger]
                entry_is(old(self).devices(), device_serial@, device) && final(self).devices()
                    == old(self).devices().insert(
                    device_serial@,
                    (DeviceSettings { enable_monitor_with_fx: Some(setting), ..device }),
                ),
    {
        let mut device = self.take_device(device_serial);
        let ghost before = device;
        device.enable_monitor_with_fx = Some(setting);
        self.put_device(device_serial, device);
        proof {
            assert(entry_is(old(self).devices(), device_serial@, before));
            assert(self.devices() =~= old(self).devices().insert(device_serial@, device));
        }
    }

    /// Sets how the output for recordings is fed.
    pub fn set_device_vod_mode(&mut self, device_serial: &str, setting: VodMode)
        requires
            old(self).complete(),
        ensures
            final(self).complete(),
            final(self).same_but_devices(*old(self)),
            exists|device: DeviceSettings| #[trigger]
                entry_is(old(self).devices(), device_serial@, device) && final(self).devices()
                    == old(self).devices().insert(
                    device_serial@,
                    (DeviceSettings { vod_mode: Some(setting), ..device }),
                ),
    {
        let mut device = self.take_device(device_serial);
        let ghost before = device;
        device.vod_mode = Some(setting);
        self.put_device(device_serial, device);
        proof {
            assert(entry_is(old(self).devices(), device_serial@, before));
            assert(self.devices() =~= old(self).devices().insert(device_serial@, device));
        }
    }

    /// Sets whether clearing a sample button resets its settings.
    pub fn set_sampler_reset_on_clear(&mut self, device_serial: &str, setting: bool)
        requires
            old(self).complete(),
        ensures
            final(self).complete(),
            final(self).same_but_devices(*old(self)),
            exists|device: DeviceSettings| #[trigger]
                entry_is(old(self).devices(), device_serial@, device) && final(self).devices()
                    == old(self).devices().insert(
                    device_serial@,
                    (DeviceSettings { sampler_reset_on_clear: Some(setting), ..device }),
                ),
    {
        let mut device = self.take_device(device_serial);
        let ghost before = device;
        device.sampler_reset_on_clear = Some(setting);
        self.put_device(device_serial, device);
        proof {
            assert(entry_is(old(self).devices(), device_serial@, before));
            assert(self.devices() =~= old(self).devices().insert(device_serial@, device));
        }
    }

    /// Sets how long a sample takes to fade out.
    pub fn set_sampler_fade_duration(&mut self, device_serial: &str, duration: u32)
        requires
            old(self).complete(),
        ensures
            final(self).complete(),
            final(self).same_but_devices(*old(self)),
            exists|device: DeviceSettings| #[trigger]
                entry_is(old(self).devices(), device_serial@, device) && final(self).devices()
                    == old(self).devices().insert(
                    device_serial@,
                    (DeviceSettings { sampler_fade_duration: Some(duration), ..device }),
                ),
    {
        let mut device = self.take_device(device_serial);
        let ghost before = device;
        device.sampler_fade_duration = Some(duration);
        self.put_device(device_serial, device);
        proof {
            assert(entry_is(old(self).devices(), device_serial@, before));
            assert(self.devices() =~= old(self).devices().insert(device_serial@, device));
        }
    }

    /// Sets the commands that a device runs at shutdown.
    pub fn set_device_shutdown_commands(&mut self, device_serial: &str, commands: Vec<GoXLRCommand>)
        requires
            old(self).complete(),
        ensures
            final(self).complete(),
            final(self).same_but_devices(*old(self)),
            exists|device: DeviceSettings| #[trigger]
                entry_is(old(self).devices(), device_serial@, device) && final(self).devices()
                    == old(self).devices().insert(
                    device_serial@,
                    (DeviceSettings { shutdown_commands: commands, ..device }),
                ),
    {
        let mut device = self.take_device(device_serial);
        let ghost before = device;
        device.shutdown_commands = commands;
        self.put_device(device_serial, device);
        proof {
            assert(entry_is(old(self).devices(), device_serial@, before));
            assert(self.devices() =~= old(self).devices().insert(device_serial@, device));
        }
    }

    /// Sets the commands that a device runs at sleep.
    pub fn set_device_sleep_commands(&mut self, device_serial: &str, commands: Vec<GoXLRCommand>)
        requires
            old(self).complete(),
        ensures
            final(self).complete(),
            final(self).same_but_devices(*old(self)),
            exists|device: DeviceSettings| #[trigger]
                entry_is(old(self).devices(), device_serial@, device) && final(self).devices()
                    == old(self).devices().insert(
                    device_serial@,
                    (DeviceSettings { sleep_commands: commands, ..device }),
                ),
    {
        let mut device = self.take_device(device_serial);
        let ghost before = device;
        device.sleep_commands = commands;
        self.put_device(device_serial, device);
        proof {
            assert(entry_is(old(self).devices(), device_serial@, before));
            assert(self.devices() =~= old(self).devices().insert(device_serial@, device));
        }
    }

    /// Sets the commands that a device runs at waking.
    pub fn set_device_wake_commands(&mut self, device_serial: &str, commands: Vec<GoXLRCommand>)
        requires
            old(self).complete(),
        ensures
            final(self).complete(),
            final(self).same_but_devices(*old(self)),
            exists|device: DeviceSettings| #[trigger]
                entry_is(old(self).devices(), device_serial@, device) && final(self).devices()
                    == old(self).devices().insert(
                    device_serial@,
                    (DeviceSettings { wake_commands: commands, ..device }),
                ),
    {
        let mut device = self.take_device(device_serial);
        let ghost before = device;
        device.wake_commands = commands;
        self.put_device(device_serial, device);
        proof {
            assert(entry_is(old(self).devices(), device_serial@, before));
            assert(self.devices() =~= old(self).devices().insert(device_serial@, device));
        }
    }

    /// Sets the profile of a device.
    pub fn set_device_profile_name(&mut self, device_serial: &str, name: &str)
        requires
            old(self).complete(),
        ensures
            final(self).complete(),
            final(self).same_but_devices(*old(self)),
            exists|device: DeviceSettings, text: String| #[trigger]
                entry_is(old(self).devices(), device_serial@, device) && #[trigger] text@ == name@
                    && final(self).devices() == old(self).devices().insert(
                    device_serial@,
                    (DeviceSettings { profile: text, ..device }),
                ),
    {
        let mut device = self.take_device(device_serial);
        let ghost before = device;
        let text = name.to_owned();
        let ghost set = text;
        device.profile = text;
        self.put_device(device_serial, device);
        proof {
            assert(entry_is(old(self).devices(), device_serial@, before));
            assert(set@ == name@);
            assert(self.devices() =~= old(self).devices().insert(device_serial@, device));
        }
    }

    /// Sets the microphone profile of a device.
    pub fn set_device_mic_profile_name(&mut self, device_serial: &str, name: &str)
        requires
            old(self).complete(),
        ensures
            final(self).complete(),
            final(self).same_but_devices(*old(self)),
            exists|device: DeviceSettings, text: String| #[trigger]
                entry_is(old(self).devices(), device_serial@, device) && #[trigger] text@ == name@
                    && final(self).devices() == old(self).devices().insert(
                    device_serial@,
                    (DeviceSettings { mic_profile: text, ..device }),
                ),
    {
        let mut device = self.take_device(device_serial);
        let ghost before = device;
        let text = name.to_owned();
        let ghost set = text;
        device.mic_profile = text;
        self.put_device(device_serial, device);
        proof {
            assert(entry_is(old(self).devices(), device_serial@, before));
            assert(set@ == name@);
            assert(self.devices() =~= old(self).devices().insert(device_serial@, device));
        }
    }

    /// The gain of a sample in percent.
    pub open spec fn gain_of(self, name: Seq<char>) -> u8 {
        match self.settings.sample_gain {
            Some(gains) => if gains@.dom().contains(name) {
                gains@[name]
            } else {
                100
            },
            None => 100,
        }
    }

    /// Says the gain of a sample in percent.
    pub fn get_sample_gain_percent(&self, name: &str) -> (percent: u8)
        ensures
            percent == self.gain_of(name@),
    {
        match &self.settings.sample_gain {
            Some(gains) => match gains.get(name) {
                Some(percent) => *percent,
                None => 100,
            },
            None => 100,
        }
    }

    /// Lists the gains of the samples that have one of their own.
    pub fn get_sample_gain_list(&self) -> (list: Registry<u8>)
        ensures
            list@ == (match self.settings.sample_gain {
                Some(gains) => gains@,
                None => Map::<Seq<char>, u8>::empty(),
            }),
    {
        let mut list: Registry<u8> = Registry::new();
        let gains = match &self.settings.sample_gain {
            Some(gains) => gains,
            None => return list,
        };
        let keys = gains.keys();
        let mut i: usize = 0;
        while i < keys.len()
            invariant
                i <= keys@.len(),
                forall|j: int|
                    0 <= j < keys@.len() ==> gains@.dom().contains(#[trigger] keys@[j]@),
                forall|key: Seq<char>| #[trigger]
                    list@.dom().contains(key) ==> gains@.dom().contains(key) && list@[key]
                        == gains@[key],
                forall|j: int| 0 <= j < i ==> list@.dom().contains(#[trigger] keys@[j]@),
            decreases keys@.len() - i,
        {
            if let Some(percent) = gains.get(keys[i].as_str()) {
                list.insert(keys[i].clone(), *percent);
            }
            i = i + 1;
        }
        assert(list@ =~= gains@);
        list
    }

    /// Sets the gain of a sample in percent.
    pub fn set_sample_gain_percent(&mut self, name: String, value: u8)
        ensures
            final(self).settings == (Settings {
                sample_gain: final(self).settings.sample_gain,
                ..old(self).settings
            }),
            final(self).settings.sample_gain matches Some(gains) && gains@ == (
            match old(self).settings.sample_gain {
                Some(before) => before@,
                None => Map::<Seq<char>, u8>::empty(),
            }).insert(name@, value),
            final(self).gain_of(name@) == value,
    {
        let mut gains = match self.settings.sample_gain.take() {
            Some(gains) => gains,
            None => Registry::new(),
        };
        gains.insert(name, value);
        self.settings.sample_gain = Some(gains);
    }
}

/// Setting the gain of one sample leaves that of every other.
pub proof fn gains_are_apart(
    before: SettingsHandle,
    after: SettingsHandle,
    name: Seq<char>,
    other: Seq<char>,
    value: u8,
)
    requires
        name != other,
        after.settings.sample_gain matches Some(gains) && gains@ == (
        match before.settings.sample_gain {
            Some(old_gains) => old_gains@,
            None => Map::<Seq<char>, u8>::empty(),
        }).insert(name, value),
    ensures
        after.gain_of(name) == value,
        after.gain_of(other) == before.gain_of(other),
{
}

} // verus!
