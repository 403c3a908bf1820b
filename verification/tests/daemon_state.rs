//! Settings, files, the task that holds the devices, and the sampler.

use goxlr_daemon::audio::{
    check_pattern, find_device, get_input_device_string_patterns,
    get_output_device_string_patterns, AudioError, AudioHandler, StopAction,
};
use goxlr_daemon::cli::LevelFilter;
use goxlr_daemon::events::{
    get_util_url, unix_launch, windows_launch, EventAction, EventHandler, EventTriggers, Launch,
};
use goxlr_daemon::files::{
    can_create_new_file, changed_files, extract_defaults, file_name, get_defaults_argument, Below,
    FileEvent, FileManager, FilePaths, NewFileError,
};
use goxlr_daemon::firmware_update::UpdateState;
use goxlr_daemon::packet::{DaemonCommand, DeviceCommand, PathTypes};
use goxlr_daemon::profile_files::{
    from_named, from_named_or_default, mic_profile_file, preset_name, profile_file, write_profile,
    ProfileSource,
};
use goxlr_daemon::registry::Registry;
use goxlr_daemon::settings::{
    Directory, FirmwareSource, Settings, SettingsHandle, UsualDirectories, VodMode,
};
use goxlr_daemon::types::{BankMap, DeviceType, SampleBank, SampleButtons, SampleMap};
use goxlr_daemon::worker::{
    colour_way, device_type, find_new_device, generate_serial, get_sample_files, is_goxlr,
    last_answer, run_daemon_command, ClearError, ColourWay, DaemonEffect, IgnoredDevice,
    UsbProductInformation, Worker, WorkerAction, WorkerEvent,
};

fn text(value: &str) -> String {
    String::from(value)
}

fn custom_nothing() -> UsualDirectories {
    UsualDirectories {
        profiles: false,
        mic_profiles: false,
        samples: false,
        presets: false,
        icons: false,
        logs: false,
    }
}

fn handle() -> SettingsHandle {
    SettingsHandle::load(Settings::first(), custom_nothing())
}

#[test]
fn registry_keeps_one_value_for_each_name() {
    let mut registry: Registry<u8> = Registry::new();
    registry.insert(text("a"), 1);
    registry.insert(text("b"), 2);
    registry.insert(text("a"), 3);
    assert_eq!(registry.get("a"), Some(&3));
    assert_eq!(registry.keys().len(), 2);
    assert_eq!(registry.remove("a"), Some(3));
    assert_eq!(registry.remove("a"), None);
    assert!(!registry.contains_key("a"));
    assert!(registry.contains_key("b"));
}

#[test]
fn settings_are_completed() {
    let handle = handle();
    assert!(handle.get_show_tray_icon());
    assert_eq!(handle.get_tts_enabled(true), Some(false));
    assert_eq!(handle.get_tts_enabled(false), None);
    assert!(!handle.get_allow_network_access());
    assert!(handle.get_macos_handle_aggregates());
    assert_eq!(handle.get_log_level(), LevelFilter::Debug);
    assert!(!handle.get_open_ui_on_launch());
    assert_eq!(handle.get_firmware_source(), FirmwareSource::Live);
}

#[test]
fn usual_directories_are_not_kept() {
    let mut settings = Settings::first();
    settings.profile_directory = Some(text("/data/profiles"));
    settings.icons_directory = Some(text("/elsewhere"));
    let mut usual = custom_nothing();
    usual.profiles = true;
    let handle = SettingsHandle::load(settings, usual);
    assert!(matches!(handle.get_profile_directory(), Directory::Usual(name) if name == "profiles"));
    assert!(matches!(handle.get_directory(PathTypes::Icons), Directory::Custom(path) if path == "/elsewhere"));
    assert!(matches!(handle.get_mic_profile_directory(), Directory::Usual(name) if name == "mic-profiles"));
    assert!(matches!(handle.get_backup_directory(), Directory::Usual(name) if name == "backups"));
}

#[test]
fn unknown_devices_have_default_settings() {
    let mut handle = handle();
    assert_eq!(handle.get_device_hold_time("S"), 500);
    assert_eq!(handle.get_device_sampler_pre_buffer("S"), 0);
    assert!(handle.get_device_lock_faders("S"));
    assert!(handle.get_device_chat_mute_mutes_mic_to_chat("S"));
    assert!(!handle.get_enable_monitor_with_fx("S"));
    assert_eq!(handle.get_device_vod_mode("S"), VodMode::Routable);
    assert_eq!(handle.get_device_profile_name("S"), None);
    handle.set_device_mute_hold_duration("S", 250);
    assert_eq!(handle.get_device_hold_time("S"), 250);
    assert!(!handle.get_device_lock_faders("S"));
    assert_eq!(handle.get_device_profile_name("S"), Some(text("DEFAULT")));
    handle.set_device_profile_name("S", "Stream");
    assert_eq!(handle.get_device_profile_name("S"), Some(text("Stream")));
    assert_eq!(handle.get_device_hold_time("S"), 250);
    assert_eq!(handle.get_device_mic_profile_name("S"), Some(text("DEFAULT")));
    assert_eq!(handle.get_device_hold_time("T"), 500);
}

#[test]
fn gains_are_kept_apart() {
    let mut handle = handle();
    assert_eq!(handle.get_sample_gain_percent("a.wav"), 100);
    handle.set_sample_gain_percent(text("a.wav"), 40);
    assert_eq!(handle.get_sample_gain_percent("a.wav"), 40);
    assert_eq!(handle.get_sample_gain_percent("b.wav"), 100);
    let list = handle.get_sample_gain_list();
    assert_eq!(list.keys(), vec![text("a.wav")]);
    assert_eq!(list.get("a.wav"), Some(&40));
    assert!(handle.get_device_shutdown_commands("none").is_empty());
    assert!(handle.get_device_sleep_commands("none").is_empty());
    assert!(handle.get_device_wake_commands("none").is_empty());
    let files = get_sample_files(
        vec![text("x/a.wav"), text("b.wav")],
        vec![text("a.wav"), text("b.wav")],
        &handle,
    );
    assert_eq!(files[0].gain_pct, 40);
    assert_eq!(files[1].gain_pct, 100);
    assert_eq!(files[0].path, "x/a.wav");
}

#[test]
fn daemon_commands_change_settings() {
    let mut handle = handle();
    let (effect, changed) = run_daemon_command(&mut handle, DaemonCommand::SetShowTrayIcon(false));
    assert!(matches!(effect, DaemonEffect::Save));
    assert!(changed);
    assert!(!handle.get_show_tray_icon());
    let (effect, changed) =
        run_daemon_command(&mut handle, DaemonCommand::SetSampleGainPct(text("a"), 5));
    assert!(matches!(effect, DaemonEffect::Nothing));
    assert!(!changed);
    assert_eq!(handle.get_sample_gain_percent("a"), 5);
    let (effect, _) =
        run_daemon_command(&mut handle, DaemonCommand::RecoverDefaults(PathTypes::Logs));
    assert!(matches!(effect, DaemonEffect::InvalidPath));
    let (effect, _) = run_daemon_command(&mut handle, DaemonCommand::StopDaemon);
    assert!(matches!(effect, DaemonEffect::Trigger(EventTriggers::Stop(false))));
}

fn manager() -> FileManager {
    FileManager {
        paths: FilePaths {
            profiles: text("/p"),
            mic_profiles: text("/m"),
            presets: text("/e"),
            icons: text("/i"),
            samples: text("/s"),
        },
    }
}

#[test]
fn files_are_listed_in_order() {
    let names = vec![
        text("beta.goxlr"),
        text("Alpha.goxlr"),
        text("alpha.goxlr"),
        text("note.txt"),
        text(".goxlr"),
        text("two.parts.goxlr"),
    ];
    assert_eq!(
        manager().get_profiles(&names),
        vec!["Alpha", "alpha", "beta", "two.parts"]
    );
    assert!(manager().get_presets(&names).is_empty());
}

#[test]
fn repeated_names_are_listed_once() {
    let names = vec![text("a.png"), text("a.png"), text("b.gif"), text("c.jpeg")];
    assert_eq!(manager().get_icons(&names), vec!["a.png", "b.gif"]);
    let names = vec![text("x.goxlrMicProfile")];
    assert_eq!(manager().get_mic_profiles(&names), vec!["x"]);
}

#[test]
fn letters_beyond_ascii_count_the_same_in_both_cases() {
    let names = vec![text("\u{c4}b.preset"), text("\u{e4}a.preset"), text("z.preset")];
    assert_eq!(
        manager().get_presets(&names),
        vec!["z", "\u{e4}a", "\u{c4}b"]
    );
}

#[test]
fn samples_are_listed_below_their_directory() {
    let samples = manager().get_samples(&vec![text("/s/a.wav"), text("/s/Recorded/b.wav")], false);
    assert_eq!(samples.get("a.wav").unwrap(), "a.wav");
    assert_eq!(samples.get("Recorded/b.wav").unwrap(), "b.wav");
    assert_eq!(samples.keys().len(), 2);
    assert_eq!(file_name("/a/b/c", false), "c");
    assert_eq!(file_name("c", false), "c");
    assert_eq!(file_name("a\\c", false), "a\\c");
    assert_eq!(file_name("a\\c", true), "c");
    assert_eq!(file_name("a\\b/c", true), "c");
}

#[test]
fn file_events_name_the_kind() {
    let mut below = Below {
        profiles: false,
        mic_profiles: false,
        icons: false,
        presets: false,
        samples: true,
    };
    assert_eq!(changed_files(FileEvent::Created, below), Some(PathTypes::Samples));
    assert_eq!(changed_files(FileEvent::Other, below), None);
    below.profiles = true;
    assert_eq!(changed_files(FileEvent::Renamed, below), Some(PathTypes::Profiles));
}

#[test]
fn new_files_need_a_place() {
    assert_eq!(can_create_new_file(Some(false), false, true, true), Err(NewFileError::NoParent));
    assert_eq!(can_create_new_file(Some(true), true, true, true), Err(NewFileError::Exists));
    assert_eq!(can_create_new_file(Some(true), false, false, true), Err(NewFileError::NotCreated));
    assert_eq!(can_create_new_file(Some(true), false, true, false), Err(NewFileError::NotRemoved));
    assert_eq!(can_create_new_file(None, false, true, true), Ok(()));
}

#[test]
fn defaults_are_written_for_four_kinds() {
    assert_eq!(get_defaults_argument(PathTypes::MicProfiles), Some(text("mic-profiles")));
    assert_eq!(get_defaults_argument(PathTypes::Samples), None);
    assert_eq!(extract_defaults(true, Some(0)), Ok(()));
    assert_eq!(extract_defaults(false, Some(2)), Err(2));
    assert_eq!(extract_defaults(false, None), Ok(()));
}

fn usb(bus: u8, address: u8, identifier: Option<&str>) -> UsbProductInformation {
    UsbProductInformation {
        bus_number: bus,
        address,
        identifier: identifier.map(String::from),
    }
}

#[test]
fn known_devices_are_not_new() {
    let found = vec![usb(1, 2, Some("a")), usb(1, 3, None)];
    let known = vec![usb(9, 9, Some("a"))];
    assert_eq!(find_new_device(&found, &known, &vec![], 0), Some(1));
    let ignored = vec![IgnoredDevice { device: usb(1, 3, Some("x")), expires: 10 }];
    assert_eq!(find_new_device(&found, &known, &ignored, 9), None);
    assert_eq!(find_new_device(&found, &known, &ignored, 10), Some(1));
}

#[test]
fn serials_are_made_up() {
    assert_eq!(generate_serial(&vec![]), "UNKNOWN-SN-0");
    assert_eq!(
        generate_serial(&vec![text("UNKNOWN-SN-0"), text("UNKNOWN-SN-1")]),
        "UNKNOWN-SN-2"
    );
    let all: Vec<String> = (0..=24).map(|i| format!("UNKNOWN-SN-{i}")).collect();
    assert_eq!(generate_serial(&all), "UNKNOWN-SN-24");
}

#[test]
fn devices_are_told_apart() {
    assert_eq!(colour_way("S0AAI"), ColourWay::White);
    assert_eq!(colour_way("S03AA"), ColourWay::White);
    assert_eq!(colour_way("AAI0"), ColourWay::Black);
    assert_eq!(device_type(0x8fe0), DeviceType::Full);
    assert_eq!(device_type(0x8fe4), DeviceType::Mini);
    assert_eq!(device_type(1), DeviceType::Unknown);
    assert!(is_goxlr(0x1220, 0x8fe4));
    assert!(!is_goxlr(0x1221, 0x8fe4));
}

#[test]
fn last_device_decides() {
    assert!(!last_answer(&vec![]));
    assert!(!last_answer(&vec![Some(true), Some(false)]));
    assert!(last_answer(&vec![Some(false), Some(true), None]));
}

#[test]
fn updates_are_followed() {
    let mut worker = Worker::new();
    let (_, changed) = worker.handle(WorkerEvent::UpdateState(text("S"), UpdateState::Starting));
    assert!(!changed);
    worker.handle(WorkerEvent::DeviceLoaded(text("S"), usb(1, 1, None)));
    assert!(worker.handle(WorkerEvent::UpdateState(text("S"), UpdateState::Starting)).1);
    assert!(worker.handle(WorkerEvent::UpdateProgress(text("S"), 40)).1);
    match worker.handle(WorkerEvent::Command(DeviceCommand::ClearFirmwareState(text("S")))).0 {
        WorkerAction::RefuseClear(ClearError::InProgress) => {}
        other => panic!("{:?}", other),
    }
    worker.handle(WorkerEvent::Disconnected(text("S")));
    let status = worker.firmware.get("S").unwrap().as_ref().unwrap();
    assert_eq!(status.progress, 40);
    worker.handle(WorkerEvent::UpdateState(text("S"), UpdateState::Failed));
    worker.handle(WorkerEvent::UpdateFailed(text("S"), text("gone")));
    assert_eq!(
        worker.firmware.get("S").unwrap().as_ref().unwrap().error,
        Some(text("gone"))
    );
    assert_eq!(worker.clear_firmware_state("S"), None);
    assert_eq!(worker.clear_firmware_state("S"), Some(ClearError::NotUpdating));
    assert_eq!(worker.clear_firmware_state("T"), Some(ClearError::NotPresent));
}

#[test]
fn gone_devices_are_told_nothing() {
    let mut worker = Worker::new();
    match worker.handle(WorkerEvent::Command(DeviceCommand::GetDeviceMicLevel(text("S")))).0 {
        WorkerAction::AnswerNotConnected(serial) => assert_eq!(serial, "S"),
        other => panic!("{:?}", other),
    }
    worker.handle(WorkerEvent::DeviceLoaded(text("S"), usb(1, 1, None)));
    match worker.handle(WorkerEvent::InputWaiting(text("S"))).0 {
        WorkerAction::ReadInputs(serial) => assert_eq!(serial, "S"),
        other => panic!("{:?}", other),
    }
}

#[test]
fn devices_are_shut_down_once() {
    let mut worker = Worker::new();
    assert!(matches!(
        worker.handle(WorkerEvent::Shutdown(true)).0,
        WorkerAction::ShutDownDevices(true)
    ));
    assert!(matches!(worker.handle(WorkerEvent::Shutdown(true)).0, WorkerAction::Nothing));
}

#[test]
fn path_of_the_interface_is_quoted() {
    let mut worker = Worker::new();
    assert!(worker.get_app_path(Some("/bin/ui"), false));
    assert_eq!(worker.app_path.as_deref(), Some("'/bin/ui'"));
    assert!(!worker.get_app_path(Some("/bin/ui"), false));
    assert!(worker.get_app_path(Some("/bin/ui"), true));
    assert_eq!(worker.app_path.as_deref(), Some("\"/bin/ui\""));
    assert!(worker.get_app_path(None, true));
    assert!(!worker.get_app_path(None, true));
}

#[test]
fn daemon_stops_in_two_phases() {
    let mut handler = EventHandler::new();
    assert!(matches!(handler.interrupt(), EventAction::StopDevices(false)));
    assert!(matches!(handler.handle(EventTriggers::Stop(true)), EventAction::Nothing));
    assert!(!handler.finished);
    assert!(matches!(handler.handle(EventTriggers::DevicesStopped), EventAction::Finish));
    assert!(handler.finished);
}

#[test]
fn interface_is_reached_locally() {
    assert_eq!(get_util_url("0.0.0.0", 14564), "http://localhost:14564/");
    assert_eq!(get_util_url("localhost", 80), "http://localhost:80/");
    assert_eq!(get_util_url("10.0.0.1", 65535), "http://10.0.0.1:65535/");
}

#[test]
fn command_line_is_split_by_the_shell() {
    match unix_launch(Some("run 'a b' --url=%URL%"), "http://x/").unwrap() {
        Launch::Run(program, arguments) => {
            assert_eq!(program, "run");
            assert_eq!(arguments, vec!["a b", "--url=http://x/"]);
        }
        other => panic!("{:?}", other),
    }
    assert!(matches!(unix_launch(None, "u"), Some(Launch::Open)));
    assert!(matches!(unix_launch(Some("'open"), "u"), Some(Launch::Open)));
    assert!(unix_launch(Some(""), "u").is_none());
}

#[test]
fn command_line_is_split_by_windows() {
    match windows_launch(Some("\"C:\\a b.exe\" %URL% two"), "u") {
        Launch::Run(program, arguments) => {
            assert_eq!(program, "C:\\a b.exe");
            assert_eq!(arguments, vec!["u", "two"]);
        }
        other => panic!("{:?}", other),
    }
}

#[test]
fn audio_devices_are_found_by_patterns() {
    let patterns = get_output_device_string_patterns(&None);
    let devices = vec![
        text("speakers"),
        text("WASAPI*Sample (GoXLR Mini)"),
        text("WASAPI*Sample (GoXLR)"),
    ];
    assert_eq!(find_device(&devices, &patterns), Some(Some(2)));
    assert_eq!(find_device(&vec![text("none")], &patterns), Some(None));
    let patterns = get_input_device_string_patterns(&Some(text("[")));
    assert_eq!(find_device(&devices, &patterns), None);
    assert_eq!(get_input_device_string_patterns(&None).len(), 5);
    assert_eq!(find_device(&devices, &vec![text("Sam(p|x){1,3}le ?\\(G")]), Some(Some(1)));
    for harmful in [
        "a{18446744073709551615}b",
        "((?=)){18446744073709551615}",
        "(?:x(a|b\\1))+",
        "a{(?#})18446744073709551615}b",
        "\\k<9223372036854775807>",
        "(?:x(a|\\)\\1))+",
        "(?:x([)]|a\\1))+",
        "(?<n>a|b(?P=n))+",
    ] {
        assert!(!check_pattern(harmful));
        assert_eq!(find_device(&devices, &vec![text(harmful)]), None);
    }
    assert!(check_pattern("GoXLR_20240101_[0-9]{2}"));
    let named = vec![text("none"), text("xx abab")];
    for (pattern, place) in [
        ("(ab)\\1", Some(1)),
        ("(?<n>ab)\\k<n>$", Some(1)),
        ("(?P<n>x)(?P=n)", Some(1)),
        ("^(x)?(?(1)x|n)", Some(0)),
        ("(?#a remark)abab", Some(1)),
        ("(a)\\1", None),
        ("^x{2} [a-z0-9]{1,1000}$", Some(1)),
        ("x{2}_20240101", None),
    ] {
        assert!(check_pattern(pattern));
        assert_eq!(find_device(&named, &vec![text(pattern)]), Some(place));
    }
    assert!(check_pattern(&"a".repeat(10000)));
    assert!(!check_pattern(&"a".repeat(10001)));
}

#[test]
fn sample_is_stopped_in_two_steps() {
    let (bank, button) = (SampleBank::A, SampleButtons::TopLeft);
    let mut handler = AudioHandler::new(true);
    assert_eq!(
        handler.play_for_button(bank, button),
        Err(AudioError::NoOutputDevice)
    );
    handler.has_output = true;
    handler.play_for_button(bank, button).unwrap();
    assert!(handler.is_sample_playing(bank, button));
    assert!(!handler.is_sample_playing(bank, SampleButtons::TopRight));
    assert_eq!(handler.stop_playback(bank, button, false), Ok(StopAction::Stop));
    assert!(handler.is_sample_stopping(bank, button));
    assert_eq!(handler.stop_playback(bank, button, false), Ok(StopAction::StopAndWait));
    assert_eq!(handler.stop_playback(bank, button, true), Ok(StopAction::Nothing));
}

#[test]
fn recordings_end_once() {
    let (bank, button) = (SampleBank::B, SampleButtons::BottomLeft);
    let mut handler = AudioHandler::new(true);
    assert_eq!(
        handler.record_for_button(bank, button, false),
        Err(AudioError::RecorderNotReady)
    );
    handler.record_for_button(bank, button, true).unwrap();
    assert!(handler.is_sample_recording());
    assert_eq!(
        handler.stop_playback(bank, button, false),
        Err(AudioError::StopPlaybackOfRecording)
    );
    assert_eq!(handler.stop_record(bank, button), Ok(()));
    assert_eq!(handler.stop_record(bank, button), Err(AudioError::NotRecording));
    handler.has_output = true;
    handler.play_for_button(bank, button).unwrap();
    assert_eq!(
        handler.stop_record(bank, button),
        Err(AudioError::StopRecordingOfPlayback)
    );
    let mut deaf = AudioHandler::new(false);
    assert_eq!(
        deaf.record_for_button(bank, button, true),
        Err(AudioError::NoInputDevice)
    );
}

#[test]
fn ended_streams_are_forgotten() {
    let mut handler = AudioHandler::new(true);
    handler.has_output = true;
    handler.play_for_button(SampleBank::C, SampleButtons::TopLeft).unwrap();
    let mut finished = BankMap::fill(SampleMap::fill(false));
    assert!(!handler.check_playing(finished));
    finished.c.top_left = true;
    assert!(handler.check_playing(finished));
    assert!(!handler.check_playing(finished));
}

#[test]
fn one_gain_is_worked_out_at_a_time() {
    let mut handler = AudioHandler::new(true);
    assert_eq!(handler.is_calculating_complete(true), Err(AudioError::NotProcessing));
    assert_eq!(
        handler.get_and_clear_calculating_result(),
        Err(AudioError::NotProcessing)
    );
    handler.calculate_gain_thread(SampleBank::A, SampleButtons::TopLeft).unwrap();
    assert_eq!(
        handler.calculate_gain_thread(SampleBank::A, SampleButtons::TopRight),
        Err(AudioError::AlreadyProcessing)
    );
    assert_eq!(handler.get_calculating_progress(7), Ok(7));
    assert_eq!(
        handler.get_and_clear_calculating_result(),
        Ok((SampleBank::A, SampleButtons::TopLeft))
    );
    assert!(!handler.is_calculating());
}

#[test]
fn profiles_are_found_in_the_first_directory() {
    assert_eq!(from_named("A", &vec![false, true, true]), ProfileSource::Directory(1));
    assert_eq!(from_named("DEFAULT", &vec![false]), ProfileSource::Embedded);
    assert_eq!(from_named("A", &vec![false]), ProfileSource::Missing);
    assert_eq!(from_named_or_default(Some("A"), &vec![true], false), ProfileSource::Embedded);
    assert_eq!(from_named_or_default(None, &vec![true], true), ProfileSource::Embedded);
    assert_eq!(profile_file("A"), "A.goxlr");
    assert_eq!(mic_profile_file("A"), "A.goxlrMicProfile");
    assert_eq!(preset_name("My New Voice"), "My_New_Voice");
    assert!(!write_profile(false, true));
}
